//! Mail rules: reading a rule's conditions and actions from their JSON documents, matching
//! conditions against a message, and deciding what each action of a matching rule does.
use vstd::prelude::*;
use vstd::string::*;

use crate::json::{
    compact_json_text, get, js_get, json_compact, json_document, lemma_array_view,
    lemma_object_view, member_views, parse_json_document, views, Js, JsonMember, JsonValue,
};
use crate::model::{EmailAddress, Folder, KanbanColumn, Message, StoredWebhookEndpoint};
use crate::text::{
    all_ws, cat, chars_of, contains, ends_with, has_infix, has_prefix, has_suffix, lower,
    lowercase, own, seq_eq, starts_with, str_eq, string_of, trim, trim_bounds,
};

verus! {

/// One condition of a rule: which text of the message, how to compare, and with what.
#[derive(Debug, Clone)]
pub struct RuleCondition {
    pub field: String,
    pub op: String,
    pub value: String,
}

/// One action of a rule, with its argument when it has one.
#[derive(Debug, Clone)]
pub struct RuleAction {
    pub action_type: String,
    pub value: Option<String>,
}

/// A mail rule: its condition and action documents are JSON text.
#[derive(Debug, Clone)]
pub struct Rule {
    pub id: String,
    pub is_enabled: bool,
    pub conditions: String,
    pub actions: String,
}

/// An action to carry out for a message, with the rule it comes from.
#[derive(Debug)]
pub struct PlannedAction {
    pub rule_id: String,
    pub action: RuleAction,
}

/// What carrying out an action means.
#[derive(Debug)]
pub enum ActionStep {
    AddLabel(String),
    MoveToFolder(String),
    MarkRead,
    Star,
    Archive,
    SetKanbanColumn(KanbanColumn),
    SendWebhook(String),
    Nothing,
}

/// The view of a condition: field, operator, value.
pub open spec fn cond_view(c: RuleCondition) -> (Seq<char>, Seq<char>, Seq<char>) {
    (c.field@, c.op@, c.value@)
}

/// The view of an action: its type and argument.
pub open spec fn action_view(a: RuleAction) -> (Seq<char>, Option<Seq<char>>) {
    (
        a.action_type@,
        match a.value {
            Some(v) => Some(v@),
            None => None,
        },
    )
}

// ---------------------------------------------------------------------------
// Reading conditions
// ---------------------------------------------------------------------------

/// The condition a JSON value describes, as serde reads a `RuleCondition` from it: an object
/// with string members `field`, `op` and `value` (others ignored), or an array of exactly
/// three strings in that order.
pub open spec fn condition_of(j: Js) -> Option<(Seq<char>, Seq<char>, Seq<char>)> {
    match j {
        Js::Object(ms) => match (js_get(ms, "field"@), js_get(ms, "op"@), js_get(ms, "value"@)) {
            (Some(Js::Str(f)), Some(Js::Str(o)), Some(Js::Str(v))) => Some((f, o, v)),
            _ => None,
        },
        Js::Array(items) => if items.len() == 3 {
            match (items[0], items[1], items[2]) {
                (Js::Str(f), Js::Str(o), Js::Str(v)) => Some((f, o, v)),
                _ => None,
            }
        } else {
            None
        },
        _ => None,
    }
}

/// The conditions of a list of values, skipping those that are not conditions.
pub open spec fn conditions_of_items(items: Seq<Js>) -> Seq<(Seq<char>, Seq<char>, Seq<char>)>
    decreases items.len(),
{
    if items.len() == 0 {
        Seq::empty()
    } else {
        let rest = conditions_of_items(items.drop_last());
        match condition_of(items.last()) {
            Some(c) => rest.push(c),
            None => rest,
        }
    }
}

/// The text a member's value stands for in a condition: a string as it is, anything else as
/// its compact JSON text.
pub open spec fn value_text(j: Js) -> Seq<char> {
    match j {
        Js::Str(s) => s,
        _ => json_compact(j),
    }
}

/// The condition of one member of the shorthand object form (`{"subject": "urgent"}`).
pub open spec fn shorthand_condition(m: (Seq<char>, Js)) -> (Seq<char>, Seq<char>, Seq<char>) {
    (m.0, if m.0 == "has_attachment"@ {
        "equals"@
    } else {
        "contains"@
    }, value_text(m.1))
}

/// The conditions of the shorthand object form: one per member except `operator` and `conditions`.
pub open spec fn shorthand_conditions(ms: Seq<(Seq<char>, Js)>) -> Seq<
    (Seq<char>, Seq<char>, Seq<char>),
>
    decreases ms.len(),
{
    if ms.len() == 0 {
        Seq::empty()
    } else {
        let rest = shorthand_conditions(ms.drop_last());
        if ms.last().0 == "operator"@ || ms.last().0 == "conditions"@ {
            rest
        } else {
            rest.push(shorthand_condition(ms.last()))
        }
    }
}

/// The conditions of a rule's condition document: an array of conditions, an object whose
/// `conditions` member is such an array, or the shorthand object form; nothing otherwise.
pub open spec fn conditions_of(doc: Option<Js>) -> Seq<(Seq<char>, Seq<char>, Seq<char>)> {
    match doc {
        Some(Js::Array(items)) => conditions_of_items(items),
        Some(Js::Object(ms)) => match js_get(ms, "conditions"@) {
            Some(Js::Array(items)) => conditions_of_items(items),
            _ => shorthand_conditions(ms),
        },
        _ => Seq::empty(),
    }
}

// ---------------------------------------------------------------------------
// Reading actions
// ---------------------------------------------------------------------------

/// The canonical name of an action type; legacy spellings are mapped, others kept.
pub open spec fn normalized_action(t: Seq<char>) -> Seq<char> {
    if t == "archive"@ {
        "Archive"@
    } else if t == "mark_read"@ || t == "markread"@ {
        "MarkRead"@
    } else if t == "add_label"@ || t == "label"@ {
        "AddLabel"@
    } else if t == "move_to_folder"@ || t == "move"@ {
        "MoveToFolder"@
    } else if t == "set_kanban_column"@ {
        "SetKanbanColumn"@
    } else if t == "send_webhook"@ || t == "webhook"@ {
        "SendWebhook"@
    } else if t == "star"@ {
        "Star"@
    } else {
        t
    }
}

/// The action a JSON value describes: a bare type name, an object with a string `type`
/// (and an optional string `value`), or the legacy form whose first member names the type and
/// holds the argument.
pub open spec fn action_of(j: Js) -> Option<(Seq<char>, Option<Seq<char>>)> {
    match j {
        Js::Str(t) => Some((normalized_action(t), None)),
        Js::Object(ms) => match js_get(ms, "type"@) {
            Some(Js::Str(t)) => Some(
                (
                    normalized_action(t),
                    match js_get(ms, "value"@) {
                        Some(Js::Str(v)) => Some(v),
                        _ => None,
                    },
                ),
            ),
            _ => if ms.len() == 0 {
                None
            } else {
                Some((normalized_action(ms[0].0), Some(value_text(ms[0].1))))
            },
        },
        _ => None,
    }
}

/// The actions of a list of values, skipping those that are not actions.
pub open spec fn actions_of_items(items: Seq<Js>) -> Seq<(Seq<char>, Option<Seq<char>>)>
    decreases items.len(),
{
    if items.len() == 0 {
        Seq::empty()
    } else {
        let rest = actions_of_items(items.drop_last());
        match action_of(items.last()) {
            Some(a) => rest.push(a),
            None => rest,
        }
    }
}

/// The actions of a rule's action document, which must be an array.
pub open spec fn actions_of(doc: Option<Js>) -> Seq<(Seq<char>, Option<Seq<char>>)> {
    match doc {
        Some(Js::Array(items)) => actions_of_items(items),
        _ => Seq::empty(),
    }
}

// ---------------------------------------------------------------------------
// Matching
// ---------------------------------------------------------------------------

/// A recipient as rule conditions see it: name (or nothing), a space, the address.
pub open spec fn recipient_text(a: EmailAddress) -> Seq<char> {
    (match a.name {
        Some(n) => n@,
        None => Seq::empty(),
    }) + " "@ + a.address@
}

/// All recipients, separated by single spaces.
pub open spec fn recipients_text(list: Seq<EmailAddress>) -> Seq<char>
    decreases list.len(),
{
    if list.len() == 0 {
        Seq::empty()
    } else if list.len() == 1 {
        recipient_text(list[0])
    } else {
        recipients_text(list.drop_last()) + " "@ + recipient_text(list.last())
    }
}

/// The text of `s` up to its first `@` (all of it when there is none).
pub open spec fn before_at(s: Seq<char>) -> Seq<char>
    decreases s.len(),
{
    if s.len() == 0 || s[0] == '@' {
        Seq::empty()
    } else {
        seq![s[0]] + before_at(s.drop_first())
    }
}

/// The text of `s` after its first `@`, if it has one.
pub open spec fn after_at(s: Seq<char>) -> Option<Seq<char>>
    decreases s.len(),
{
    if s.len() == 0 {
        None
    } else if s[0] == '@' {
        Some(s.drop_first())
    } else {
        after_at(s.drop_first())
    }
}

/// The domain of an address: the second `@`-separated part (`split('@').nth(1)`), or nothing.
pub open spec fn domain_of(address: Seq<char>) -> Seq<char> {
    match after_at(address) {
        Some(rest) => before_at(rest),
        None => Seq::empty(),
    }
}

/// The text of a message that a condition on `field` compares.
pub open spec fn target_of(field: Seq<char>, m: Message) -> Seq<char> {
    if field == "from"@ {
        m.from_name@ + " "@ + m.from_address@
    } else if field == "to"@ {
        recipients_text(m.to_list@)
    } else if field == "subject"@ {
        m.subject@
    } else if field == "body"@ {
        m.body_text@ + " "@ + m.snippet@
    } else if field == "has_attachment"@ {
        if m.has_attachments {
            "true"@
        } else {
            "false"@
        }
    } else if field == "domain"@ {
        domain_of(m.from_address@)
    } else {
        Seq::empty()
    }
}

/// Whether `target` satisfies `op` with `value`, ignoring ASCII case; unknown operators never do.
pub open spec fn compare_spec(target: Seq<char>, op: Seq<char>, value: Seq<char>) -> bool {
    let t = lower(target);
    let v = lower(value);
    if op == "contains"@ {
        contains(t, v)
    } else if op == "not_contains"@ {
        !contains(t, v)
    } else if op == "equals"@ {
        t == v
    } else if op == "starts_with"@ {
        starts_with(t, v)
    } else if op == "ends_with"@ {
        ends_with(t, v)
    } else {
        false
    }
}

/// Whether a condition holds of a message.
pub open spec fn condition_holds(c: (Seq<char>, Seq<char>, Seq<char>), m: Message) -> bool {
    compare_spec(target_of(c.0, m), c.1, c.2)
}

/// Whether a rule with this condition document applies to a message: it has at least one
/// condition, and all of them hold.
pub open spec fn rule_applies(doc: Option<Js>, m: Message) -> bool {
    let cs = conditions_of(doc);
    cs.len() > 0 && forall|i: int| 0 <= i < cs.len() ==> #[trigger] condition_holds(cs[i], m)
}


/// The view of an optional document.
pub open spec fn doc_of(d: Option<&JsonValue>) -> Option<Js> {
    match d {
        Some(v) => Some(v@),
        None => None,
    }
}

/// The view of an optional owned document.
pub open spec fn owned_doc(d: Option<JsonValue>) -> Option<Js> {
    match d {
        Some(v) => Some(v@),
        None => None,
    }
}

/// The views of a list of conditions.
pub open spec fn cond_views(cs: Seq<RuleCondition>) -> Seq<(Seq<char>, Seq<char>, Seq<char>)> {
    cs.map_values(|c: RuleCondition| cond_view(c))
}

/// The views of a list of actions.
pub open spec fn action_views(a: Seq<RuleAction>) -> Seq<(Seq<char>, Option<Seq<char>>)> {
    a.map_values(|x: RuleAction| action_view(x))
}

// ---------------------------------------------------------------------------
// Reading documents
// ---------------------------------------------------------------------------

/// The string value of the first member named `key`, when it is a string.
fn get_str<'a>(members: &'a Vec<JsonMember>, key: &str) -> (r: Option<&'a String>)
    ensures
        match r {
            Some(s) => js_get(member_views(members@), key@) == Some(Js::Str(s@)),
            None => !(js_get(member_views(members@), key@) matches Some(Js::Str(_))),
        },
{
    match get(members, key) {
        Some(JsonValue::Str(s)) => Some(s),
        _ => None,
    }
}

/// The condition a JSON value describes, as serde reads a `RuleCondition`.
pub fn condition_from_value(v: &JsonValue) -> (r: Option<RuleCondition>)
    ensures
        match r {
            Some(c) => condition_of(v@) == Some(cond_view(c)),
            None => condition_of(v@) is None,
        },
{
    match v {
        JsonValue::Object(ms) => {
            proof {
                lemma_object_view(*ms);
            }
            let f = get_str(ms, "field");
            let o = get_str(ms, "op");
            let x = get_str(ms, "value");
            match (f, o, x) {
                (Some(f), Some(o), Some(x)) => Some(
                    RuleCondition { field: f.clone(), op: o.clone(), value: x.clone() },
                ),
                _ => None,
            }
        },
        JsonValue::Array(items) => {
            proof {
                lemma_array_view(*items);
            }
            if items.len() != 3 {
                return None;
            }
            match (&items[0], &items[1], &items[2]) {
                (JsonValue::Str(f), JsonValue::Str(o), JsonValue::Str(x)) => Some(
                    RuleCondition { field: f.clone(), op: o.clone(), value: x.clone() },
                ),
                _ => None,
            }
        },
        _ => None,
    }
}

/// The conditions of a list of values, skipping those that are not conditions.
fn conditions_from_items(items: &Vec<JsonValue>) -> (r: Vec<RuleCondition>)
    ensures
        cond_views(r@) == conditions_of_items(views(items@)),
{
    let mut r: Vec<RuleCondition> = Vec::new();
    let mut i: usize = 0;
    while i < items.len()
        invariant
            0 <= i <= items.len(),
            cond_views(r@) == conditions_of_items(views(items@).take(i as int)),
        decreases items.len() - i,
    {
        let ghost before = r@;
        match condition_from_value(&items[i]) {
            Some(c) => r.push(c),
            None => {},
        }
        assert(views(items@).take(i + 1).drop_last() =~= views(items@).take(i as int));
        assert(cond_views(r@) =~= conditions_of_items(views(items@).take(i + 1)));
        i += 1;
    }
    assert(views(items@).take(items.len() as int) =~= views(items@));
    r
}

/// The text a member's value stands for in a condition.
fn value_string(v: &JsonValue) -> (r: String)
    ensures
        r@ == value_text(v@),
{
    match v {
        JsonValue::Str(s) => s.clone(),
        _ => compact_json_text(v),
    }
}

/// The conditions of the shorthand object form.
fn shorthand_from_members(ms: &Vec<JsonMember>) -> (r: Vec<RuleCondition>)
    ensures
        cond_views(r@) == shorthand_conditions(member_views(ms@)),
{
    let mut r: Vec<RuleCondition> = Vec::new();
    let mut i: usize = 0;
    while i < ms.len()
        invariant
            0 <= i <= ms.len(),
            cond_views(r@) == shorthand_conditions(member_views(ms@).take(i as int)),
        decreases ms.len() - i,
    {
        let key = &ms[i].key;
        assert(member_views(ms@)[i as int] == (ms@[i as int].key@, ms@[i as int].value@));
        if !(str_eq(key.as_str(), "operator") || str_eq(key.as_str(), "conditions")) {
            let op = if str_eq(key.as_str(), "has_attachment") {
                own("equals")
            } else {
                own("contains")
            };
            r.push(RuleCondition { field: key.clone(), op, value: value_string(&ms[i].value) });
        }
        assert(member_views(ms@).take(i + 1).drop_last() =~= member_views(ms@).take(i as int));
        assert(cond_views(r@) =~= shorthand_conditions(member_views(ms@).take(i + 1)));
        i += 1;
    }
    assert(member_views(ms@).take(ms.len() as int) =~= member_views(ms@));
    r
}

/// The conditions of a rule's condition document (`None` when the text was not JSON).
pub fn conditions_of_document(doc: Option<&JsonValue>) -> (r: Vec<RuleCondition>)
    ensures
        cond_views(r@) == conditions_of(doc_of(doc)),
{
    match doc {
        Some(JsonValue::Array(items)) => {
            proof {
                lemma_array_view(*items);
            }
            conditions_from_items(items)
        },
        Some(JsonValue::Object(ms)) => {
            proof {
                lemma_object_view(*ms);
            }
            match get(ms, "conditions") {
                Some(JsonValue::Array(items)) => {
                    proof {
                        lemma_array_view(*items);
                    }
                    conditions_from_items(items)
                },
                _ => shorthand_from_members(ms),
            }
        },
        _ => {
            let r: Vec<RuleCondition> = Vec::new();
            assert(cond_views(r@) =~= Seq::empty());
            r
        },
    }
}

/// The canonical name of an action type.
pub fn normalize_action_type<'a>(action_type: &'a str) -> (res: &'a str)
    ensures
        res@ == normalized_action(action_type@),
{
    if str_eq(action_type, "archive") {
        "Archive"
    } else if str_eq(action_type, "mark_read") || str_eq(action_type, "markread") {
        "MarkRead"
    } else if str_eq(action_type, "add_label") || str_eq(action_type, "label") {
        "AddLabel"
    } else if str_eq(action_type, "move_to_folder") || str_eq(action_type, "move") {
        "MoveToFolder"
    } else if str_eq(action_type, "set_kanban_column") {
        "SetKanbanColumn"
    } else if str_eq(action_type, "send_webhook") || str_eq(action_type, "webhook") {
        "SendWebhook"
    } else if str_eq(action_type, "star") {
        "Star"
    } else {
        action_type
    }
}

/// The action a JSON value describes.
pub fn parse_action_value(v: &JsonValue) -> (r: Option<RuleAction>)
    ensures
        match r {
            Some(a) => action_of(v@) == Some(action_view(a)),
            None => action_of(v@) is None,
        },
{
    match v {
        JsonValue::Str(t) => Some(
            RuleAction { action_type: own(normalize_action_type(t.as_str())), value: None },
        ),
        JsonValue::Object(ms) => {
            proof {
                lemma_object_view(*ms);
            }
            match get(ms, "type") {
                Some(JsonValue::Str(t)) => {
                    let value = match get_str(ms, "value") {
                        Some(x) => Some(x.clone()),
                        None => None,
                    };
                    Some(
                        RuleAction { action_type: own(normalize_action_type(t.as_str())), value },
                    )
                },
                _ => {
                    if ms.len() == 0 {
                        return None;
                    }
                    assert(member_views(ms@)[0] == (ms@[0].key@, ms@[0].value@));
                    Some(
                        RuleAction {
                            action_type: own(normalize_action_type(ms[0].key.as_str())),
                            value: Some(value_string(&ms[0].value)),
                        },
                    )
                },
            }
        },
        _ => None,
    }
}

/// The actions of a rule's action document (`None` when the text was not JSON).
pub fn actions_of_document(doc: Option<&JsonValue>) -> (r: Vec<RuleAction>)
    ensures
        action_views(r@) == actions_of(doc_of(doc)),
{
    let mut r: Vec<RuleAction> = Vec::new();
    match doc {
        Some(JsonValue::Array(items)) => {
            proof {
                lemma_array_view(*items);
            }
            let mut i: usize = 0;
            while i < items.len()
                invariant
                    0 <= i <= items.len(),
                    action_views(r@) == actions_of_items(views(items@).take(i as int)),
                decreases items.len() - i,
            {
                match parse_action_value(&items[i]) {
                    Some(a) => r.push(a),
                    None => {},
                }
                assert(views(items@).take(i + 1).drop_last() =~= views(items@).take(i as int));
                assert(action_views(r@) =~= actions_of_items(views(items@).take(i + 1)));
                i += 1;
            }
            assert(views(items@).take(items.len() as int) =~= views(items@));
        },
        _ => {
            assert(action_views(r@) =~= Seq::empty());
        },
    }
    r
}


/// The conditions of a rule's condition text: nothing when it is not JSON.
pub fn parse_conditions(json: &str) -> (r: Vec<RuleCondition>)
    ensures
        cond_views(r@) == conditions_of(json_document(json@)),
{
    let doc = parse_json_document(json);
    let d = match &doc {
        Some(v) => Some(v),
        None => None,
    };
    assert(doc_of(d) == owned_doc(doc));
    conditions_of_document(d)
}

/// The actions of a rule's action text: nothing when it is not a JSON array.
pub fn parse_actions(json: &str) -> (r: Vec<RuleAction>)
    ensures
        action_views(r@) == actions_of(json_document(json@)),
{
    let doc = parse_json_document(json);
    let d = match &doc {
        Some(v) => Some(v),
        None => None,
    };
    assert(doc_of(d) == owned_doc(doc));
    actions_of_document(d)
}

// ---------------------------------------------------------------------------
// Matching
// ---------------------------------------------------------------------------

/// All recipients, separated by single spaces.
fn recipients_line(list: &Vec<EmailAddress>) -> (r: String)
    ensures
        r@ == recipients_text(list@),
{
    let mut r = String::new();
    let mut i: usize = 0;
    while i < list.len()
        invariant
            0 <= i <= list.len(),
            r@ == recipients_text(list@.take(i as int)),
        decreases list.len() - i,
    {
        if i > 0 {
            r.append(" ");
        }
        match &list[i].name {
            Some(n) => r.append(n.as_str()),
            None => {},
        }
        r.append(" ");
        r.append(list[i].address.as_str());
        assert(list@.take(i + 1).drop_last() =~= list@.take(i as int));
        assert(r@ =~= recipients_text(list@.take(i + 1)));
        i += 1;
    }
    assert(list@.take(list.len() as int) =~= list@);
    r
}

/// What `before_at` and `after_at` give when the first `@` is at position `i` (or absent).
proof fn lemma_at_split(s: Seq<char>, i: int)
    requires
        0 <= i <= s.len(),
        forall|k: int| 0 <= k < i ==> s[k] != '@',
        i == s.len() || s[i] == '@',
    ensures
        before_at(s) == s.subrange(0, i),
        i < s.len() ==> after_at(s) == Some(s.subrange(i + 1, s.len() as int)),
        i == s.len() ==> after_at(s) is None,
    decreases i,
{
    if i > 0 {
        lemma_at_split(s.drop_first(), i - 1);
        assert(s.drop_first().subrange(0, i - 1) =~= s.subrange(1, i));
        if i < s.len() {
            assert(s.drop_first().subrange(i, s.len() - 1) =~= s.subrange(i + 1, s.len() as int));
        }
        assert(seq![s[0]] + s.subrange(1, i) =~= s.subrange(0, i));
    } else {
        if s.len() > 0 {
            assert(s.drop_first() =~= s.subrange(1, s.len() as int));
        }
        assert(s.subrange(0, 0) =~= Seq::<char>::empty());
    }
}

/// The position of the first `@` at or after `from`, or the length.
fn find_at(v: &Vec<char>, from: usize) -> (i: usize)
    requires
        from <= v.len(),
    ensures
        from <= i <= v.len(),
        forall|k: int| from <= k < i ==> v@[k] != '@',
        i == v.len() || v@[i as int] == '@',
{
    let mut i = from;
    while i < v.len() && v[i] != '@'
        invariant
            from <= i <= v.len(),
            forall|k: int| from <= k < i ==> v@[k] != '@',
        decreases v.len() - i,
    {
        i += 1;
    }
    i
}

/// The domain of an address: the second `@`-separated part, or nothing.
fn domain_part(address: &str) -> (r: String)
    ensures
        r@ == domain_of(address@),
{
    let v = chars_of(address);
    let i = find_at(&v, 0);
    proof {
        lemma_at_split(v@, i as int);
    }
    if i == v.len() {
        return String::new();
    }
    let j = find_at(&v, i + 1);
    proof {
        let rest = v@.subrange(i + 1, v.len() as int);
        assert forall|k: int| 0 <= k < j - (i + 1) implies rest[k] != '@' by {
            assert(rest[k] == v@[k + i + 1]);
        }
        if j < v.len() {
            assert(rest[j - (i + 1)] == v@[j as int]);
        }
        lemma_at_split(rest, j - (i + 1));
        assert(rest.subrange(0, j - (i + 1)) =~= v@.subrange(i + 1, j as int));
    }
    crate::text::string_of_range(&v, i + 1, j)
}

/// The text of a message that a condition on `field` compares.
pub fn condition_target(field: &str, message: &Message) -> (r: String)
    ensures
        r@ == target_of(field@, *message),
{
    if str_eq(field, "from") {
        let mut s = cat(message.from_name.as_str(), " ");
        s.append(message.from_address.as_str());
        s
    } else if str_eq(field, "to") {
        recipients_line(&message.to_list)
    } else if str_eq(field, "subject") {
        message.subject.clone()
    } else if str_eq(field, "body") {
        let mut s = cat(message.body_text.as_str(), " ");
        s.append(message.snippet.as_str());
        s
    } else if str_eq(field, "has_attachment") {
        if message.has_attachments {
            own("true")
        } else {
            own("false")
        }
    } else if str_eq(field, "domain") {
        domain_part(message.from_address.as_str())
    } else {
        String::new()
    }
}

/// Whether `target` satisfies `op` with `value`, ignoring ASCII case.
pub fn compare_text(target: &str, op: &str, value: &str) -> (res: bool)
    ensures
        res == compare_spec(target@, op@, value@),
{
    let t = lowercase(&chars_of(target));
    let v = lowercase(&chars_of(value));
    if str_eq(op, "contains") {
        has_infix(&t, &v)
    } else if str_eq(op, "not_contains") {
        !has_infix(&t, &v)
    } else if str_eq(op, "equals") {
        seq_eq(&t, &v)
    } else if str_eq(op, "starts_with") {
        has_prefix(&t, &v)
    } else if str_eq(op, "ends_with") {
        has_suffix(&t, &v)
    } else {
        false
    }
}

/// Whether a condition holds of a message.
pub fn condition_matches(condition: &RuleCondition, message: &Message) -> (res: bool)
    ensures
        res == condition_holds(cond_view(*condition), *message),
{
    let target = condition_target(condition.field.as_str(), message);
    compare_text(target.as_str(), condition.op.as_str(), condition.value.as_str())
}

/// Whether a rule applies to a message: it has conditions and all of them hold.
pub fn rule_matches(rule: &Rule, message: &Message) -> (res: bool)
    ensures
        res == rule_applies(json_document(rule.conditions@), *message),
{
    let conditions = parse_conditions(rule.conditions.as_str());
    let ghost cs = conditions_of(json_document(rule.conditions@));
    assert(cs.len() == conditions@.len());
    if conditions.len() == 0 {
        return false;
    }
    let mut i: usize = 0;
    while i < conditions.len()
        invariant
            0 <= i <= conditions.len(),
            cs == cond_views(conditions@),
            cs == conditions_of(json_document(rule.conditions@)),
            forall|k: int| 0 <= k < i ==> #[trigger] condition_holds(cs[k], *message),
        decreases conditions.len() - i,
    {
        if !condition_matches(&conditions[i], message) {
            assert(!condition_holds(cs[i as int], *message));
            return false;
        }
        i += 1;
    }
    true
}


// ---------------------------------------------------------------------------
// Planning actions
// ---------------------------------------------------------------------------

/// The actions a rule contributes for a message, tagged with the rule's id: all of its
/// actions when it is enabled and applies, none otherwise.
pub open spec fn rule_plan(r: Rule, m: Message) -> Seq<
    (Seq<char>, (Seq<char>, Option<Seq<char>>)),
> {
    if r.is_enabled && rule_applies(json_document(r.conditions@), m) {
        actions_of(json_document(r.actions@)).map_values(
            |a: (Seq<char>, Option<Seq<char>>)| (r.id@, a),
        )
    } else {
        Seq::empty()
    }
}

/// The actions of all rules for a message, rule by rule in order.
pub open spec fn rules_plan(rs: Seq<Rule>, m: Message) -> Seq<
    (Seq<char>, (Seq<char>, Option<Seq<char>>)),
>
    decreases rs.len(),
{
    if rs.len() == 0 {
        Seq::empty()
    } else {
        rules_plan(rs.drop_last(), m) + rule_plan(rs.last(), m)
    }
}

/// The view of a planned action.
pub open spec fn planned_view(p: PlannedAction) -> (Seq<char>, (Seq<char>, Option<Seq<char>>)) {
    (p.rule_id@, action_view(p.action))
}

/// A copy of an action.
fn copy_action(a: &RuleAction) -> (r: RuleAction)
    ensures
        action_view(r) == action_view(*a),
{
    RuleAction {
        action_type: a.action_type.clone(),
        value: match &a.value {
            Some(v) => Some(v.clone()),
            None => None,
        },
    }
}

/// The actions to carry out for a message: for each enabled rule whose conditions all hold,
/// each of its actions, in order.
pub fn plan_rule_actions(rules: &Vec<Rule>, message: &Message) -> (r: Vec<PlannedAction>)
    ensures
        r@.map_values(|p: PlannedAction| planned_view(p)) == rules_plan(rules@, *message),
{
    let mut r: Vec<PlannedAction> = Vec::new();
    let mut i: usize = 0;
    while i < rules.len()
        invariant
            0 <= i <= rules.len(),
            r@.map_values(|p: PlannedAction| planned_view(p)) == rules_plan(
                rules@.take(i as int),
                *message,
            ),
        decreases rules.len() - i,
    {
        let rule = &rules[i];
        let ghost before = r@.map_values(|p: PlannedAction| planned_view(p));
        if rule.is_enabled && rule_matches(rule, message) {
            let actions = parse_actions(rule.actions.as_str());
            let ghost tagged = action_views(actions@).map_values(
                |a: (Seq<char>, Option<Seq<char>>)| (rule.id@, a),
            );
            let mut j: usize = 0;
            while j < actions.len()
                invariant
                    0 <= j <= actions.len(),
                    r@.map_values(|p: PlannedAction| planned_view(p)) == before + tagged.take(
                        j as int,
                    ),
                    tagged == action_views(actions@).map_values(
                        |a: (Seq<char>, Option<Seq<char>>)| (rule.id@, a),
                    ),
                decreases actions.len() - j,
            {
                let ghost old_r = r@;
                r.push(PlannedAction { rule_id: rule.id.clone(), action: copy_action(&actions[j]) });
                assert(action_views(actions@)[j as int] == action_view(actions@[j as int]));
                assert(tagged[j as int] == (rule.id@, action_view(actions@[j as int])));
                assert(r@ == old_r.push(r@.last()));
                assert(r@.map_values(|p: PlannedAction| planned_view(p)) =~= old_r.map_values(
                    |p: PlannedAction| planned_view(p),
                ).push(tagged[j as int]));
                assert(tagged.take(j + 1) =~= tagged.take(j as int).push(tagged[j as int]));
                assert(r@.map_values(|p: PlannedAction| planned_view(p)) =~= before + tagged.take(
                    j + 1,
                ));
                j += 1;
            }
            assert(tagged.take(actions.len() as int) =~= tagged);
            assert(tagged =~= rule_plan(*rule, *message));
        } else {
            assert(rule_plan(*rule, *message) =~= Seq::empty());
            assert(before + rule_plan(*rule, *message) =~= before);
        }
        assert(rules@.take(i + 1).drop_last() =~= rules@.take(i as int));
        assert(rules@.take(i + 1).last() == rules@[i as int]);
        i += 1;
    }
    assert(rules@.take(rules.len() as int) =~= rules@);
    r
}

/// The view of what an action does.
pub enum StepSpec {
    AddLabel(Seq<char>),
    MoveToFolder(Seq<char>),
    MarkRead,
    Star,
    Archive,
    SetKanbanColumn(KanbanColumn),
    SendWebhook(Seq<char>),
    Nothing,
}

/// The view of an action step.
pub open spec fn step_view(s: ActionStep) -> StepSpec {
    match s {
        ActionStep::AddLabel(v) => StepSpec::AddLabel(v@),
        ActionStep::MoveToFolder(v) => StepSpec::MoveToFolder(v@),
        ActionStep::MarkRead => StepSpec::MarkRead,
        ActionStep::Star => StepSpec::Star,
        ActionStep::Archive => StepSpec::Archive,
        ActionStep::SetKanbanColumn(c) => StepSpec::SetKanbanColumn(c),
        ActionStep::SendWebhook(v) => StepSpec::SendWebhook(v@),
        ActionStep::Nothing => StepSpec::Nothing,
    }
}

/// The column a `SetKanbanColumn` argument names: `waiting`, `done`, or else to-do.
pub open spec fn column_named(v: Seq<char>) -> KanbanColumn {
    if v == "waiting"@ {
        KanbanColumn::Waiting
    } else if v == "done"@ {
        KanbanColumn::Done
    } else {
        KanbanColumn::Todo
    }
}

/// The trimmed argument of an action, when present and not blank.
pub open spec fn argument_of(a: (Seq<char>, Option<Seq<char>>)) -> Option<Seq<char>> {
    match a.1 {
        Some(v) => if all_ws(v) {
            None
        } else {
            Some(trim(v))
        },
        None => None,
    }
}

/// What an action does, or why it cannot be done: the named actions that need an argument
/// fail with `"{field} is required"` without one; unknown types do nothing.
pub open spec fn step_of(a: (Seq<char>, Option<Seq<char>>)) -> Result<StepSpec, Seq<char>> {
    let t = a.0;
    if t == "AddLabel"@ {
        match argument_of(a) {
            Some(v) => Ok(StepSpec::AddLabel(v)),
            None => Err("Label name"@ + " is required"@),
        }
    } else if t == "MoveToFolder"@ {
        match argument_of(a) {
            Some(v) => Ok(StepSpec::MoveToFolder(v)),
            None => Err("Folder"@ + " is required"@),
        }
    } else if t == "MarkRead"@ {
        Ok(StepSpec::MarkRead)
    } else if t == "Star"@ {
        Ok(StepSpec::Star)
    } else if t == "Archive"@ {
        Ok(StepSpec::Archive)
    } else if t == "SetKanbanColumn"@ {
        Ok(
            StepSpec::SetKanbanColumn(
                column_named(
                    match a.1 {
                        Some(v) => v,
                        None => "todo"@,
                    },
                ),
            ),
        )
    } else if t == "SendWebhook"@ {
        match argument_of(a) {
            Some(v) => Ok(StepSpec::SendWebhook(v)),
            None => Err("Webhook endpoint"@ + " is required"@),
        }
    } else {
        Ok(StepSpec::Nothing)
    }
}

/// The trimmed argument of an action, or `"{field} is required"`.
pub fn required_value<'a>(action: &'a RuleAction, field: &str) -> (res: Result<&'a str, String>)
    ensures
        match res {
            Ok(v) => argument_of(action_view(*action)) == Some(v@),
            Err(e) => argument_of(action_view(*action)) is None && e@ == field@ + " is required"@,
        },
{
    let v = crate::notifications::opt_str(&action.value);
    crate::notifications::require_non_empty(v, field)
}

/// The kanban column a `SetKanbanColumn` argument names.
pub fn parse_kanban_column(value: &str) -> (c: KanbanColumn)
    ensures
        c == column_named(value@),
{
    if str_eq(value, "waiting") {
        KanbanColumn::Waiting
    } else if str_eq(value, "done") {
        KanbanColumn::Done
    } else {
        KanbanColumn::Todo
    }
}

/// What carrying out an action means for the message.
pub fn plan_action(action: &RuleAction) -> (res: Result<ActionStep, String>)
    ensures
        match res {
            Ok(s) => step_of(action_view(*action)) == Ok::<StepSpec, Seq<char>>(step_view(s)),
            Err(e) => step_of(action_view(*action)) == Err::<StepSpec, Seq<char>>(e@),
        },
{
    let t = action.action_type.as_str();
    if str_eq(t, "AddLabel") {
        match required_value(action, "Label name") {
            Ok(v) => Ok(ActionStep::AddLabel(own(v))),
            Err(e) => Err(e),
        }
    } else if str_eq(t, "MoveToFolder") {
        match required_value(action, "Folder") {
            Ok(v) => Ok(ActionStep::MoveToFolder(own(v))),
            Err(e) => Err(e),
        }
    } else if str_eq(t, "MarkRead") {
        Ok(ActionStep::MarkRead)
    } else if str_eq(t, "Star") {
        Ok(ActionStep::Star)
    } else if str_eq(t, "Archive") {
        Ok(ActionStep::Archive)
    } else if str_eq(t, "SetKanbanColumn") {
        let column = match &action.value {
            Some(v) => parse_kanban_column(v.as_str()),
            None => parse_kanban_column("todo"),
        };
        Ok(ActionStep::SetKanbanColumn(column))
    } else if str_eq(t, "SendWebhook") {
        match required_value(action, "Webhook endpoint") {
            Ok(v) => Ok(ActionStep::SendWebhook(own(v))),
            Err(e) => Err(e),
        }
    } else {
        Ok(ActionStep::Nothing)
    }
}

/// A folder that a `MoveToFolder` argument names: by id, or by name ignoring ASCII case.
pub open spec fn folder_matches(f: Folder, value: Seq<char>) -> bool {
    f.id@ == value || lower(f.name@) == lower(value)
}

/// The first folder the argument names.
pub open spec fn first_folder(fs: Seq<Folder>, value: Seq<char>) -> Option<int>
    decreases fs.len(),
{
    if fs.len() == 0 {
        None
    } else if folder_matches(fs[0], value) {
        Some(0)
    } else {
        match first_folder(fs.drop_first(), value) {
            Some(i) => Some(i + 1),
            None => None,
        }
    }
}

/// The id of the folder a `MoveToFolder` argument names, or `Folder not found: {value}`.
pub fn choose_folder(folders: &Vec<Folder>, value: &str) -> (res: Result<String, String>)
    ensures
        match res {
            Ok(id) => first_folder(folders@, value@) matches Some(i) && 0 <= i < folders@.len()
                && id@ == folders@[i].id@,
            Err(e) => first_folder(folders@, value@) is None && e@ == "Folder not found: "@
                + value@,
        },
{
    let v = lowercase(&chars_of(value));
    let mut i: usize = 0;
    assert(folders@.subrange(0, folders@.len() as int) == folders@);
    while i < folders.len()
        invariant
            0 <= i <= folders.len(),
            v@ == lower(value@),
            first_folder(folders@, value@) == (match first_folder(
                folders@.subrange(i as int, folders@.len() as int),
                value@,
            ) {
                Some(k) => Some(k + i),
                None => None,
            }),
        decreases folders.len() - i,
    {
        let ghost rest = folders@.subrange(i as int, folders@.len() as int);
        assert(rest[0] == folders@[i as int]);
        assert(rest.drop_first() =~= folders@.subrange(i + 1, folders@.len() as int));
        let f = &folders[i];
        if str_eq(f.id.as_str(), value) || seq_eq(&lowercase(&chars_of(f.name.as_str())), &v) {
            return Ok(f.id.clone());
        }
        i += 1;
    }
    Err(cat("Folder not found: ", value))
}

/// Whether a `SendWebhook` action sends: `Ok(true)` for an enabled endpoint, `Ok(false)` for a
/// disabled one, and `Webhook endpoint not found: {id}` when there is none.
pub fn webhook_delivery(id: &str, endpoint: Option<&StoredWebhookEndpoint>) -> (res: Result<
    bool,
    String,
>)
    ensures
        match endpoint {
            Some(e) => res == Ok::<bool, String>(e.endpoint.is_enabled),
            None => res matches Err(m) && m@ == "Webhook endpoint not found: "@ + id@,
        },
{
    match endpoint {
        Some(e) => Ok(e.endpoint.is_enabled),
        None => Err(cat("Webhook endpoint not found: ", id)),
    }
}


// ---------------------------------------------------------------------------
// Laws
// ---------------------------------------------------------------------------

/// `not_contains` holds exactly when `contains` does not.
pub proof fn lemma_not_contains_negates(target: Seq<char>, value: Seq<char>)
    ensures
        compare_spec(target, "not_contains"@, value) == !compare_spec(target, "contains"@, value),
{
    reveal_strlit("not_contains");
    reveal_strlit("contains");
    assert("not_contains"@[0] != "contains"@[0]);
}

/// ASCII uppercase then lowercase is lowercase.
proof fn lemma_lower_upper(s: Seq<char>)
    ensures
        lower(crate::text::upper(s)) == lower(s),
{
    assert forall|i: int| 0 <= i < s.len() implies #[trigger] lower(crate::text::upper(s))[i]
        == lower(s)[i] by {
        let c = s[i];
        if 'a' <= c && c <= 'z' {
            assert(((((c as u32) - 32) as char) as u32) == (c as u32) - 32);
        }
    }
    assert(lower(crate::text::upper(s)) =~= lower(s));
}

/// Conditions ignore ASCII case: uppercasing the message text or the value changes nothing.
pub proof fn lemma_compare_ignores_case(target: Seq<char>, op: Seq<char>, value: Seq<char>)
    ensures
        compare_spec(crate::text::upper(target), op, crate::text::upper(value)) == compare_spec(
            target,
            op,
            value,
        ),
{
    lemma_lower_upper(target);
    lemma_lower_upper(value);
}

/// A text that `equals` the value also `contains` it, `starts_with` it and `ends_with` it.
pub proof fn lemma_equals_implies_others(target: Seq<char>, value: Seq<char>)
    requires
        compare_spec(target, "equals"@, value),
    ensures
        compare_spec(target, "contains"@, value),
        compare_spec(target, "starts_with"@, value),
        compare_spec(target, "ends_with"@, value),
{
    reveal_strlit("equals");
    reveal_strlit("contains");
    reveal_strlit("not_contains");
    reveal_strlit("starts_with");
    reveal_strlit("ends_with");
    assert("equals"@.len() == 6 && "equals"@[0] == 'e' && "equals"@[1] == 'q');
    assert("contains"@.len() == 8 && "contains"@[0] == 'c' && "contains"@[1] == 'o');
    assert("not_contains"@.len() == 12 && "not_contains"@[0] == 'n' && "not_contains"@[1] == 'o');
    assert("starts_with"@.len() == 11 && "starts_with"@[0] == 's' && "starts_with"@[1] == 't');
    assert("ends_with"@.len() == 9 && "ends_with"@[0] == 'e' && "ends_with"@[1] == 'n');
    let t = lower(target);
    assert(t.subrange(0, t.len() as int) =~= t);
    assert(crate::text::occurs_at(t, lower(value), 0));
}

/// Every text contains the empty value.
pub proof fn lemma_contains_empty(target: Seq<char>)
    ensures
        compare_spec(target, "contains"@, Seq::empty()),
{
    let e: Seq<char> = Seq::empty();
    assert(lower(e) =~= e);
    assert(lower(target).subrange(0, 0) =~= e);
    assert(crate::text::occurs_at(lower(target), lower(e), 0));
}

/// A rule without conditions never applies, whatever the message.
pub proof fn lemma_no_conditions_never_match(doc: Option<Js>, m: Message)
    requires
        conditions_of(doc).len() == 0,
    ensures
        !rule_applies(doc, m),
{
}

/// Normalizing an action type twice gives what normalizing once gives.
pub proof fn lemma_normalize_idempotent(t: Seq<char>)
    ensures
        normalized_action(normalized_action(t)) == normalized_action(t),
{
    reveal_strlit("archive");
    reveal_strlit("mark_read");
    reveal_strlit("markread");
    reveal_strlit("add_label");
    reveal_strlit("label");
    reveal_strlit("move_to_folder");
    reveal_strlit("move");
    reveal_strlit("set_kanban_column");
    reveal_strlit("send_webhook");
    reveal_strlit("webhook");
    reveal_strlit("star");
    reveal_strlit("Archive");
    reveal_strlit("MarkRead");
    reveal_strlit("AddLabel");
    reveal_strlit("MoveToFolder");
    reveal_strlit("SetKanbanColumn");
    reveal_strlit("SendWebhook");
    reveal_strlit("Star");
    assert("archive"@.len() == 7 && "archive"@[0] == 'a');
    assert("mark_read"@.len() == 9 && "mark_read"@[0] == 'm');
    assert("markread"@.len() == 8 && "markread"@[0] == 'm');
    assert("add_label"@.len() == 9 && "add_label"@[0] == 'a');
    assert("label"@.len() == 5 && "label"@[0] == 'l');
    assert("move_to_folder"@.len() == 14 && "move_to_folder"@[0] == 'm');
    assert("move"@.len() == 4 && "move"@[0] == 'm');
    assert("set_kanban_column"@.len() == 17 && "set_kanban_column"@[0] == 's');
    assert("send_webhook"@.len() == 12 && "send_webhook"@[0] == 's');
    assert("webhook"@.len() == 7 && "webhook"@[0] == 'w');
    assert("star"@.len() == 4 && "star"@[0] == 's');
    assert("Archive"@.len() == 7 && "Archive"@[0] == 'A');
    assert("MarkRead"@.len() == 8 && "MarkRead"@[0] == 'M');
    assert("AddLabel"@.len() == 8 && "AddLabel"@[0] == 'A');
    assert("MoveToFolder"@.len() == 12 && "MoveToFolder"@[0] == 'M');
    assert("SetKanbanColumn"@.len() == 15 && "SetKanbanColumn"@[0] == 'S');
    assert("SendWebhook"@.len() == 11 && "SendWebhook"@[0] == 'S');
    assert("Star"@.len() == 4 && "Star"@[0] == 'S');
}

/// Disabled rules contribute no actions.
pub proof fn lemma_disabled_rule_plans_nothing(r: Rule, m: Message)
    requires
        !r.is_enabled,
    ensures
        rule_plan(r, m).len() == 0,
{
}


/// A rule with a condition that does not hold never applies, whatever its other conditions do.
pub proof fn lemma_failing_condition_blocks_rule(doc: Option<Js>, m: Message, i: int)
    requires
        0 <= i < conditions_of(doc).len(),
        !condition_holds(conditions_of(doc)[i], m),
    ensures
        !rule_applies(doc, m),
{
}

/// A rule applies exactly when it has at least one condition and each of its conditions holds.
pub proof fn lemma_rule_applies_iff_every_condition_holds(doc: Option<Js>, m: Message)
    ensures
        rule_applies(doc, m) ==> conditions_of(doc).len() > 0,
        rule_applies(doc, m) ==> forall|i: int|
            0 <= i < conditions_of(doc).len() ==> condition_holds(#[trigger] conditions_of(doc)[i], m),
        (conditions_of(doc).len() > 0 && forall|i: int|
            0 <= i < conditions_of(doc).len() ==> condition_holds(#[trigger] conditions_of(doc)[i], m))
            ==> rule_applies(doc, m),
{
}

/// The lengths and first characters of the action names, which tell them apart.
proof fn lemma_action_literals()
    ensures
        "archive"@.len() == 7 && "archive"@[0] == 'a',
        "mark_read"@.len() == 9 && "mark_read"@[0] == 'm',
        "markread"@.len() == 8 && "markread"@[0] == 'm',
        "add_label"@.len() == 9 && "add_label"@[0] == 'a',
        "label"@.len() == 5 && "label"@[0] == 'l',
        "move_to_folder"@.len() == 14 && "move_to_folder"@[0] == 'm',
        "move"@.len() == 4 && "move"@[0] == 'm',
        "set_kanban_column"@.len() == 17 && "set_kanban_column"@[0] == 's',
        "send_webhook"@.len() == 12 && "send_webhook"@[0] == 's',
        "webhook"@.len() == 7 && "webhook"@[0] == 'w',
        "star"@.len() == 4 && "star"@[0] == 's',
        "Archive"@.len() == 7 && "Archive"@[0] == 'A',
        "MarkRead"@.len() == 8 && "MarkRead"@[0] == 'M',
        "AddLabel"@.len() == 8 && "AddLabel"@[0] == 'A',
        "MoveToFolder"@.len() == 12 && "MoveToFolder"@[0] == 'M',
        "SetKanbanColumn"@.len() == 15 && "SetKanbanColumn"@[0] == 'S',
        "SendWebhook"@.len() == 11 && "SendWebhook"@[0] == 'S',
        "Star"@.len() == 4 && "Star"@[0] == 'S',
{
    reveal_strlit("archive");
    reveal_strlit("mark_read");
    reveal_strlit("markread");
    reveal_strlit("add_label");
    reveal_strlit("label");
    reveal_strlit("move_to_folder");
    reveal_strlit("move");
    reveal_strlit("set_kanban_column");
    reveal_strlit("send_webhook");
    reveal_strlit("webhook");
    reveal_strlit("star");
    reveal_strlit("Archive");
    reveal_strlit("MarkRead");
    reveal_strlit("AddLabel");
    reveal_strlit("MoveToFolder");
    reveal_strlit("SetKanbanColumn");
    reveal_strlit("SendWebhook");
    reveal_strlit("Star");
}

/// Every legacy action name reads as its canonical action; canonical names and any other
/// name are kept as they are.
pub proof fn lemma_legacy_action_names(t: Seq<char>)
    ensures
        t == "archive"@ ==> normalized_action(t) == "Archive"@,
        t == "mark_read"@ || t == "markread"@ ==> normalized_action(t) == "MarkRead"@,
        t == "add_label"@ || t == "label"@ ==> normalized_action(t) == "AddLabel"@,
        t == "move_to_folder"@ || t == "move"@ ==> normalized_action(t) == "MoveToFolder"@,
        t == "set_kanban_column"@ ==> normalized_action(t) == "SetKanbanColumn"@,
        t == "send_webhook"@ || t == "webhook"@ ==> normalized_action(t) == "SendWebhook"@,
        t == "star"@ ==> normalized_action(t) == "Star"@,
        t != "archive"@ && t != "mark_read"@ && t != "markread"@ && t != "add_label"@ && t
            != "label"@ && t != "move_to_folder"@ && t != "move"@ && t != "set_kanban_column"@
            && t != "send_webhook"@ && t != "webhook"@ && t != "star"@ ==> normalized_action(t)
            == t,
{
    lemma_action_literals();
}

/// Each known action type plans to the step of the same name, for every argument: the steps
/// that need an argument take it trimmed and fail without one, a kanban column defaults to
/// to-do, and an unknown type does nothing.
pub proof fn lemma_action_steps(t: Seq<char>, v: Option<Seq<char>>)
    ensures
        t == "Archive"@ ==> step_of((t, v)) == Ok::<StepSpec, Seq<char>>(StepSpec::Archive),
        t == "MarkRead"@ ==> step_of((t, v)) == Ok::<StepSpec, Seq<char>>(StepSpec::MarkRead),
        t == "Star"@ ==> step_of((t, v)) == Ok::<StepSpec, Seq<char>>(StepSpec::Star),
        t == "AddLabel"@ ==> step_of((t, v)) == match v {
            Some(x) => if all_ws(x) {
                Err::<StepSpec, Seq<char>>("Label name is required"@)
            } else {
                Ok(StepSpec::AddLabel(trim(x)))
            },
            None => Err("Label name is required"@),
        },
        t == "MoveToFolder"@ ==> step_of((t, v)) == match v {
            Some(x) => if all_ws(x) {
                Err::<StepSpec, Seq<char>>("Folder is required"@)
            } else {
                Ok(StepSpec::MoveToFolder(trim(x)))
            },
            None => Err("Folder is required"@),
        },
        t == "SendWebhook"@ ==> step_of((t, v)) == match v {
            Some(x) => if all_ws(x) {
                Err::<StepSpec, Seq<char>>("Webhook endpoint is required"@)
            } else {
                Ok(StepSpec::SendWebhook(trim(x)))
            },
            None => Err("Webhook endpoint is required"@),
        },
        t == "SetKanbanColumn"@ ==> step_of((t, v)) == Ok::<StepSpec, Seq<char>>(
            StepSpec::SetKanbanColumn(
                if v == Some("waiting"@) {
                    KanbanColumn::Waiting
                } else if v == Some("done"@) {
                    KanbanColumn::Done
                } else {
                    KanbanColumn::Todo
                },
            ),
        ),
        t != "Archive"@ && t != "MarkRead"@ && t != "Star"@ && t != "AddLabel"@ && t
            != "MoveToFolder"@ && t != "SendWebhook"@ && t != "SetKanbanColumn"@ ==> step_of(
            (t, v),
        ) == Ok::<StepSpec, Seq<char>>(StepSpec::Nothing),
{
    lemma_action_literals();
    reveal_strlit("Label name");
    reveal_strlit(" is required");
    reveal_strlit("Label name is required");
    reveal_strlit("Folder");
    reveal_strlit("Folder is required");
    reveal_strlit("Webhook endpoint");
    reveal_strlit("Webhook endpoint is required");
    reveal_strlit("todo");
    reveal_strlit("waiting");
    reveal_strlit("done");
    assert("Label name"@ + " is required"@ =~= "Label name is required"@);
    assert("Folder"@ + " is required"@ =~= "Folder is required"@);
    assert("Webhook endpoint"@ + " is required"@ =~= "Webhook endpoint is required"@);
    assert("todo"@.len() == 4 && "waiting"@.len() == 7 && "done"@.len() == 4);
    assert("todo"@[0] == 't' && "done"@[0] == 'd');
}


/// What each comparison operator means, ignoring ASCII case: `contains` finds the value at some
/// position of the text, `not_contains` at none, `equals` is equality, `starts_with` and
/// `ends_with` find it at the start or the end; any other operator never holds.
pub proof fn lemma_compare_operators(target: Seq<char>, op: Seq<char>, value: Seq<char>)
    ensures
        ({
            let t = lower(target);
            let v = lower(value);
            &&& op == "contains"@ ==> (compare_spec(target, op, value) <==> exists|i: int|
                0 <= i && i + v.len() <= t.len() && #[trigger] t.subrange(i, i + v.len()) == v)
            &&& op == "not_contains"@ ==> (compare_spec(target, op, value) <==> !exists|i: int|
                0 <= i && i + v.len() <= t.len() && #[trigger] t.subrange(i, i + v.len()) == v)
            &&& op == "equals"@ ==> (compare_spec(target, op, value) <==> t == v)
            &&& op == "starts_with"@ ==> (compare_spec(target, op, value) <==> v.len() <= t.len()
                && t.subrange(0, v.len() as int) == v)
            &&& op == "ends_with"@ ==> (compare_spec(target, op, value) <==> v.len() <= t.len()
                && t.subrange(t.len() - v.len(), t.len() as int) == v)
            &&& (op != "contains"@ && op != "not_contains"@ && op != "equals"@ && op
                != "starts_with"@ && op != "ends_with"@) ==> !compare_spec(target, op, value)
        }),
{
    reveal_strlit("equals");
    reveal_strlit("contains");
    reveal_strlit("not_contains");
    reveal_strlit("starts_with");
    reveal_strlit("ends_with");
    assert("equals"@.len() == 6 && "equals"@[0] == 'e');
    assert("contains"@.len() == 8 && "contains"@[0] == 'c');
    assert("not_contains"@.len() == 12 && "not_contains"@[0] == 'n');
    assert("starts_with"@.len() == 11 && "starts_with"@[0] == 's');
    assert("ends_with"@.len() == 9 && "ends_with"@[0] == 'e');
    let t = lower(target);
    let v = lower(value);
    assert((exists|i: int| 0 <= i && i + v.len() <= t.len() && #[trigger] t.subrange(i, i + v.len()) == v)
        <==> contains(t, v)) by {
        if contains(t, v) {
            let i = choose|i: int| crate::text::occurs_at(t, v, i);
            assert(t.subrange(i, i + v.len()) == v);
        }
        if exists|i: int| 0 <= i && i + v.len() <= t.len() && #[trigger] t.subrange(i, i + v.len()) == v {
            let i = choose|i: int| 0 <= i && i + v.len() <= t.len() && #[trigger] t.subrange(i, i + v.len()) == v;
            assert(crate::text::occurs_at(t, v, i));
        }
    }
}

/// The text each condition field compares: sender name and address, the recipients, the
/// subject, body text and snippet, `true`/`false` for attachments, the sender's domain, and
/// nothing for an unknown field.
pub proof fn lemma_condition_targets(field: Seq<char>, m: Message)
    ensures
        field == "from"@ ==> target_of(field, m) == m.from_name@ + " "@ + m.from_address@,
        field == "to"@ ==> target_of(field, m) == recipients_text(m.to_list@),
        field == "subject"@ ==> target_of(field, m) == m.subject@,
        field == "body"@ ==> target_of(field, m) == m.body_text@ + " "@ + m.snippet@,
        field == "has_attachment"@ ==> target_of(field, m) == (if m.has_attachments {
            "true"@
        } else {
            "false"@
        }),
        field == "domain"@ ==> target_of(field, m) == domain_of(m.from_address@),
        (field != "from"@ && field != "to"@ && field != "subject"@ && field != "body"@ && field
            != "has_attachment"@ && field != "domain"@) ==> target_of(field, m) == Seq::<
            char,
        >::empty(),
{
    reveal_strlit("from");
    reveal_strlit("to");
    reveal_strlit("subject");
    reveal_strlit("body");
    reveal_strlit("has_attachment");
    reveal_strlit("domain");
    assert("from"@.len() == 4 && "from"@[0] == 'f');
    assert("to"@.len() == 2);
    assert("subject"@.len() == 7);
    assert("body"@.len() == 4 && "body"@[0] == 'b');
    assert("has_attachment"@.len() == 14);
    assert("domain"@.len() == 6);
}

/// Text before the first `@` of a text without `@` followed by more text is that text.
proof fn lemma_before_at(s: Seq<char>, rest: Seq<char>)
    requires
        forall|i: int| 0 <= i < s.len() ==> s[i] != '@',
    ensures
        before_at(s) == s,
        rest.len() > 0 && rest[0] == '@' ==> before_at(s + rest) == s,
        after_at(s + rest) == after_at(rest),
    decreases s.len(),
{
    if s.len() > 0 {
        lemma_before_at(s.drop_first(), rest);
        assert((s + rest).drop_first() =~= s.drop_first() + rest);
        assert(seq![s[0]] + s.drop_first() =~= s);
    } else {
        assert(s + rest =~= rest);
    }
}

/// The domain of `local@domain`, where neither part holds `@`, is `domain`; an address without
/// `@` has no domain.
pub proof fn lemma_domain_of(local: Seq<char>, domain: Seq<char>)
    requires
        forall|i: int| 0 <= i < local.len() ==> local[i] != '@',
        forall|i: int| 0 <= i < domain.len() ==> domain[i] != '@',
    ensures
        domain_of(local + "@"@ + domain) == domain,
        domain_of(local) == Seq::<char>::empty(),
{
    reveal_strlit("@");
    let rest = "@"@ + domain;
    assert(local + "@"@ + domain =~= local + rest);
    lemma_before_at(local, rest);
    lemma_before_at(domain, Seq::empty());
    assert(rest.drop_first() =~= domain);
    lemma_before_at(local, Seq::empty());
    assert(local + Seq::<char>::empty() =~= local);
}


/// The forms a rule's documents take: a bare action name, an object with a string `type` (and
/// an optional string `value`), or an object whose first member names the action and holds its
/// argument; a condition is an object with string `field`, `op` and `value`, or an array of
/// exactly those three strings; a condition document is an array of conditions, an object with
/// such an array under `conditions`, or the shorthand object; an action document must be an
/// array; a text that is not JSON has neither.
pub proof fn lemma_document_forms(j: Js, ms: Seq<(Seq<char>, Js)>, items: Seq<Js>)
    ensures
        j matches Js::Str(t) ==> action_of(j) == Some((normalized_action(t), None::<Seq<char>>)),
        js_get(ms, "type"@) matches Some(Js::Str(t)) ==> action_of(Js::Object(ms)) == Some(
            (
                normalized_action(t),
                match js_get(ms, "value"@) {
                    Some(Js::Str(v)) => Some(v),
                    _ => None,
                },
            ),
        ),
        !(js_get(ms, "type"@) matches Some(Js::Str(_))) && ms.len() > 0 ==> action_of(
            Js::Object(ms),
        ) == Some((normalized_action(ms[0].0), Some(value_text(ms[0].1)))),
        !(js_get(ms, "type"@) matches Some(Js::Str(_))) && ms.len() == 0 ==> action_of(
            Js::Object(ms),
        ) is None,
        (j is Null || j is Bool || j is Int || j is Number || j is Array) ==> action_of(j) is None,
        js_get(ms, "field"@) matches Some(Js::Str(f)) ==> (js_get(ms, "op"@) matches Some(Js::Str(o))
            ==> (js_get(ms, "value"@) matches Some(Js::Str(v)) ==> condition_of(Js::Object(ms))
            == Some((f, o, v)))),
        !(js_get(ms, "field"@) matches Some(Js::Str(_))) ==> condition_of(Js::Object(ms)) is None,
        items.len() != 3 ==> condition_of(Js::Array(items)) is None,
        conditions_of(Some(Js::Array(items))) == conditions_of_items(items),
        js_get(ms, "conditions"@) matches Some(Js::Array(a)) ==> conditions_of(
            Some(Js::Object(ms)),
        ) == conditions_of_items(a),
        conditions_of(None) == Seq::<(Seq<char>, Seq<char>, Seq<char>)>::empty(),
        actions_of(None) == Seq::<(Seq<char>, Option<Seq<char>>)>::empty(),
        actions_of(Some(Js::Object(ms))) == Seq::<(Seq<char>, Option<Seq<char>>)>::empty(),
        actions_of(Some(Js::Array(items))) == actions_of_items(items),
{
}

} // verus!
