use pebble_web::json::{JsonMember, JsonValue};
use pebble_web::model::{EmailAddress, Folder, KanbanColumn, Message, StoredWebhookEndpoint, WebhookEndpoint, WebhookProvider};
use pebble_web::rules_engine::{
    choose_folder, compare_text, condition_matches, condition_target, normalize_action_type,
    parse_action_value, parse_actions, parse_conditions, parse_kanban_column, plan_action,
    plan_rule_actions, required_value, rule_matches, webhook_delivery, ActionStep, Rule,
    RuleAction, actions_of_document, conditions_of_document,
};

fn message() -> Message {
    Message {
        id: "message-1".into(),
        account_id: "account-1".into(),
        subject: "Urgent deploy".into(),
        snippet: "Please review".into(),
        from_address: "alerts@example.com".into(),
        from_name: "Alerts".into(),
        to_list: vec![EmailAddress { name: None, address: "me@example.com".into() }],
        body_text: "Deploy failed".into(),
        has_attachments: false,
        date: 1,
    }
}

#[test]
fn parses_rule_conditions_from_object() {
    let conditions = parse_conditions(
        r#"{"operator":"and","conditions":[{"field":"subject","op":"contains","value":"urgent"}]}"#,
    );
    assert_eq!(conditions.len(), 1);
    assert!(condition_matches(&conditions[0], &message()));
}

#[test]
fn parses_modern_and_legacy_actions() {
    let actions = parse_actions(
        r#"[{"type":"SendWebhook","value":"webhook-1"},{"AddLabel":"alerts"},"Archive"]"#,
    );
    assert_eq!(actions.len(), 3);
    assert_eq!(actions[0].action_type, "SendWebhook");
    assert_eq!(actions[0].value.as_deref(), Some("webhook-1"));
    assert_eq!(actions[1].action_type, "AddLabel");
    assert_eq!(actions[1].value.as_deref(), Some("alerts"));
    assert_eq!(actions[2].action_type, "Archive");
}

#[test]
fn parses_other_condition_forms() {
    let cs = parse_conditions(r#"[{"field":"from","op":"equals","value":"x"},["to","contains","me"],["a","b"],{"field":"s","op":1,"value":"v"}]"#);
    assert_eq!(cs.len(), 2);
    assert_eq!(cs[1].field, "to");
    let cs = parse_conditions(r#"{"operator":"or","subject":"urgent","has_attachment":true}"#);
    assert_eq!(cs.len(), 2);
    assert_eq!((cs[0].field.as_str(), cs[0].op.as_str(), cs[0].value.as_str()), ("has_attachment", "equals", "true"));
    assert_eq!((cs[1].field.as_str(), cs[1].op.as_str(), cs[1].value.as_str()), ("subject", "contains", "urgent"));
    assert!(parse_conditions("not json").is_empty());
    assert!(parse_conditions("42").is_empty());
    assert_eq!(parse_conditions(r#"{"subject":{"b":[1.50,"x\n\u0001"],"a":null}}"#)[0].value, r#"{"a":null,"b":[1.5,"x\n\u0001"]}"#);
    assert_eq!(parse_conditions(r#"{"subject":-7}"#)[0].value, "-7");
    let doc = JsonValue::Object(vec![JsonMember { key: "size".into(), value: JsonValue::Int(12) }]);
    assert_eq!(conditions_of_document(Some(&doc))[0].value, "12");
    assert!(conditions_of_document(None).is_empty());
}

#[test]
fn normalizes_legacy_action_names() {
    assert_eq!(normalize_action_type("archive"), "Archive");
    assert_eq!(normalize_action_type("markread"), "MarkRead");
    assert_eq!(normalize_action_type("label"), "AddLabel");
    assert_eq!(normalize_action_type("move"), "MoveToFolder");
    assert_eq!(normalize_action_type("set_kanban_column"), "SetKanbanColumn");
    assert_eq!(normalize_action_type("webhook"), "SendWebhook");
    assert_eq!(normalize_action_type("star"), "Star");
    assert_eq!(normalize_action_type("Custom"), "Custom");
    let legacy = parse_actions(r#"[{"move": 3}, {"z": 1, "label": "x"}]"#);
    assert_eq!((legacy[0].action_type.as_str(), legacy[0].value.as_deref()), ("MoveToFolder", Some("3")));
    assert_eq!((legacy[1].action_type.as_str(), legacy[1].value.as_deref()), ("AddLabel", Some("x")));
    let a = parse_action_value(&JsonValue::Object(vec![JsonMember { key: "move".into(), value: JsonValue::Bool(true) }])).unwrap();
    assert_eq!((a.action_type.as_str(), a.value.as_deref()), ("MoveToFolder", Some("true")));
    assert!(parse_action_value(&JsonValue::Object(vec![])).is_none());
    assert!(parse_action_value(&JsonValue::Int(7)).is_none());
    assert!(parse_actions(r#"{"type":"Archive"}"#).is_empty());
    assert!(parse_actions("[").is_empty());
    assert_eq!(actions_of_document(Some(&JsonValue::Array(vec![JsonValue::Str("star".into())])))[0].action_type, "Star");
}

#[test]
fn compares_text_ignoring_ascii_case() {
    assert!(compare_text("Urgent Deploy", "contains", "DEPLOY"));
    assert!(!compare_text("Urgent Deploy", "not_contains", "deploy"));
    assert!(compare_text("abc", "equals", "ABC"));
    assert!(compare_text("abc", "starts_with", "A"));
    assert!(compare_text("abc", "ends_with", "bC"));
    assert!(!compare_text("abc", "regex", "a"));
    assert!(compare_text("abc", "contains", ""));
}

#[test]
fn condition_targets() {
    let mut m = message();
    m.to_list.push(EmailAddress { name: Some("Bob".into()), address: "bob@x.org".into() });
    m.from_address = "a@b.example@c".into();
    assert_eq!(condition_target("from", &m), "Alerts a@b.example@c");
    assert_eq!(condition_target("to", &m), " me@example.com Bob bob@x.org");
    assert_eq!(condition_target("body", &m), "Deploy failed Please review");
    assert_eq!(condition_target("has_attachment", &m), "false");
    assert_eq!(condition_target("domain", &m), "b.example");
    assert_eq!(condition_target("other", &m), "");
    m.from_address = "nobody".into();
    assert_eq!(condition_target("domain", &m), "");
}

fn rule(id: &str, enabled: bool, conditions: &str, actions: &str) -> Rule {
    Rule { id: id.into(), is_enabled: enabled, conditions: conditions.into(), actions: actions.into() }
}

#[test]
fn plans_actions_of_matching_enabled_rules() {
    let rules = vec![
        rule("r1", true, r#"{"subject":"urgent"}"#, r#"["archive","star"]"#),
        rule("r2", false, r#"{"subject":"urgent"}"#, r#"["mark_read"]"#),
        rule("r3", true, r#"{"subject":"other"}"#, r#"["mark_read"]"#),
        rule("r4", true, r#"[]"#, r#"["mark_read"]"#),
        rule("r5", true, r#"{"domain":"example.com"}"#, r#"[{"type":"label","value":" vip "}]"#),
    ];
    assert!(rule_matches(&rules[0], &message()));
    assert!(!rule_matches(&rules[3], &message()));
    let plan = plan_rule_actions(&rules, &message());
    let got: Vec<(&str, &str)> = plan.iter().map(|p| (p.rule_id.as_str(), p.action.action_type.as_str())).collect();
    assert_eq!(got, vec![("r1", "Archive"), ("r1", "Star"), ("r5", "AddLabel")]);
    match plan_action(&plan[2].action).unwrap() {
        ActionStep::AddLabel(l) => assert_eq!(l, "vip"),
        _ => panic!("wrong step"),
    }
}

#[test]
fn plans_single_actions() {
    let a = |t: &str, v: Option<&str>| RuleAction { action_type: t.into(), value: v.map(|s| s.to_string()) };
    assert_eq!(plan_action(&a("AddLabel", None)).unwrap_err(), "Label name is required");
    assert_eq!(plan_action(&a("MoveToFolder", Some("  "))).unwrap_err(), "Folder is required");
    assert_eq!(plan_action(&a("SendWebhook", None)).unwrap_err(), "Webhook endpoint is required");
    assert!(matches!(plan_action(&a("SetKanbanColumn", None)).unwrap(), ActionStep::SetKanbanColumn(KanbanColumn::Todo)));
    assert!(matches!(plan_action(&a("SetKanbanColumn", Some("done"))).unwrap(), ActionStep::SetKanbanColumn(KanbanColumn::Done)));
    assert!(matches!(plan_action(&a("Nope", None)).unwrap(), ActionStep::Nothing));
    assert!(matches!(plan_action(&a("Star", None)).unwrap(), ActionStep::Star));
    assert_eq!(parse_kanban_column("waiting"), KanbanColumn::Waiting);
    assert_eq!(parse_kanban_column("Waiting"), KanbanColumn::Todo);
    assert_eq!(required_value(&a("AddLabel", Some(" x ")), "Label name").unwrap(), "x");
}

#[test]
fn chooses_folders_and_webhooks() {
    let folders = vec![
        Folder { id: "f1".into(), name: "Inbox".into() },
        Folder { id: "f2".into(), name: "Archive".into() },
    ];
    assert_eq!(choose_folder(&folders, "archive").unwrap(), "f2");
    assert_eq!(choose_folder(&folders, "f1").unwrap(), "f1");
    assert_eq!(choose_folder(&folders, "Spam").unwrap_err(), "Folder not found: Spam");
    let stored = StoredWebhookEndpoint {
        endpoint: WebhookEndpoint {
            id: "w".into(),
            name: "n".into(),
            provider: WebhookProvider::Slack,
            is_enabled: false,
            notify_on_new_mail: false,
            created_at: 0,
            updated_at: 0,
        },
        encrypted_config: vec![],
    };
    assert_eq!(webhook_delivery("w", Some(&stored)), Ok(false));
    assert_eq!(webhook_delivery("w", None).unwrap_err(), "Webhook endpoint not found: w");
}
