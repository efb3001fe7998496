//! The decisions of the OAuth routes: which providers are offered, how a provider name is
//! read, and where the browser is sent back to after the provider's callback.
use vstd::prelude::*;
use vstd::string::*;

use crate::config::{callback_url_of, Config};
use crate::encoding::{hex_upper, is_unreserved, percent_byte, percent_encode, url_encoded};
use crate::text::{cat, own, push_char, strip_end, strip_end_char, trim, trimmed};

verus! {

/// The OAuth providers the server offers and the redirect URI registered with them.
#[derive(Debug)]
pub struct OAuthProvidersResponse {
    pub providers: Vec<String>,
    pub redirect_uri: String,
}

/// A request to start signing in with a provider.
#[derive(Debug)]
pub struct StartOAuthRequest {
    pub provider: String,
}

/// Where to send the browser to sign in, and the provider it is for.
#[derive(Debug)]
pub struct StartOAuthResponse {
    pub authorization_url: String,
    pub provider: String,
}

/// The query a provider sends back to the callback.
#[derive(Debug)]
pub struct OAuthCallbackQuery {
    pub code: Option<String>,
    pub state: Option<String>,
    pub error: Option<String>,
    pub error_description: Option<String>,
}

/// The first thing the callback does.
#[derive(Debug)]
pub enum CallbackStart {
    /// Exchange `code` after taking the pending session saved under `state`.
    TakeSession { code: String, state: String },
    /// Send the browser to this URL and stop.
    Redirect(String),
}

/// The providers offered: Gmail when Google credentials are configured, then Outlook when
/// Microsoft credentials are.
pub open spec fn offered_providers(c: Config) -> Seq<Seq<char>> {
    let g: Seq<Seq<char>> = if c.google_oauth is Some {
        seq!["gmail"@]
    } else {
        Seq::empty()
    };
    if c.microsoft_oauth is Some {
        g.push("outlook"@)
    } else {
        g
    }
}

/// The Unicode lowercase of a text (`str::to_lowercase`).
pub uninterp spec fn unicode_lowercase(s: Seq<char>) -> Seq<char>;

/// Calls `str::to_lowercase`, the Unicode lowercase mapping of each character.
#[verifier::external_body]
fn to_lowercase(s: &str) -> (res: String)
    ensures
        res@ == unicode_lowercase(s@),
{
    s.to_lowercase()
}

/// The providers offered and the redirect URI, as `list_providers` answers.
pub fn list_providers(config: &Config) -> (res: OAuthProvidersResponse)
    ensures
        res.providers@.map_values(|p: String| p@) == offered_providers(*config),
        res.redirect_uri@ == callback_url_of(config.public_url@),
{
    let mut providers: Vec<String> = Vec::new();
    if config.google_oauth.is_some() {
        providers.push(own("gmail"));
    }
    if config.microsoft_oauth.is_some() {
        providers.push(own("outlook"));
    }
    assert(providers@.map_values(|p: String| p@) =~= offered_providers(*config));
    OAuthProvidersResponse { providers, redirect_uri: config.oauth_callback_url() }
}

/// The provider a start request names: trimmed and in lowercase.
pub fn start_oauth_provider(request: &StartOAuthRequest) -> (res: String)
    ensures
        res@ == unicode_lowercase(trim(request.provider@)),
{
    let t = crate::text::string_of(&trimmed(request.provider.as_str()));
    to_lowercase(t.as_str())
}

/// Percent-encodes every UTF-8 byte of `value` except ASCII letters, digits and `-_.~`.
pub fn urlencoding_encode(value: &str) -> (res: String)
    ensures
        res@ == url_encoded(value@),
{
    let bytes = value.as_bytes();
    let mut out = String::new();
    let mut i: usize = 0;
    while i < bytes.len()
        invariant
            0 <= i <= bytes@.len(),
            bytes@ == value.spec_bytes(),
            out@ == percent_encode(bytes@.take(i as int)),
        decreases bytes.len() - i,
    {
        let b = bytes[i];
        let ghost before = out@;
        if (0x41 <= b && b <= 0x5a) || (0x61 <= b && b <= 0x7a) || (0x30 <= b && b <= 0x39) || b
            == 0x2d || b == 0x5f || b == 0x2e || b == 0x7e {
            push_char(&mut out, b as char);
        } else {
            let hi = b / 16;
            let lo = b % 16;
            push_char(&mut out, '%');
            push_char(&mut out, if hi < 10 { (hi + 48) as char } else { (hi + 55) as char });
            push_char(&mut out, if lo < 10 { (lo + 48) as char } else { (lo + 55) as char });
        }
        assert(out@ =~= before + percent_byte(b));
        assert(bytes@.take(i + 1).drop_last() =~= bytes@.take(i as int));
        i += 1;
    }
    assert(bytes@.take(bytes@.len() as int) =~= bytes@);
    out
}

/// The query parameters `&key=value` with each value percent-encoded.
pub open spec fn params_text(params: Seq<(Seq<char>, Seq<char>)>) -> Seq<char>
    decreases params.len(),
{
    if params.len() == 0 {
        Seq::empty()
    } else {
        params_text(params.drop_last()) + "&"@ + params.last().0 + "="@ + url_encoded(
            params.last().1,
        )
    }
}

/// The account settings page of the web app, with the given query parameters.
pub open spec fn spa_url(public_url: Seq<char>, params: Seq<(Seq<char>, Seq<char>)>) -> Seq<char> {
    strip_end(public_url, '/') + "/settings?tab=accounts"@ + params_text(params)
}

/// The settings page reporting an OAuth failure with `message`.
pub open spec fn error_url(public_url: Seq<char>, message: Seq<char>) -> Seq<char> {
    spa_url(public_url, seq![("oauth"@, "error"@), ("message"@, message)])
}

/// The URL of the web app's account settings, with the given query parameters appended.
pub fn spa_redirect(public_url: &str, params: &Vec<(&str, &str)>) -> (res: String)
    ensures
        res@ == spa_url(public_url@, params@.map_values(|p: (&str, &str)| (p.0@, p.1@))),
{
    let mut url = strip_end_char(public_url, '/');
    url.append("/settings?tab=accounts");
    let ghost start = url@;
    let ghost ps = params@.map_values(|p: (&str, &str)| (p.0@, p.1@));
    let mut i: usize = 0;
    while i < params.len()
        invariant
            0 <= i <= params.len(),
            ps == params@.map_values(|p: (&str, &str)| (p.0@, p.1@)),
            url@ == start + params_text(ps.take(i as int)),
        decreases params.len() - i,
    {
        let (key, value) = params[i];
        url.append("&");
        url.append(key);
        url.append("=");
        url.append(urlencoding_encode(value).as_str());
        assert(ps.take(i + 1).drop_last() =~= ps.take(i as int));
        assert(url@ =~= start + params_text(ps.take(i + 1)));
        i += 1;
    }
    assert(ps.take(params.len() as int) =~= ps);
    url
}

/// The settings page reporting an OAuth failure with `message`.
pub fn error_redirect(public_url: &str, message: &str) -> (res: String)
    ensures
        res@ == error_url(public_url@, message@),
{
    let mut params: Vec<(&str, &str)> = Vec::new();
    params.push(("oauth", "error"));
    params.push(("message", message));
    let res = spa_redirect(public_url, &params);
    assert(params@.map_values(|p: (&str, &str)| (p.0@, p.1@)) =~= seq![
        ("oauth"@, "error"@),
        ("message"@, message@),
    ]);
    res
}

/// The settings page reporting a connected account.
pub fn success_redirect(public_url: &str, account_id: &str, email: &str) -> (res: String)
    ensures
        res@ == spa_url(
            public_url@,
            seq![("oauth"@, "success"@), ("accountId"@, account_id@), ("email"@, email@)],
        ),
{
    let mut params: Vec<(&str, &str)> = Vec::new();
    params.push(("oauth", "success"));
    params.push(("accountId", account_id));
    params.push(("email", email));
    let res = spa_redirect(public_url, &params);
    assert(params@.map_values(|p: (&str, &str)| (p.0@, p.1@)) =~= seq![
        ("oauth"@, "success"@),
        ("accountId"@, account_id@),
        ("email"@, email@),
    ]);
    res
}

/// A present and non-empty text.
pub open spec fn non_empty(v: Option<String>) -> bool {
    v is Some && v->0@.len() > 0
}

/// What the callback does first: report the provider's error (its description when
/// non-empty), report a missing code or state, or go on with both.
pub open spec fn start_url(public_url: Seq<char>, q: OAuthCallbackQuery) -> Option<Seq<char>> {
    if q.error is Some {
        Some(
            error_url(
                public_url,
                if non_empty(q.error_description) {
                    q.error_description->0@
                } else {
                    q.error->0@
                },
            ),
        )
    } else if non_empty(q.code) && non_empty(q.state) {
        None
    } else {
        Some(error_url(public_url, "Missing authorization code or state"@))
    }
}

/// The first step of the OAuth callback.
pub fn callback_start(public_url: &str, query: &OAuthCallbackQuery) -> (res: CallbackStart)
    ensures
        match res {
            CallbackStart::Redirect(url) => start_url(public_url@, *query) == Some(url@),
            CallbackStart::TakeSession { code, state } => start_url(public_url@, *query) is None
                && code@ == query.code->0@ && state@ == query.state->0@,
        },
{
    match &query.error {
        Some(error) => {
            let detail = match &query.error_description {
                Some(d) => if d.as_str().is_empty() {
                    error.as_str()
                } else {
                    d.as_str()
                },
                None => error.as_str(),
            };
            return CallbackStart::Redirect(error_redirect(public_url, detail));
        },
        None => {},
    }
    match (&query.code, &query.state) {
        (Some(code), Some(state)) => {
            if !code.as_str().is_empty() && !state.as_str().is_empty() {
                return CallbackStart::TakeSession { code: code.clone(), state: state.clone() };
            }
        },
        _ => {},
    }
    CallbackStart::Redirect(error_redirect(public_url, "Missing authorization code or state"))
}

/// The settings page reporting that no pending session matches the callback's state.
pub fn session_missing_redirect(public_url: &str) -> (res: String)
    ensures
        res@ == error_url(public_url@, "OAuth session expired or invalid. Please try again."@),
{
    error_redirect(public_url, "OAuth session expired or invalid. Please try again.")
}

/// The settings page reporting that the callback's state does not match the session's.
pub fn state_mismatch_redirect(public_url: &str) -> (res: String)
    ensures
        res@ == error_url(public_url@, "OAuth state mismatch"@),
{
    error_redirect(public_url, "OAuth state mismatch")
}

/// The account's email and display name from the provider's user information: an empty email
/// is an error; an empty name is replaced by the email.
pub fn account_identity(email: String, name: String) -> (res: Result<(String, String), String>)
    ensures
        match res {
            Ok((e, n)) => email@.len() > 0 && e@ == email@ && n@ == (if name@.len() == 0 {
                email@
            } else {
                name@
            }),
            Err(m) => email@.len() == 0 && m@ == "Provider did not return an email address"@,
        },
{
    if email.as_str().is_empty() {
        return Err(own("Provider did not return an email address"));
    }
    let display_name = if name.as_str().is_empty() {
        email.clone()
    } else {
        name
    };
    Ok((email, display_name))
}


// ---------------------------------------------------------------------------
// Pending sign-ins
// ---------------------------------------------------------------------------

/// A sign-in in progress: the provider, the PKCE code verifier and the CSRF token sent to the
/// provider as the OAuth `state`.
#[derive(Debug)]
pub struct PendingOAuthSession {
    pub provider: String,
    pub code_verifier: String,
    pub csrf_token: String,
}

/// The view of a pending session: provider, code verifier, CSRF token.
pub open spec fn session_view(s: PendingOAuthSession) -> (Seq<char>, Seq<char>, Seq<char>) {
    (s.provider@, s.code_verifier@, s.csrf_token@)
}

/// The session saved under `key` in a list of saved entries: the latest one saved under it.
pub open spec fn saved_under(
    es: Seq<(Seq<char>, (Seq<char>, Seq<char>, Seq<char>))>,
    key: Seq<char>,
) -> Option<(Seq<char>, Seq<char>, Seq<char>)>
    decreases es.len(),
{
    if es.len() == 0 {
        None
    } else if es.last().0 == key {
        Some(es.last().1)
    } else {
        saved_under(es.drop_last(), key)
    }
}

/// The entries without those saved under `key`.
pub open spec fn without_key(
    es: Seq<(Seq<char>, (Seq<char>, Seq<char>, Seq<char>))>,
    key: Seq<char>,
) -> Seq<(Seq<char>, (Seq<char>, Seq<char>, Seq<char>))>
    decreases es.len(),
{
    if es.len() == 0 {
        es
    } else if es.last().0 == key {
        without_key(es.drop_last(), key)
    } else {
        without_key(es.drop_last(), key).push(es.last())
    }
}

/// The pending sign-ins, each saved under a key (its CSRF token). Taking a session removes it,
/// so each one is used at most once.
#[derive(Debug)]
pub struct OAuthSessionStore {
    entries: Vec<(String, PendingOAuthSession)>,
}

impl View for OAuthSessionStore {
    type V = Seq<(Seq<char>, (Seq<char>, Seq<char>, Seq<char>))>;

    closed spec fn view(&self) -> Self::V {
        self.entries@.map_values(
            |e: (String, PendingOAuthSession)| (e.0@, session_view(e.1)),
        )
    }
}

/// A copy of a pending session.
fn copy_session(s: &PendingOAuthSession) -> (r: PendingOAuthSession)
    ensures
        session_view(r) == session_view(*s),
{
    PendingOAuthSession {
        provider: s.provider.clone(),
        code_verifier: s.code_verifier.clone(),
        csrf_token: s.csrf_token.clone(),
    }
}

/// Nothing is saved under a key once its entries are removed; other keys keep theirs.
pub proof fn lemma_without_key(
    es: Seq<(Seq<char>, (Seq<char>, Seq<char>, Seq<char>))>,
    key: Seq<char>,
    other: Seq<char>,
)
    ensures
        saved_under(without_key(es, key), other) == if other == key {
            None
        } else {
            saved_under(es, other)
        },
    decreases es.len(),
{
    if es.len() > 0 {
        lemma_without_key(es.drop_last(), key, other);
        if es.last().0 != key {
            let rest = without_key(es.drop_last(), key);
            assert(rest.push(es.last()).drop_last() =~= rest);
        }
    }
}

impl OAuthSessionStore {
    /// An empty store.
    pub fn new() -> (s: Self)
        ensures
            s@ == Seq::<(Seq<char>, (Seq<char>, Seq<char>, Seq<char>))>::empty(),
    {
        let s = OAuthSessionStore { entries: Vec::new() };
        assert(s@ =~= Seq::<(Seq<char>, (Seq<char>, Seq<char>, Seq<char>))>::empty());
        s
    }

    /// The entries kept when those saved under `key` are removed, and the latest session saved
    /// under it.
    fn split_off_key(&self, key: &str) -> (r: (Vec<(String, PendingOAuthSession)>, Option<PendingOAuthSession>))
        ensures
            r.0@.map_values(|e: (String, PendingOAuthSession)| (e.0@, session_view(e.1)))
                == without_key(self@, key@),
            match r.1 {
                Some(s) => saved_under(self@, key@) == Some(session_view(s)),
                None => saved_under(self@, key@) is None,
            },
    {
        let ghost all = self@;
        let mut kept: Vec<(String, PendingOAuthSession)> = Vec::new();
        let mut found: Option<PendingOAuthSession> = None;
        let mut i: usize = 0;
        while i < self.entries.len()
            invariant
                0 <= i <= self.entries.len(),
                all == self@,
                all.len() == self.entries@.len(),
                forall|j: int| 0 <= j < all.len() ==> #[trigger] all[j] == (
                    self.entries@[j].0@,
                    session_view(self.entries@[j].1),
                ),
                kept@.map_values(|e: (String, PendingOAuthSession)| (e.0@, session_view(e.1)))
                    == without_key(all.take(i as int), key@),
                match found {
                    Some(s) => saved_under(all.take(i as int), key@) == Some(session_view(s)),
                    None => saved_under(all.take(i as int), key@) is None,
                },
            decreases self.entries.len() - i,
        {
            let entry = &self.entries[i];
            let ghost before = kept@.map_values(
                |e: (String, PendingOAuthSession)| (e.0@, session_view(e.1)),
            );
            assert(all.take(i + 1).drop_last() =~= all.take(i as int));
            assert(all.take(i + 1).last() == all[i as int]);
            if crate::text::str_eq(entry.0.as_str(), key) {
                found = Some(copy_session(&entry.1));
            } else {
                kept.push((entry.0.clone(), copy_session(&entry.1)));
                assert(kept@.map_values(
                    |e: (String, PendingOAuthSession)| (e.0@, session_view(e.1)),
                ) =~= before.push(all[i as int]));
            }
            i += 1;
        }
        assert(all.take(self.entries.len() as int) =~= all);
        (kept, found)
    }

    /// Saves `session` under `key`, replacing what was saved under it.
    pub fn insert(&mut self, key: String, session: PendingOAuthSession)
        ensures
            final(self)@ == without_key(old(self)@, key@).push((key@, session_view(session))),
    {
        let (mut kept, _) = self.split_off_key(key.as_str());
        let ghost k = key@;
        let ghost v = session_view(session);
        let ghost before = kept@.map_values(
            |e: (String, PendingOAuthSession)| (e.0@, session_view(e.1)),
        );
        kept.push((key, session));
        assert(kept@.map_values(|e: (String, PendingOAuthSession)| (e.0@, session_view(e.1)))
            =~= before.push((k, v)));
        self.entries = kept;
    }

    /// Takes the session saved under `key`: the latest saved under it, and nothing is saved
    /// under it afterwards.
    pub fn take(&mut self, key: &str) -> (res: Option<PendingOAuthSession>)
        ensures
            match res {
                Some(s) => saved_under(old(self)@, key@) == Some(session_view(s)),
                None => saved_under(old(self)@, key@) is None,
            },
            final(self)@ == without_key(old(self)@, key@),
    {
        let (kept, found) = self.split_off_key(key);
        self.entries = kept;
        found
    }
}

/// A session saved under a key is what taking that key gives back.
pub proof fn lemma_take_after_insert(
    es: Seq<(Seq<char>, (Seq<char>, Seq<char>, Seq<char>))>,
    key: Seq<char>,
    session: (Seq<char>, Seq<char>, Seq<char>),
)
    ensures
        saved_under(without_key(es, key).push((key, session)), key) == Some(session),
{
}

/// Saving under one key leaves what is saved under every other key as it was.
pub proof fn lemma_insert_keeps_others(
    es: Seq<(Seq<char>, (Seq<char>, Seq<char>, Seq<char>))>,
    key: Seq<char>,
    session: (Seq<char>, Seq<char>, Seq<char>),
    other: Seq<char>,
)
    requires
        other != key,
    ensures
        saved_under(without_key(es, key).push((key, session)), other) == saved_under(es, other),
{
    let pushed = without_key(es, key).push((key, session));
    assert(pushed.drop_last() =~= without_key(es, key));
    lemma_without_key(es, key, other);
}

/// A pending session is used once: after it is taken, taking the same key again gives nothing.
pub proof fn lemma_take_is_once(es: Seq<(Seq<char>, (Seq<char>, Seq<char>, Seq<char>))>, key: Seq<char>)
    ensures
        saved_under(without_key(es, key), key) is None,
{
    lemma_without_key(es, key, key);
}


/// The callback's first step: a provider error is reported with its description when that is
/// not empty (else the error itself); without an error, a non-empty code and state go on to the
/// session; anything else reports the missing code or state.
pub proof fn lemma_callback_first_step(public_url: Seq<char>, q: OAuthCallbackQuery)
    ensures
        q.error matches Some(e) ==> start_url(public_url, q) == Some(
            error_url(
                public_url,
                if q.error_description matches Some(d) && d@.len() > 0 {
                    q.error_description->0@
                } else {
                    e@
                },
            ),
        ),
        q.error is None ==> (start_url(public_url, q) is None <==> match (q.code, q.state) {
            (Some(c), Some(s)) => c@.len() > 0 && s@.len() > 0,
            _ => false,
        }),
        q.error is None && start_url(public_url, q) is Some ==> start_url(public_url, q) == Some(
            error_url(public_url, "Missing authorization code or state"@),
        ),
{
}


/// Gmail is offered exactly when Google credentials are configured and Outlook exactly when
/// Microsoft credentials are, Gmail first.
pub proof fn lemma_offered_providers(c: Config)
    ensures
        offered_providers(c).contains("gmail"@) <==> c.google_oauth is Some,
        offered_providers(c).contains("outlook"@) <==> c.microsoft_oauth is Some,
        offered_providers(c).len() == (if c.google_oauth is Some { 1int } else { 0 }) + (if c.microsoft_oauth is Some { 1int } else { 0 }),
        c.google_oauth is Some ==> offered_providers(c)[0] == "gmail"@,
{
    reveal_strlit("gmail");
    reveal_strlit("outlook");
    assert("gmail"@.len() == 5 && "outlook"@.len() == 7);
    let g: Seq<Seq<char>> = if c.google_oauth is Some { seq!["gmail"@] } else { Seq::empty() };
    if c.microsoft_oauth is Some {
        assert(offered_providers(c) == g.push("outlook"@));
        assert(offered_providers(c)[g.len() as int] == "outlook"@);
    }
    if c.google_oauth is Some {
        assert(offered_providers(c)[0] == "gmail"@);
    }
}

} // verus!
