//! Server configuration: the checks that `Config::from_env` applies to the environment,
//! and the paths and URLs derived from a configuration.
use vstd::prelude::*;
use vstd::string::*;
use vstd::utf8::encode_utf8;

use crate::text::{
    cat, chars_of, dec, fmt_u64, int_error_message, int_error_text, lemma_scan_bound, own,
    parse_uint, parse_uint_exec, seq_eq, string_of, strip_end, strip_end_char, trim, trimmed,
    IntErrorKind,
};

verus! {

/// Client credentials of one OAuth provider.
#[derive(Debug, Clone)]
pub struct OAuthProviderCredentials {
    pub client_id: String,
    pub client_secret: String,
}

/// The server's configuration. Directories are held as Unix path strings.
#[derive(Debug, Clone)]
pub struct Config {
    pub port: u16,
    pub data_dir: String,
    pub password_hash: String,
    pub jwt_secret: String,
    pub sync_interval_secs: u64,
    /// Public base URL used to build OAuth redirect URIs, e.g. `https://mail.example.com`.
    pub public_url: String,
    pub google_oauth: Option<OAuthProviderCredentials>,
    pub microsoft_oauth: Option<OAuthProviderCredentials>,
}

/// The raw values of the environment variables the configuration is read from
/// (`None` where a variable is unset or not valid Unicode).
#[derive(Debug, Clone)]
pub struct EnvValues {
    /// `PEBBLE_PASSWORD`
    pub password: Option<String>,
    /// `PEBBLE_JWT_SECRET`
    pub jwt_secret: Option<String>,
    /// `PEBBLE_PORT`
    pub port: Option<String>,
    /// `PEBBLE_DATA_DIR`
    pub data_dir: Option<String>,
    /// `PEBBLE_SYNC_INTERVAL`
    pub sync_interval: Option<String>,
    /// `PEBBLE_PUBLIC_URL`
    pub public_url: Option<String>,
}

/// The environment after every check of `Config::check_env` passed.
#[derive(Debug, Clone)]
pub struct CheckedEnv {
    pub password: String,
    pub jwt_secret: String,
    pub port: u16,
    pub data_dir: String,
    pub sync_interval_secs: u64,
    pub public_url: String,
}

// ---------------------------------------------------------------------------
// Specifications
// ---------------------------------------------------------------------------

/// A password that the documentation shows as an example.
pub open spec fn insecure_password(p: Seq<char>) -> bool {
    trim(p) == "changeme"@ || trim(p) == "your-password-here"@
}

/// A JWT secret that the documentation shows as an example, or shorter than 32 bytes once trimmed.
pub open spec fn insecure_jwt_secret(s: Seq<char>) -> bool {
    trim(s) == "change-this-to-a-random-string"@ || trim(s) == "generate-a-random-string-here"@
        || trim(s) == "your-random-secret-at-least-32-chars"@ || encode_utf8(trim(s)).len() < 32
}

/// The value of a variable, or `default` where it is unset.
pub open spec fn value_or(v: Option<String>, default: Seq<char>) -> Seq<char> {
    match v {
        Some(s) => s@,
        None => default,
    }
}

/// The text that `PEBBLE_PORT` is parsed from.
pub open spec fn port_text(env: EnvValues) -> Seq<char> {
    value_or(env.port, "8080"@)
}

/// The text that `PEBBLE_SYNC_INTERVAL` is parsed from.
pub open spec fn sync_text(env: EnvValues) -> Seq<char> {
    value_or(env.sync_interval, "300"@)
}

/// The first failing check of the environment, as the message `from_env` reports it;
/// `None` when every check passes.
pub open spec fn env_error(env: EnvValues) -> Option<Seq<char>> {
    if env.password is None {
        Some("PEBBLE_PASSWORD env var is required"@)
    } else if env.jwt_secret is None {
        Some("PEBBLE_JWT_SECRET env var is required"@)
    } else if insecure_jwt_secret(env.jwt_secret->0@) {
        Some("PEBBLE_JWT_SECRET must be changed from the default value"@)
    } else if insecure_password(env.password->0@) {
        Some("PEBBLE_PASSWORD must be changed from the default value"@)
    } else if let Err(k) = parse_uint(port_text(env), 65535) {
        Some("Invalid PEBBLE_PORT: "@ + int_error_text(k))
    } else if let Err(k) = parse_uint(sync_text(env), 18446744073709551615) {
        Some("Invalid PEBBLE_SYNC_INTERVAL: "@ + int_error_text(k))
    } else {
        None
    }
}

/// The public URL: the variable's value, or `http://localhost:{port}`, without trailing `/`.
pub open spec fn public_url_of(env: EnvValues, port: nat) -> Seq<char> {
    strip_end(value_or(env.public_url, "http://localhost:"@ + dec(port)), '/')
}

/// `Path::join` of a relative file name onto a Unix directory path.
pub open spec fn path_join(dir: Seq<char>, name: Seq<char>) -> Seq<char> {
    if dir.len() == 0 || dir.last() == '/' {
        dir + name
    } else {
        dir + "/"@ + name
    }
}

/// The URL that OAuth providers redirect back to: the public URL and the path
/// `/api/oauth/callback`. The path is a fixed choice of this library; the server has to mount
/// its OAuth callback handler under it.
pub open spec fn callback_url_of(public_url: Seq<char>) -> Seq<char> {
    strip_end(public_url, '/') + "/api/oauth/callback"@
}

// ---------------------------------------------------------------------------
// Checks
// ---------------------------------------------------------------------------

/// Whether `password` is one of the placeholder passwords of the documentation.
pub fn is_insecure_default_password(password: &str) -> (res: bool)
    ensures
        res == insecure_password(password@),
{
    let t = trimmed(password);
    seq_eq(&t, &chars_of("changeme")) || seq_eq(&t, &chars_of("your-password-here"))
}

/// Whether `secret` is a placeholder of the documentation or too short to sign tokens.
pub fn is_insecure_jwt_secret(secret: &str) -> (res: bool)
    ensures
        res == insecure_jwt_secret(secret@),
{
    let t = trimmed(secret);
    if seq_eq(&t, &chars_of("change-this-to-a-random-string")) || seq_eq(
        &t,
        &chars_of("generate-a-random-string-here"),
    ) || seq_eq(&t, &chars_of("your-random-secret-at-least-32-chars")) {
        return true;
    }
    if t.len() >= 32 {
        proof {
            lemma_utf8_len_bounds(t@);
        }
        return false;
    }
    let ts = string_of(&t);
    proof {
        lemma_utf8_len_bounds(t@);
    }
    ts.as_str().len() < 32
}

/// Every character takes one to four bytes in UTF-8.
pub proof fn lemma_utf8_len_bounds(s: Seq<char>)
    ensures
        s.len() <= encode_utf8(s).len() <= 4 * s.len(),
    decreases s.len(),
{
    if s.len() > 0 {
        lemma_utf8_len_bounds(s.drop_first());
    }
}

/// `Path::join` of a relative file name onto a Unix directory path.
pub fn join_path(dir: &str, name: &str) -> (res: String)
    ensures
        res@ == path_join(dir@, name@),
{
    let v = chars_of(dir);
    if v.len() == 0 || v[v.len() - 1] == '/' {
        cat(dir, name)
    } else {
        let mut s = cat(dir, "/");
        s.append(name);
        s
    }
}

impl Config {
    /// Applies the checks of `from_env` to the environment's values, in its order:
    /// password and JWT secret present, neither a placeholder, port and sync interval
    /// decimal numbers that fit; it fills in the defaults.
    pub fn check_env(env: &EnvValues) -> (res: Result<CheckedEnv, String>)
        ensures
            match res {
                Ok(c) => {
                    &&& env_error(*env) is None
                    &&& c.password@ == env.password->0@
                    &&& c.jwt_secret@ == env.jwt_secret->0@
                    &&& parse_uint(port_text(*env), 65535) == Ok::<nat, IntErrorKind>(c.port as nat)
                    &&& c.data_dir@ == value_or(env.data_dir, "/data"@)
                    &&& parse_uint(sync_text(*env), 18446744073709551615) == Ok::<
                        nat,
                        IntErrorKind,
                    >(c.sync_interval_secs as nat)
                    &&& c.public_url@ == public_url_of(*env, c.port as nat)
                },
                Err(e) => env_error(*env) == Some(e@),
            },
    {
        let password = match &env.password {
            Some(p) => p,
            None => return Err(own("PEBBLE_PASSWORD env var is required")),
        };
        let jwt_secret = match &env.jwt_secret {
            Some(s) => s,
            None => return Err(own("PEBBLE_JWT_SECRET env var is required")),
        };
        if is_insecure_jwt_secret(jwt_secret.as_str()) {
            return Err(own("PEBBLE_JWT_SECRET must be changed from the default value"));
        }
        if is_insecure_default_password(password.as_str()) {
            return Err(own("PEBBLE_PASSWORD must be changed from the default value"));
        }
        let port_value = match &env.port {
            Some(p) => p.clone(),
            None => own("8080"),
        };
        let port: u16 = match parse_uint_exec(port_value.as_str(), 65535) {
            Ok(p) => {
                proof {
                    lemma_parse_bound(port_value@, 65535);
                }
                p as u16
            },
            Err(k) => {
                let mut msg = own("Invalid PEBBLE_PORT: ");
                msg.append(int_error_message(k).as_str());
                return Err(msg);
            },
        };
        let data_dir = match &env.data_dir {
            Some(d) => d.clone(),
            None => own("/data"),
        };
        let sync_value = match &env.sync_interval {
            Some(s) => s.clone(),
            None => own("300"),
        };
        let sync_interval_secs = match parse_uint_exec(
            sync_value.as_str(),
            18446744073709551615,
        ) {
            Ok(v) => v,
            Err(k) => {
                let mut msg = own("Invalid PEBBLE_SYNC_INTERVAL: ");
                msg.append(int_error_message(k).as_str());
                return Err(msg);
            },
        };
        let url_value = match &env.public_url {
            Some(u) => u.clone(),
            None => cat("http://localhost:", fmt_u64(port as u64).as_str()),
        };
        let public_url = strip_end_char(url_value.as_str(), '/');
        Ok(
            CheckedEnv {
                password: password.clone(),
                jwt_secret: jwt_secret.clone(),
                port,
                data_dir,
                sync_interval_secs,
                public_url,
            },
        )
    }

    /// Completes a configuration from a checked environment and the outcome of hashing its
    /// password; a failed hash is reported as `from_env` reports it.
    pub fn from_checked_env(
        env: CheckedEnv,
        password_hash: Result<String, String>,
        google_oauth: Option<OAuthProviderCredentials>,
        microsoft_oauth: Option<OAuthProviderCredentials>,
    ) -> (res: Result<Config, String>)
        ensures
            match password_hash {
                Ok(h) => res matches Ok(c) && c.password_hash == h && c.port == env.port
                    && c.data_dir == env.data_dir && c.jwt_secret == env.jwt_secret
                    && c.sync_interval_secs == env.sync_interval_secs && c.public_url
                    == env.public_url && c.google_oauth == google_oauth && c.microsoft_oauth
                    == microsoft_oauth,
                Err(e) => res matches Err(m) && m@ == "Failed to hash password: "@ + e@,
            },
    {
        match password_hash {
            Ok(h) => Ok(
                Config {
                    port: env.port,
                    data_dir: env.data_dir,
                    password_hash: h,
                    jwt_secret: env.jwt_secret,
                    sync_interval_secs: env.sync_interval_secs,
                    public_url: env.public_url,
                    google_oauth,
                    microsoft_oauth,
                },
            ),
            Err(e) => Err(cat("Failed to hash password: ", e.as_str())),
        }
    }

    /// The database file, `pebble.db` in the data directory.
    pub fn db_path(&self) -> (res: String)
        ensures
            res@ == path_join(self.data_dir@, "pebble.db"@),
    {
        join_path(self.data_dir.as_str(), "pebble.db")
    }

    /// The search index directory, `index` in the data directory.
    pub fn index_dir(&self) -> (res: String)
        ensures
            res@ == path_join(self.data_dir@, "index"@),
    {
        join_path(self.data_dir.as_str(), "index")
    }

    /// The attachments directory, `attachments` in the data directory.
    pub fn attachments_dir(&self) -> (res: String)
        ensures
            res@ == path_join(self.data_dir@, "attachments"@),
    {
        join_path(self.data_dir.as_str(), "attachments")
    }

    /// The encryption key file, `encryption.key` in the data directory.
    pub fn key_file_path(&self) -> (res: String)
        ensures
            res@ == path_join(self.data_dir@, "encryption.key"@),
    {
        join_path(self.data_dir.as_str(), "encryption.key")
    }

    /// The redirect URI registered with OAuth providers (see `callback_url_of` for the path).
    pub fn oauth_callback_url(&self) -> (res: String)
        ensures
            res@ == callback_url_of(self.public_url@),
    {
        let mut s = strip_end_char(self.public_url.as_str(), '/');
        s.append("/api/oauth/callback");
        s
    }
}

/// A successful parse is no larger than the bound it was made with.
pub proof fn lemma_parse_bound(s: Seq<char>, max: nat)
    ensures
        parse_uint(s, max) matches Ok(v) ==> v <= max,
{
    if s.len() > 0 {
        lemma_scan_bound(s.drop_first(), 0, max);
        lemma_scan_bound(s, 0, max);
    }
}


/// The OAuth redirect URI does not depend on trailing slashes of the public URL.
pub proof fn lemma_callback_url_ignores_trailing_slash(public_url: Seq<char>)
    ensures
        callback_url_of(public_url.push('/')) == callback_url_of(public_url),
{
    assert(public_url.push('/').drop_last() =~= public_url);
}

/// The public URL that `check_env` settles on never ends with `/`.
pub proof fn lemma_public_url_has_no_trailing_slash(s: Seq<char>)
    ensures
        strip_end(s, '/').len() > 0 ==> strip_end(s, '/').last() != '/',
    decreases s.len(),
{
    if s.len() > 0 && s.last() == '/' {
        lemma_public_url_has_no_trailing_slash(s.drop_last());
    }
}


/// The checks of the environment come in a fixed order: a missing password, then a missing
/// JWT secret, then an insecure JWT secret, then an insecure password; a configuration with
/// every required value secure and valid numbers passes.
pub proof fn lemma_env_check_order(env: EnvValues)
    ensures
        env.password is None ==> env_error(env) == Some("PEBBLE_PASSWORD env var is required"@),
        env.password is Some && env.jwt_secret is None ==> env_error(env) == Some(
            "PEBBLE_JWT_SECRET env var is required"@,
        ),
        match (env.password, env.jwt_secret) {
            (Some(p), Some(j)) => {
                &&& insecure_jwt_secret(j@) ==> env_error(env) == Some(
                    "PEBBLE_JWT_SECRET must be changed from the default value"@,
                )
                &&& !insecure_jwt_secret(j@) && insecure_password(p@) ==> env_error(env) == Some(
                    "PEBBLE_PASSWORD must be changed from the default value"@,
                )
                &&& !insecure_jwt_secret(j@) && !insecure_password(p@) && parse_uint(
                    port_text(env),
                    65535,
                ) is Ok && parse_uint(sync_text(env), 18446744073709551615) is Ok
                    ==> env_error(env) is None
            },
            _ => true,
        },
{
}

/// A JWT secret shorter than 32 bytes once trimmed is always refused, and so is each
/// documented placeholder; the documented placeholder passwords are refused after trimming.
pub proof fn lemma_insecure_values(s: Seq<char>)
    ensures
        encode_utf8(trim(s)).len() < 32 ==> insecure_jwt_secret(s),
        trim(s) == "change-this-to-a-random-string"@ ==> insecure_jwt_secret(s),
        trim(s) == "generate-a-random-string-here"@ ==> insecure_jwt_secret(s),
        trim(s) == "your-random-secret-at-least-32-chars"@ ==> insecure_jwt_secret(s),
        trim(s) == "changeme"@ ==> insecure_password(s),
        trim(s) == "your-password-here"@ ==> insecure_password(s),
        trim(s) != "changeme"@ && trim(s) != "your-password-here"@ ==> !insecure_password(s),
{
}


/// A file name is joined onto a directory with exactly one `/` between them (none is added
/// after an empty directory or one that already ends in `/`).
pub proof fn lemma_path_join(dir: Seq<char>, name: Seq<char>)
    ensures
        dir.len() > 0 && dir.last() != '/' ==> path_join(dir, name) == dir + seq!['/'] + name,
        dir.len() > 0 && dir.last() == '/' ==> path_join(dir, name) == dir + name,
        dir.len() == 0 ==> path_join(dir, name) == name,
{
    reveal_strlit("/");
    assert(dir.len() == 0 ==> dir + name =~= name);
    assert("/"@ =~= seq!['/']);
}

} // verus!
