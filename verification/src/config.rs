//! Persistent CLI configuration: the API base URL and the stored credential, and
//! the precedence rules that pick the ones an invocation uses.
use crate::models::User;
use crate::text::{chars_of, string_from_chars, string_push};
use vstd::prelude::*;

verus! {

broadcast use vstd::string::group_string_axioms;

pub const DEFAULT_BASE_URL: &'static str = "https://tcglense.com";

/// Stored credential. `Session` is the web/email auth path (email + password →
/// a short-lived access token plus the opaque refresh token captured from the
/// `tcglense_refresh` cookie); `ApiKey` is a `tcgl_` programmatic key.
#[derive(Debug, Clone)]
pub enum Auth {
    ApiKey { key: String, scope: Option<String> },
    Session { access_token: String, refresh_token: String, user: Option<User> },
}

/// How many characters of an API key `describe` shows.
pub open spec fn key_prefix_len() -> nat {
    13
}

impl Auth {
    /// The token presented as `Authorization: Bearer <token>`.
    pub open spec fn spec_bearer(self) -> Seq<char> {
        match self {
            Auth::ApiKey { key, .. } => key@,
            Auth::Session { access_token, .. } => access_token@,
        }
    }

    /// The bearer credential to present as `Authorization: Bearer <token>`.
    pub fn bearer(&self) -> (r: &str)
        ensures
            r@ == self.spec_bearer(),
    {
        match self {
            Auth::ApiKey { key, .. } => key.as_str(),
            Auth::Session { access_token, .. } => access_token.as_str(),
        }
    }

    /// The short human label `status` and `config show` print.
    pub open spec fn spec_describe(self) -> Seq<char> {
        match self {
            Auth::ApiKey { key, scope } => {
                let prefix = key@.take(if key@.len() < key_prefix_len() { key@.len() as int } else { key_prefix_len() as int });
                match scope {
                    Some(s) => "API key "@ + prefix + seq!['\u{2026}'] + " ("@ + s@ + ")"@,
                    None => "API key "@ + prefix + seq!['\u{2026}'],
                }
            },
            Auth::Session { user, .. } => match user {
                Some(u) => "session as "@ + u.email@,
                None => "session"@,
            },
        }
    }

    /// A short human label for `status`/`whoami` output.
    pub fn describe(&self) -> (r: String)
        ensures
            r@ == self.spec_describe(),
    {
        match self {
            Auth::ApiKey { key, scope } => {
                let cs = chars_of(key.as_str());
                let n: usize = if cs.len() < 13 { cs.len() } else { 13 };
                let mut prefix: Vec<char> = Vec::new();
                let mut i: usize = 0;
                while i < n
                    invariant
                        i <= n <= cs@.len(),
                        prefix@ == cs@.take(i as int),
                    decreases n - i,
                {
                    prefix.push(cs[i]);
                    assert(cs@.take(i as int).push(cs@[i as int]) =~= cs@.take(i + 1));
                    i += 1;
                }
                let mut out = String::from_str("API key ");
                let p = string_from_chars(prefix.as_slice());
                out.append(p.as_str());
                string_push(&mut out, '\u{2026}');
                match scope {
                    Some(s) => {
                        out.append(" (");
                        out.append(s.as_str());
                        out.append(")");
                    },
                    None => {},
                }
                assert(out@ =~= self.spec_describe());
                out
            },
            Auth::Session { user, .. } => match user {
                Some(u) => {
                    let mut out = String::from_str("session as ");
                    out.append(u.email.as_str());
                    out
                },
                None => String::from_str("session"),
            },
        }
    }
}

/// The settings persisted between runs.
#[derive(Debug, Clone)]
pub struct Config {
    pub base_url: Option<String>,
    pub auth: Option<Auth>,
}

impl Config {
    /// The configuration a missing file stands for.
    pub fn empty() -> (c: Config)
        ensures
            c.base_url is None,
            c.auth is None,
    {
        Config { base_url: None, auth: None }
    }
}

/// `s` without any run of trailing `/` (what `trim_end_matches('/')` leaves).
pub open spec fn trim_slashes(s: Seq<char>) -> Seq<char>
    decreases s.len(),
{
    if s.len() > 0 && s.last() == '/' {
        trim_slashes(s.drop_last())
    } else {
        s
    }
}

/// `s.trim_end_matches('/')`: the base URL as the client and the config store it.
pub fn trim_trailing_slashes(s: &str) -> (r: String)
    ensures
        r@ == trim_slashes(s@),
{
    let cs = chars_of(s);
    let mut n = cs.len();
    assert(cs@.take(n as int) =~= cs@);
    while n > 0 && cs[n - 1] == '/'
        invariant
            n <= cs@.len(),
            trim_slashes(cs@) == trim_slashes(cs@.take(n as int)),
        decreases n,
    {
        assert(cs@.take(n as int).drop_last() =~= cs@.take(n - 1));
        n -= 1;
    }
    let mut out: Vec<char> = Vec::new();
    let mut i: usize = 0;
    while i < n
        invariant
            i <= n <= cs@.len(),
            out@ == cs@.take(i as int),
        decreases n - i,
    {
        out.push(cs[i]);
        assert(cs@.take(i as int).push(cs@[i as int]) =~= cs@.take(i + 1));
        i += 1;
    }
    proof {
        assert(cs@.take(cs@.len() as int) =~= cs@);
    }
    string_from_chars(out.as_slice())
}

/// Trimming slashes twice is trimming them once.
pub proof fn trim_slashes_idempotent(s: Seq<char>)
    ensures
        trim_slashes(trim_slashes(s)) == trim_slashes(s),
        trim_slashes(s).len() == 0 || trim_slashes(s).last() != '/',
    decreases s.len(),
{
    if s.len() > 0 && s.last() == '/' {
        trim_slashes_idempotent(s.drop_last());
    }
}

/// The base URL an invocation talks to: `--url` (or `TCGLENSE_URL`), else the stored
/// one, else [`DEFAULT_BASE_URL`].
pub open spec fn spec_base_url(flag: Option<Seq<char>>, stored: Option<Seq<char>>) -> Seq<char> {
    match flag {
        Some(u) => u,
        None => match stored {
            Some(u) => u,
            None => DEFAULT_BASE_URL@,
        },
    }
}

pub fn choose_base_url(flag: &Option<String>, stored: &Option<String>) -> (r: String)
    ensures
        r@ == spec_base_url(crate::output::opt_view(*flag), crate::output::opt_view(*stored)),
{
    match flag {
        Some(u) => u.clone(),
        None => match stored {
            Some(u) => u.clone(),
            None => String::from_str(DEFAULT_BASE_URL),
        },
    }
}

/// The base URL the client is built with: the chosen one without trailing slashes.
pub fn client_base_url(flag: &Option<String>, stored: &Option<String>) -> (r: String)
    ensures
        r@ == trim_slashes(spec_base_url(crate::output::opt_view(*flag), crate::output::opt_view(*stored))),
{
    let chosen = choose_base_url(flag, stored);
    trim_trailing_slashes(chosen.as_str())
}

/// Where the config file is read from.
pub enum ConfigSource {
    /// The `--config` path.
    Explicit(String),
    /// The `TCGLENSE_CONFIG` value.
    Env(String),
    /// `tcglense/config.json` under the platform's config directory.
    UnderConfigDir,
    /// Nowhere: no path given and no config directory (an error).
    Unavailable,
}

/// The config file's location: `--config`, else a non-empty `TCGLENSE_CONFIG`,
/// else the platform config directory when there is one.
pub fn config_source(explicit: Option<String>, env: Option<String>, has_dir: bool) -> (r: ConfigSource)
    ensures
        explicit matches Some(p) ==> r == ConfigSource::Explicit(p),
        explicit is None && (env matches Some(e) && e@.len() > 0) ==> r == ConfigSource::Env(env->0),
        explicit is None && !(env matches Some(e) && e@.len() > 0) && has_dir ==> r is UnderConfigDir,
        explicit is None && !(env matches Some(e) && e@.len() > 0) && !has_dir ==> r is Unavailable,
{
    if let Some(p) = explicit {
        return ConfigSource::Explicit(p);
    }
    if let Some(e) = env {
        if e.unicode_len() > 0 {
            return ConfigSource::Env(e);
        }
    }
    if has_dir {
        ConfigSource::UnderConfigDir
    } else {
        ConfigSource::Unavailable
    }
}

/// The credential an invocation presents, and whether token rotations are written
/// back to the config file.
pub struct Credential {
    pub auth: Option<Auth>,
    /// `false` for a credential given on the command line, which is never persisted.
    pub persist: bool,
}

/// Credential precedence: `--api-key`, then `--token` (both ephemeral, never
/// persisted), else the stored credential, whose rotations are persisted.
pub fn choose_credential(api_key: &Option<String>, token: &Option<String>, stored: Option<Auth>) -> (c: Credential)
    ensures
        api_key is Some ==> c.persist == false && (c.auth matches Some(Auth::ApiKey { key, scope }) && key@ == api_key->0@ && scope is None),
        api_key is None && token is Some ==> c.persist == false && (c.auth matches Some(Auth::ApiKey { key, scope }) && key@ == token->0@ && scope is None),
        api_key is None && token is None ==> c.persist == true && c.auth == stored,
{
    if let Some(key) = api_key {
        Credential { auth: Some(Auth::ApiKey { key: key.clone(), scope: None }), persist: false }
    } else if let Some(t) = token {
        Credential { auth: Some(Auth::ApiKey { key: t.clone(), scope: None }), persist: false }
    } else {
        Credential { auth: stored, persist: true }
    }
}

} // verus!
