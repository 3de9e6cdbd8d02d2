//! Account commands: the API-key scopes, the check a stored key must pass, and
//! what the account commands print.
use crate::models::{ApiKeyInfo, CreatedApiKey, RegisterResponse, User, UsernameAvailability};
use crate::output::{apikeys_table, block_view, spec_apikeys_row, to_upper, Block, BlockView};
use crate::text::{chars_of, chars_start_with, dec_int, push_i64, starts_with, views};
use vstd::prelude::*;

verus! {

broadcast use vstd::string::group_string_axioms;

/// The scope a new API key is minted with.
#[derive(Debug, Clone, Copy, PartialEq, Eq)]
pub enum KeyScope {
    Read,
    ReadWrite,
}

impl KeyScope {
    pub open spec fn spec_name(self) -> Seq<char> {
        match self {
            KeyScope::Read => "read"@,
            KeyScope::ReadWrite => "read_write"@,
        }
    }

    pub fn as_str(self) -> (r: &'static str)
        ensures
            r@ == self.spec_name(),
    {
        match self {
            KeyScope::Read => "read",
            KeyScope::ReadWrite => "read_write",
        }
    }
}

/// Whether `key` has the shape of a programmatic key (`tcgl_…`); anything else is
/// refused before it is stored.
pub fn is_api_key(key: &str) -> (r: bool)
    ensures
        r == starts_with(key@, "tcgl_"@),
{
    let kc = chars_of(key);
    chars_start_with(kc.as_slice(), "tcgl_")
}

/// The line after a login: `Logged in as ann@example.com (id 7).`
pub fn logged_in(u: &User) -> (r: String)
    ensures
        r@ == "Logged in as "@ + u.email@ + " (id "@ + dec_int(u.id as int) + ")."@,
{
    let mut out = String::from_str("Logged in as ");
    out.append(u.email.as_str());
    out.append(" (id ");
    push_i64(&mut out, u.id);
    out.append(").");
    out
}

/// What a registration request prints: with a completion token (no email provider)
/// the command that finishes it, else that a link was emailed if the address can
/// register.
pub open spec fn spec_registered(email: Seq<char>, r: RegisterResponse) -> Seq<Seq<char>> {
    match r.completion_token {
        Some(t) => seq![
            "Registration started (no email provider \u{2014} dev bypass)."@,
            "Finish with:\n  tcglense complete-registration "@ + t@,
        ],
        None => seq![
            "If "@ + email + " can register, a completion link has been emailed. Follow it, or run\n  tcglense complete-registration <token>"@,
        ],
    }
}

pub fn register_lines(email: &str, r: &RegisterResponse) -> (out: Vec<String>)
    ensures
        views(out@) == spec_registered(email@, *r),
{
    let mut out: Vec<String> = Vec::new();
    match &r.completion_token {
        Some(t) => {
            out.push(String::from_str("Registration started (no email provider \u{2014} dev bypass)."));
            let mut b = String::from_str("Finish with:\n  tcglense complete-registration ");
            b.append(t.as_str());
            out.push(b);
        },
        None => {
            let mut a = String::from_str("If ");
            a.append(email);
            a.append(
                " can register, a completion link has been emailed. Follow it, or run\n  tcglense complete-registration <token>",
            );
            out.push(a);
        },
    }
    assert(views(out@) =~= spec_registered(email@, *r));
    out
}

/// The line after completing a registration.
pub fn registered_as(u: &User) -> (r: String)
    ensures
        r@ == "Registered and signed in as "@ + u.email@ + "."@,
{
    let mut out = String::from_str("Registered and signed in as ");
    out.append(u.email.as_str());
    out.append(".");
    out
}

/// An account, field by field.
pub open spec fn spec_print_user(u: User) -> Seq<Seq<char>> {
    seq![
        "Email      : "@ + u.email@,
        "Id         : "@ + dec_int(u.id as int),
        "Handle     : "@ + match u.handle {
            Some(h) => h@,
            None => "(none)"@,
        },
        "Currency   : "@ + u.currency@,
        "Member since: "@ + u.created_at@,
    ]
}

pub fn print_user(u: &User) -> (out: Vec<String>)
    ensures
        views(out@) == spec_print_user(*u),
{
    let mut out: Vec<String> = Vec::new();
    let mut a = String::from_str("Email      : ");
    a.append(u.email.as_str());
    out.push(a);
    let mut b = String::from_str("Id         : ");
    push_i64(&mut b, u.id);
    out.push(b);
    let mut c = String::from_str("Handle     : ");
    match &u.handle {
        Some(h) => c.append(h.as_str()),
        None => c.append("(none)"),
    }
    out.push(c);
    let mut d = String::from_str("Currency   : ");
    d.append(u.currency.as_str());
    out.push(d);
    let mut e = String::from_str("Member since: ");
    e.append(u.created_at.as_str());
    out.push(e);
    assert(views(out@) =~= spec_print_user(*u));
    out
}

/// Where the client points, where its config lives, and which credential it
/// holds (the credential's description, or how to get one).
pub open spec fn spec_status_lines(base_url: Seq<char>, config_path: Seq<char>, credential: Option<Seq<char>>) -> Seq<
    Seq<char>,
> {
    seq![
        "Base URL   : "@ + base_url,
        "Config     : "@ + config_path,
        "Credential : "@ + match credential {
            Some(c) => c,
            None => "(none \u{2014} run `tcglense login`)"@,
        },
    ]
}

pub fn status_lines(base_url: &str, config_path: &str, credential: &Option<String>) -> (out: Vec<String>)
    ensures
        views(out@) == spec_status_lines(base_url@, config_path@, crate::output::opt_view(*credential)),
{
    let mut out: Vec<String> = Vec::new();
    let mut a = String::from_str("Base URL   : ");
    a.append(base_url);
    out.push(a);
    let mut b = String::from_str("Config     : ");
    b.append(config_path);
    out.push(b);
    let mut c = String::from_str("Credential : ");
    match credential {
        Some(d) => c.append(d.as_str()),
        None => c.append("(none \u{2014} run `tcglense login`)"),
    }
    out.push(c);
    assert(views(out@) =~= spec_status_lines(base_url@, config_path@, crate::output::opt_view(*credential)));
    out
}

/// The note after storing a key: whom it authenticates as, or why checking it
/// failed.
pub open spec fn spec_key_stored(check: Result<Seq<char>, Seq<char>>) -> Seq<char> {
    match check {
        Ok(email) => "API key stored; authenticated as "@ + email + "."@,
        Err(e) => "API key stored, but verification failed: "@ + e,
    }
}

pub fn key_stored(check: &Result<String, String>) -> (r: String)
    ensures
        r@ == spec_key_stored(
            match check {
                Ok(e) => Ok(e@),
                Err(e) => Err(e@),
            },
        ),
{
    match check {
        Ok(email) => {
            let mut out = String::from_str("API key stored; authenticated as ");
            out.append(email.as_str());
            out.append(".");
            out
        },
        Err(e) => {
            let mut out = String::from_str("API key stored, but verification failed: ");
            out.append(e.as_str());
            out
        },
    }
}

/// The key list: the keys table, or `No API keys.`
pub open spec fn spec_api_keys(keys: Seq<ApiKeyInfo>) -> BlockView {
    if keys.len() == 0 {
        BlockView::Line("No API keys."@)
    } else {
        BlockView::Table(
            seq!["ID"@, "Name"@, "Scope"@, "Prefix"@, "Last used"@, "Expires"@],
            keys.map_values(|k: ApiKeyInfo| spec_apikeys_row(k)),
        )
    }
}

pub fn api_keys(keys: &Vec<ApiKeyInfo>) -> (b: Block)
    ensures
        block_view(b) == spec_api_keys(keys@),
{
    if keys.len() == 0 {
        Block::Line(String::from_str("No API keys."))
    } else {
        apikeys_table(keys)
    }
}

/// What creating a key prints: its name, id and scope, the key itself (shown this
/// once), and whether it became the active credential.
pub open spec fn spec_created_key(k: CreatedApiKey, used: bool) -> Seq<Seq<char>> {
    seq![
        "Created API key '"@ + k.name@ + "' (id "@ + dec_int(k.id as int) + ", "@ + k.scope@ + ")."@,
        "\n  "@ + k.key@ + "\n"@,
        "This is the ONLY time the key is shown \u{2014} copy it now."@,
    ] + if used {
        seq!["Stored as the active credential."@]
    } else {
        Seq::empty()
    }
}

pub fn created_key(k: &CreatedApiKey, used: bool) -> (out: Vec<String>)
    ensures
        views(out@) == spec_created_key(*k, used),
{
    let mut out: Vec<String> = Vec::new();
    let mut a = String::from_str("Created API key '");
    a.append(k.name.as_str());
    a.append("' (id ");
    push_i64(&mut a, k.id);
    a.append(", ");
    a.append(k.scope.as_str());
    a.append(").");
    out.push(a);
    let mut b = String::from_str("\n  ");
    b.append(k.key.as_str());
    b.append("\n");
    out.push(b);
    out.push(String::from_str("This is the ONLY time the key is shown \u{2014} copy it now."));
    if used {
        out.push(String::from_str("Stored as the active credential."));
    }
    assert(views(out@) =~= spec_created_key(*k, used));
    out
}

/// The note after revoking a key.
pub fn revoked(id: i64) -> (r: String)
    ensures
        r@ == "Revoked API key "@ + dec_int(id as int) + "."@,
{
    let mut out = String::from_str("Revoked API key ");
    push_i64(&mut out, id);
    out.append(".");
    out
}

/// The currency a request sets is sent upper-cased.
pub fn currency_code(requested: &str) -> (r: String)
    ensures
        r@ == crate::output::str_upper(requested@),
{
    to_upper(requested)
}

/// The display currency, after setting it or on its own.
pub fn currency_line(u: &User, set: bool) -> (r: String)
    ensures
        r@ == (if set {
            "Display currency set to "@ + u.currency@ + "."@
        } else {
            "Display currency: "@ + u.currency@
        }),
{
    if set {
        let mut out = String::from_str("Display currency set to ");
        out.append(u.currency.as_str());
        out.append(".");
        out
    } else {
        let mut out = String::from_str("Display currency: ");
        out.append(u.currency.as_str());
        out
    }
}

/// The line after claiming a username: the handle, or that it is pending.
pub fn username_set(u: &User) -> (r: String)
    ensures
        r@ == "Username set. Handle: "@ + match u.handle {
            Some(h) => h@,
            None => "(pending)"@,
        },
{
    let mut out = String::from_str("Username set. Handle: ");
    match &u.handle {
        Some(h) => out.append(h.as_str()),
        None => out.append("(pending)"),
    }
    out
}

/// Whether a username can be claimed: `Available.`, or why not.
pub fn availability(a: &UsernameAvailability) -> (r: String)
    ensures
        r@ == (if a.valid {
            "Available."@
        } else {
            "Unavailable: "@ + match a.reason {
                Some(x) => x@,
                None => "invalid"@,
            }
        }),
{
    if a.valid {
        String::from_str("Available.")
    } else {
        let mut out = String::from_str("Unavailable: ");
        match &a.reason {
            Some(x) => out.append(x.as_str()),
            None => out.append("invalid"),
        }
        out
    }
}

} // verus!
