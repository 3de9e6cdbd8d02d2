//! What the meta commands print: the outcome of a self-update, the stored
//! configuration, a health probe and the server's public configuration.
use crate::config::{trim_slashes, trim_trailing_slashes, Config, DEFAULT_BASE_URL};
use crate::models::PublicConfig;
use crate::output::{bool_text, push_bool};
use crate::text::{dec_nat, push_u64, spec_trim, trim, views};
use crate::update::Outcome;
use vstd::prelude::*;

verus! {

broadcast use vstd::string::group_string_axioms;

/// What an update run prints, or the error it ends with when the release ships no
/// binary for this platform.
pub open spec fn spec_update_report(o: Outcome) -> Result<Seq<Seq<char>>, Seq<char>> {
    match o {
        Outcome::UpToDate { current } => Ok(seq!["Already up to date (tcglense "@ + current@ + ")."@]),
        Outcome::Available { current, latest } => Ok(
            seq![
                "A newer version is available: "@ + current@ + " \u{2192} "@ + latest@ + "."@,
                "Run `tcglense update` to install it."@,
            ],
        ),
        Outcome::Updated { version } => Ok(seq!["Updated to tcglense "@ + version@ + "."@]),
        Outcome::Cancelled => Ok(seq!["Update cancelled."@]),
        Outcome::NoAssetForPlatform { target, latest } => Err(
            "release "@ + latest@ + " has no prebuilt binary for this platform ("@ + target@
                + "); build from source with `cargo install`"@,
        ),
    }
}

pub fn update_report(o: &Outcome) -> (r: Result<Vec<String>, String>)
    ensures
        match r {
            Ok(lines) => spec_update_report(*o) == Ok::<Seq<Seq<char>>, Seq<char>>(views(lines@)),
            Err(e) => spec_update_report(*o) == Err::<Seq<Seq<char>>, Seq<char>>(e@),
        },
{
    match o {
        Outcome::UpToDate { current } => {
            let mut a = String::from_str("Already up to date (tcglense ");
            a.append(current.as_str());
            a.append(").");
            let r = vec![a];
            assert(views(r@) =~= seq!["Already up to date (tcglense "@ + current@ + ")."@]);
            Ok(r)
        },
        Outcome::Available { current, latest } => {
            let mut a = String::from_str("A newer version is available: ");
            a.append(current.as_str());
            a.append(" \u{2192} ");
            a.append(latest.as_str());
            a.append(".");
            let b = String::from_str("Run `tcglense update` to install it.");
            let r = vec![a, b];
            assert(views(r@) =~= seq![
                "A newer version is available: "@ + current@ + " \u{2192} "@ + latest@ + "."@,
                "Run `tcglense update` to install it."@,
            ]);
            Ok(r)
        },
        Outcome::Updated { version } => {
            let mut a = String::from_str("Updated to tcglense ");
            a.append(version.as_str());
            a.append(".");
            let r = vec![a];
            assert(views(r@) =~= seq!["Updated to tcglense "@ + version@ + "."@]);
            Ok(r)
        },
        Outcome::Cancelled => {
            let r = vec![String::from_str("Update cancelled.")];
            assert(views(r@) =~= seq!["Update cancelled."@]);
            Ok(r)
        },
        Outcome::NoAssetForPlatform { target, latest } => {
            let mut e = String::from_str("release ");
            e.append(latest.as_str());
            e.append(" has no prebuilt binary for this platform (");
            e.append(target.as_str());
            e.append("); build from source with `cargo install`");
            Err(e)
        },
    }
}

/// The stored configuration: the base URL (the default when none is stored), the
/// credential's description, and where the file lives.
pub open spec fn spec_config_lines(cfg: Config, path: Seq<char>) -> Seq<Seq<char>> {
    seq![
        "base_url   : "@ + match cfg.base_url {
            Some(u) => u@,
            None => DEFAULT_BASE_URL@,
        },
        "credential : "@ + match cfg.auth {
            Some(a) => a.spec_describe(),
            None => "(none)"@,
        },
        "path       : "@ + path,
    ]
}

pub fn config_lines(cfg: &Config, path: &str) -> (r: Vec<String>)
    ensures
        views(r@) == spec_config_lines(*cfg, path@),
{
    let mut a = String::from_str("base_url   : ");
    match &cfg.base_url {
        Some(u) => a.append(u.as_str()),
        None => a.append(DEFAULT_BASE_URL),
    }
    let mut b = String::from_str("credential : ");
    match &cfg.auth {
        Some(x) => {
            let d = x.describe();
            b.append(d.as_str());
        },
        None => b.append("(none)"),
    }
    let mut c = String::from_str("path       : ");
    c.append(path);
    let r = vec![a, b, c];
    assert(views(r@) =~= spec_config_lines(*cfg, path@));
    r
}

/// Setting the base URL stores it without trailing slashes; this is the stored
/// value and the note that reports it.
pub fn set_url(url: &str) -> (r: (String, String))
    ensures
        r.0@ == trim_slashes(url@),
        r.1@ == "Base URL set to "@ + trim_slashes(url@) + "."@,
{
    let stored = trim_trailing_slashes(url);
    let mut note = String::from_str("Base URL set to ");
    note.append(stored.as_str());
    note.append(".");
    (stored, note)
}

/// A probe's answer on a line: `HTTP 200: ok`, the body trimmed.
pub fn probe_line(status: u16, body: &str) -> (r: String)
    ensures
        r@ == "HTTP "@ + dec_nat(status as nat) + ": "@ + spec_trim(body@),
{
    let mut out = String::from_str("HTTP ");
    push_u64(&mut out, status as u64);
    out.append(": ");
    let t = trim(body);
    out.append(t.as_str());
    out
}

/// The server's public configuration, field by field; the sign-up message only
/// when there is one.
pub open spec fn spec_server_config(cfg: PublicConfig) -> Seq<Seq<char>> {
    seq![
        "maintenance_mode : "@ + bool_text(cfg.maintenance_mode),
        "signups_enabled  : "@ + bool_text(cfg.signups_enabled),
        "turnstile        : "@ + if cfg.turnstile_site_key is Some {
            "enabled"@
        } else {
            "disabled"@
        },
    ] + match cfg.signups_disabled_message {
        Some(m) => seq!["signups_message  : "@ + m@],
        None => Seq::empty(),
    }
}

pub fn server_config(cfg: &PublicConfig) -> (r: Vec<String>)
    ensures
        views(r@) == spec_server_config(*cfg),
{
    let mut r: Vec<String> = Vec::new();
    let mut a = String::from_str("maintenance_mode : ");
    push_bool(&mut a, cfg.maintenance_mode);
    r.push(a);
    let mut b = String::from_str("signups_enabled  : ");
    push_bool(&mut b, cfg.signups_enabled);
    r.push(b);
    let mut c = String::from_str("turnstile        : ");
    if cfg.turnstile_site_key.is_some() {
        c.append("enabled");
    } else {
        c.append("disabled");
    }
    r.push(c);
    if let Some(m) = &cfg.signups_disabled_message {
        let mut d = String::from_str("signups_message  : ");
        d.append(m.as_str());
        r.push(d);
    }
    assert(views(r@) =~= spec_server_config(*cfg));
    r
}

} // verus!
