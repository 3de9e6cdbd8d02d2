//! What the HTTP client decides rather than sends: request URLs, the refresh-cookie
//! header it presents and the one it captures from a response, and the friendly
//! errors it turns failed responses into.
use crate::output::opt_view;
use crate::text::{
    chars_of, chars_start_with, dec_nat, push_u64, slice_chars, spec_trim, split_char, split_chars,
    starts_with, string_from_chars, trim_chars, vviews,
};
use vstd::prelude::*;

verus! {

broadcast use vstd::string::group_string_axioms;

/// The cookie the session refresh token travels in.
pub open spec fn refresh_cookie_prefix() -> Seq<char> {
    "tcglense_refresh="@
}

/// `base` followed by `path`.
pub fn url(base_url: &str, path: &str) -> (r: String)
    ensures
        r@ == base_url@ + path@,
{
    let mut out = String::from_str(base_url);
    out.append(path);
    out
}

/// The `Cookie` header that presents a refresh token.
pub fn refresh_cookie_header(refresh_token: &str) -> (r: String)
    ensures
        r@ == refresh_cookie_prefix() + refresh_token@,
{
    let mut out = String::from_str("tcglense_refresh=");
    out.append(refresh_token);
    out
}

/// The refresh token one `;`-separated cookie attribute carries, if it is ours.
pub open spec fn cookie_value(part: Seq<char>) -> Option<Seq<char>> {
    let t = spec_trim(part);
    if starts_with(t, refresh_cookie_prefix()) && t.len() > refresh_cookie_prefix().len() {
        Some(t.skip(refresh_cookie_prefix().len() as int))
    } else {
        None
    }
}

/// The first refresh token among the attributes `parts`.
pub open spec fn first_cookie(parts: Seq<Seq<char>>) -> Option<Seq<char>>
    decreases parts.len(),
{
    if parts.len() == 0 {
        None
    } else {
        match cookie_value(parts[0]) {
            Some(v) => Some(v),
            None => first_cookie(parts.drop_first()),
        }
    }
}

/// The first refresh token across the `Set-Cookie` header values, in order.
pub open spec fn spec_refresh_cookie(headers: Seq<Seq<char>>) -> Option<Seq<char>>
    decreases headers.len(),
{
    if headers.len() == 0 {
        None
    } else {
        match first_cookie(split_char(headers[0], ';')) {
            Some(v) => Some(v),
            None => spec_refresh_cookie(headers.drop_first()),
        }
    }
}

fn cookie_in(part: &[char]) -> (r: Option<String>)
    ensures
        opt_view(r) == cookie_value(part@),
{
    let t = trim_chars(part);
    let plen: usize = 17;
    assert(refresh_cookie_prefix().len() == 17) by {
        reveal_strlit("tcglense_refresh=");
    }
    if chars_start_with(t.as_slice(), "tcglense_refresh=") && t.len() > plen {
        let v = slice_chars(t.as_slice(), plen, t.len());
        assert(v@ =~= t@.skip(17));
        Some(string_from_chars(v.as_slice()))
    } else {
        None
    }
}

proof fn lemma_first_cookie_skip(parts: Seq<Seq<char>>, i: int)
    requires
        0 <= i <= parts.len(),
        forall|j: int| 0 <= j < i ==> cookie_value(#[trigger] parts[j]) is None,
    ensures
        first_cookie(parts) == first_cookie(parts.skip(i)),
    decreases i,
{
    if i > 0 {
        assert(cookie_value(parts[0]) is None);
        let d = parts.drop_first();
        assert forall|j: int| 0 <= j < i - 1 implies cookie_value(#[trigger] d[j]) is None by {
            assert(d[j] == parts[j + 1]);
        }
        lemma_first_cookie_skip(d, i - 1);
        assert(d.skip(i - 1) =~= parts.skip(i));
    } else {
        assert(parts.skip(0) =~= parts);
    }
}

proof fn lemma_refresh_skip(h: Seq<Seq<char>>, i: int)
    requires
        0 <= i <= h.len(),
        forall|j: int| 0 <= j < i ==> first_cookie(split_char(#[trigger] h[j], ';')) is None,
    ensures
        spec_refresh_cookie(h) == spec_refresh_cookie(h.skip(i)),
    decreases i,
{
    if i > 0 {
        assert(first_cookie(split_char(h[0], ';')) is None);
        let d = h.drop_first();
        assert forall|j: int| 0 <= j < i - 1 implies first_cookie(split_char(#[trigger] d[j], ';')) is None by {
            assert(d[j] == h[j + 1]);
        }
        lemma_refresh_skip(d, i - 1);
        assert(d.skip(i - 1) =~= h.skip(i));
    } else {
        assert(h.skip(0) =~= h);
    }
}

/// The views of a list of strings.
pub open spec fn string_views(v: Seq<String>) -> Seq<Seq<char>> {
    v.map_values(|s: String| s@)
}

/// Pull the `tcglense_refresh` value out of a response's `Set-Cookie` header values.
pub fn extract_refresh_cookie(set_cookie: &Vec<String>) -> (r: Option<String>)
    ensures
        opt_view(r) == spec_refresh_cookie(string_views(set_cookie@)),
{
    let ghost hv = string_views(set_cookie@);
    let mut i: usize = 0;
    while i < set_cookie.len()
        invariant
            i <= set_cookie@.len(),
            hv == string_views(set_cookie@),
            forall|j: int| 0 <= j < i ==> first_cookie(split_char(#[trigger] hv[j], ';')) is None,
        decreases set_cookie.len() - i,
    {
        let cs = chars_of(set_cookie[i].as_str());
        assert(hv[i as int] == cs@);
        let parts = split_chars(cs.as_slice(), ';');
        let ghost pv = vviews(parts@);
        let mut k: usize = 0;
        while k < parts.len()
            invariant
                k <= parts@.len(),
                pv == vviews(parts@),
                pv == split_char(cs@, ';'),
                i < set_cookie@.len(),
                hv == string_views(set_cookie@),
                hv[i as int] == cs@,
                forall|j: int| 0 <= j < i ==> first_cookie(split_char(#[trigger] hv[j], ';')) is None,
                forall|j: int| 0 <= j < k ==> cookie_value(#[trigger] pv[j]) is None,
            decreases parts.len() - k,
        {
            match cookie_in(parts[k].as_slice()) {
                Some(v) => {
                    proof {
                        lemma_first_cookie_skip(pv, k as int);
                        assert(pv.skip(k as int)[0] == pv[k as int]);
                        lemma_refresh_skip(hv, i as int);
                        assert(hv.skip(i as int)[0] == hv[i as int]);
                        assert(hv[i as int] == cs@);
                    }
                    return Some(v);
                },
                None => {},
            }
            k += 1;
        }
        proof {
            lemma_first_cookie_skip(pv, k as int);
            assert(pv.skip(k as int).len() == 0);
            assert(hv[i as int] == cs@);
        }
        i += 1;
    }
    proof {
        lemma_refresh_skip(hv, i as int);
        assert(hv.skip(i as int).len() == 0);
    }
    None
}

// ---------------------------------------------------------------------------
// Friendly errors
// ---------------------------------------------------------------------------

/// The string field `key` of a JSON object body, if the body is one and has it (a
/// name for what `serde_json` reads out of `body`).
pub uninterp spec fn json_string(body: Seq<char>, key: Seq<char>) -> Option<Seq<char>>;

/// `serde_json::from_str::<serde_json::Value>` followed by `.get(key)` and
/// `.as_str()`.
#[verifier::external_body]
fn json_string_field(body: &str, key: &str) -> (r: Option<String>)
    ensures
        opt_view(r) == json_string(body@, key@),
{
    serde_json::from_str::<serde_json::Value>(body)
        .ok()
        .and_then(|v| v.get(key).and_then(|e| e.as_str()).map(String::from))
}

/// The API's `{ "error": string }` message in a body.
pub open spec fn json_error(body: Seq<char>) -> Option<Seq<char>> {
    json_string(body, "error"@)
}

/// The canonical reason phrase of a status code (a name for what reqwest's
/// `StatusCode::canonical_reason` answers).
pub uninterp spec fn canonical_reason(status: u16) -> Option<Seq<char>>;

/// `reqwest::StatusCode::from_u16` followed by `canonical_reason`.
#[verifier::external_body]
fn status_reason(status: u16) -> (r: Option<String>)
    ensures
        opt_view(r) == canonical_reason(status),
{
    reqwest::StatusCode::from_u16(status).ok().and_then(|s| s.canonical_reason()).map(String::from)
}

/// The hints appended to the common refusals.
pub open spec fn hint_401() -> Seq<char> {
    " (not authenticated \u{2014} run `tcglense login` or `tcglense auth key <tcgl_\u{2026}>`)"@
}

pub open spec fn hint_403() -> Seq<char> {
    " (forbidden \u{2014} the credential lacks the required scope; writes need a read_write key, and key management needs a session login)"@
}

/// The error a failed response is reported as: the API's own `error` message, else
/// the start of the body, else the status's reason phrase; then the status and a
/// hint for the common refusals.
pub open spec fn spec_error_text(
    status: u16,
    reason: Option<Seq<char>>,
    retry_after: Option<Seq<char>>,
    body: Seq<char>,
    error_field: Option<Seq<char>>,
) -> Seq<char> {
    let message = match error_field {
        Some(e) => e,
        None => if spec_trim(body).len() == 0 {
            match reason {
                Some(r) => r,
                None => "request failed"@,
            }
        } else {
            body.take(if body.len() < 300 { body.len() as int } else { 300 })
        },
    };
    if status == 429 && retry_after is Some {
        "rate limited (429): "@ + message + "; retry after "@ + retry_after->0 + "s"@
    } else {
        let hint = if status == 401 {
            hint_401()
        } else if status == 403 {
            hint_403()
        } else if status == 429 {
            " (rate limited)"@
        } else {
            Seq::empty()
        };
        message + " ("@ + dec_nat(status as nat) + ")"@ + hint
    }
}

/// The error text for a failed response, given the reason phrase and the parsed
/// `error` field.
pub fn error_text_from(
    status: u16,
    reason: Option<String>,
    retry_after: Option<String>,
    body: &str,
    error_field: Option<String>,
) -> (r: String)
    ensures
        r@ == spec_error_text(status, opt_view(reason), opt_view(retry_after), body@, opt_view(error_field)),
{
    let message = match error_field {
        Some(e) => e,
        None => {
            let bc = chars_of(body);
            let t = trim_chars(bc.as_slice());
            if t.len() == 0 {
                match reason {
                    Some(r) => r,
                    None => String::from_str("request failed"),
                }
            } else {
                let n: usize = if bc.len() < 300 { bc.len() } else { 300 };
                let head = slice_chars(bc.as_slice(), 0, n);
                assert(head@ =~= bc@.take(n as int));
                string_from_chars(head.as_slice())
            }
        },
    };
    if status == 429 && retry_after.is_some() {
        let mut out = String::from_str("rate limited (429): ");
        out.append(message.as_str());
        out.append("; retry after ");
        match &retry_after {
            Some(s) => out.append(s.as_str()),
            None => {},
        }
        out.append("s");
        return out;
    }
    let mut out = message;
    out.append(" (");
    push_u64(&mut out, status as u64);
    out.append(")");
    if status == 401 {
        out.append(" (not authenticated \u{2014} run `tcglense login` or `tcglense auth key <tcgl_\u{2026}>`)");
    } else if status == 403 {
        out.append(" (forbidden \u{2014} the credential lacks the required scope; writes need a read_write key, and key management needs a session login)");
    } else if status == 429 {
        out.append(" (rate limited)");
    }
    assert(out@ =~= spec_error_text(status, opt_view(reason), opt_view(retry_after), body@, opt_view(error_field)));
    out
}

/// Turn a non-2xx response (its status, `Retry-After` header and body) into a
/// friendly error, parsing `{ "error": string }`.
pub fn error_text(status: u16, retry_after: Option<String>, body: &str) -> (r: String)
    ensures
        r@ == spec_error_text(status, canonical_reason(status), opt_view(retry_after), body@, json_error(body@)),
{
    let field = json_string_field(body, "error");
    let reason = status_reason(status);
    error_text_from(status, reason, retry_after, body, field)
}

/// The error a request that never got a response is reported as.
pub open spec fn spec_transport_error(base_url: Seq<char>, detail: Seq<char>, unreachable: bool) -> Seq<char> {
    if unreachable {
        "could not reach the API at "@ + base_url + ": "@ + detail
            + "\nIs the server running? Set the URL with `tcglense --url <URL> \u{2026}` or `tcglense config url <URL>`."@
    } else {
        "request to "@ + base_url + " failed: "@ + detail
    }
}

/// `unreachable` is whether the failure was a connect error or a timeout.
pub fn transport_error(base_url: &str, detail: &str, unreachable: bool) -> (r: String)
    ensures
        r@ == spec_transport_error(base_url@, detail@, unreachable),
{
    if unreachable {
        let mut out = String::from_str("could not reach the API at ");
        out.append(base_url);
        out.append(": ");
        out.append(detail);
        out.append("\nIs the server running? Set the URL with `tcglense --url <URL> \u{2026}` or `tcglense config url <URL>`.");
        out
    } else {
        let mut out = String::from_str("request to ");
        out.append(base_url);
        out.append(" failed: ");
        out.append(detail);
        out
    }
}

/// The error an undecodable success body is reported as, quoting its first 200
/// characters.
pub open spec fn spec_decode_error(detail: Seq<char>, body: Seq<char>) -> Seq<char> {
    "could not decode API response: "@ + detail + "; body was: "@ + body.take(if body.len() < 200 { body.len() as int } else { 200 })
}

pub fn decode_error(detail: &str, body: &str) -> (r: String)
    ensures
        r@ == spec_decode_error(detail@, body@),
{
    let bc = chars_of(body);
    let n: usize = if bc.len() < 200 { bc.len() } else { 200 };
    let head = slice_chars(bc.as_slice(), 0, n);
    assert(head@ =~= bc@.take(n as int));
    let preview = string_from_chars(head.as_slice());
    let mut out = String::from_str("could not decode API response: ");
    out.append(detail);
    out.append("; body was: ");
    out.append(preview.as_str());
    out
}

// ---------------------------------------------------------------------------
// The one refresh a request may make
// ---------------------------------------------------------------------------

/// A `401` answered to a session credential gets one refresh and one replay; any
/// other answer, or a `401` to an API key or to no credential, is final.
pub open spec fn spec_should_refresh(status: u16, auth: Option<crate::config::Auth>) -> bool {
    status == 401 && (auth matches Some(crate::config::Auth::Session { .. }))
}

pub fn should_refresh(status: u16, auth: &Option<crate::config::Auth>) -> (r: bool)
    ensures
        r == spec_should_refresh(status, *auth),
{
    if status != 401 {
        return false;
    }
    match auth {
        Some(crate::config::Auth::Session { .. }) => true,
        _ => false,
    }
}

/// What the client does with a response: hand it back, or refresh the session and
/// replay the request.
#[derive(Debug, Clone, Copy, PartialEq, Eq, Structural)]
pub enum SendStep {
    Done,
    RefreshAndReplay,
}

/// The step after a response. `replayed` says whether this response already
/// answers a replay.
pub open spec fn spec_send_step(status: u16, auth: Option<crate::config::Auth>, replayed: bool) -> SendStep {
    if !replayed && spec_should_refresh(status, auth) {
        SendStep::RefreshAndReplay
    } else {
        SendStep::Done
    }
}

pub fn send_step(status: u16, auth: &Option<crate::config::Auth>, replayed: bool) -> (r: SendStep)
    ensures
        r == spec_send_step(status, *auth, replayed),
{
    if !replayed && should_refresh(status, auth) {
        SendStep::RefreshAndReplay
    } else {
        SendStep::Done
    }
}

/// A replay's answer is final, whatever it is, so a request is sent at most twice;
/// and only a `401` to a session is replayed.
pub proof fn replayed_at_most_once(status: u16, auth: Option<crate::config::Auth>)
    ensures
        spec_send_step(status, auth, true) == SendStep::Done,
        spec_send_step(status, auth, false) == SendStep::RefreshAndReplay ==> status == 401
            && auth matches Some(crate::config::Auth::Session { .. }),
{
}

/// The session a successful refresh leaves: the new access token and user, and
/// the rotated refresh token when the response set one, else the one presented.
pub fn refreshed_session(
    access_token: String,
    rotated: Option<String>,
    presented: String,
    user: crate::models::User,
) -> (r: crate::config::Auth)
    ensures
        r matches crate::config::Auth::Session { access_token: a, refresh_token: t, user: u } && a@ == access_token@
            && t@ == (match rotated {
            Some(x) => x@,
            None => presented@,
        }) && u == Some(user),
{
    let refresh_token = match rotated {
        Some(x) => x,
        None => presented,
    };
    crate::config::Auth::Session { access_token, refresh_token, user: Some(user) }
}

} // verus!
