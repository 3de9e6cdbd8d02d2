//! Browser sign-in (the OAuth 2.0 loopback flow with PKCE), minus the sockets: the
//! secrets and the sign-in URL the browser is sent to, reading the request line
//! the browser sends back, deciding what a callback means, and the response the
//! loopback listener writes.
use crate::commands::catalog::{hex_encode, spec_hex_encode};
use crate::config::{trim_slashes, trim_trailing_slashes};
use crate::text::{
    chars_equal, chars_of, dec_nat, is_whitespace, push_u64, spec_is_whitespace, spec_trim, string_from_chars,
    trim,
};
use rand::RngCore;
use sha2::Digest;
use vstd::prelude::*;

verus! {

broadcast use vstd::string::group_string_axioms;

// ---------------------------------------------------------------------------
// Secrets
// ---------------------------------------------------------------------------

/// The SHA-256 digest of `data` (a name for what `sha2::Sha256::digest` computes).
pub uninterp spec fn sha256(data: Seq<u8>) -> Seq<u8>;

/// `sha2::Sha256::digest`: the 32-byte SHA-256 digest of `data`.
#[verifier::external_body]
fn sha256_digest(data: &[u8]) -> (r: Vec<u8>)
    ensures
        r@ == sha256(data@),
        r@.len() == 32,
{
    sha2::Sha256::digest(data).to_vec()
}

/// `rand::rng().fill_bytes`: 32 bytes from the thread-local CSPRNG. Nothing is
/// stated of their values, which are random.
#[verifier::external_body]
fn random_bytes32() -> (r: Vec<u8>)
    ensures
        r@.len() == 32,
{
    let mut bytes = [0u8; 32];
    rand::rng().fill_bytes(&mut bytes);
    bytes.to_vec()
}

/// 32 CSPRNG bytes, hex-encoded (64 hex chars) — the same shape as the server's
/// opaque secrets.
pub fn random_hex() -> (r: String)
    ensures
        exists|b: Seq<u8>| b.len() == 32 && r@ == spec_hex_encode(b),
{
    let bytes = random_bytes32();
    hex_encode(bytes.as_slice())
}

/// The PKCE challenge for a verifier: the lowercase hex of SHA-256 over its UTF-8
/// bytes.
pub open spec fn spec_challenge(verifier: Seq<char>) -> Seq<char> {
    spec_hex_encode(sha256(vstd::utf8::encode_utf8(verifier)))
}

pub fn sha256_hex(input: &str) -> (r: String)
    ensures
        r@ == spec_challenge(input@),
{
    let digest = sha256_digest(input.as_bytes());
    hex_encode(digest.as_slice())
}

/// The secrets one browser sign-in is bound to.
pub struct LoginSecrets {
    /// Anti-CSRF nonce echoed back on the loopback redirect.
    pub state: String,
    /// The PKCE verifier — kept private; presented only at the token exchange.
    pub verifier: String,
    /// `SHA-256(verifier)` in hex — handed to the browser/server up front.
    pub challenge: String,
}

/// Mint fresh PKCE + CSRF secrets.
pub fn new_secrets() -> (s: LoginSecrets)
    ensures
        s.challenge@ == spec_challenge(s.verifier@),
        s.verifier@.len() == 64,
        s.state@.len() == 64,
        exists|b: Seq<u8>| b.len() == 32 && s.verifier@ == spec_hex_encode(b),
        exists|b: Seq<u8>| b.len() == 32 && s.state@ == spec_hex_encode(b),
{
    let verifier = random_hex();
    let challenge = sha256_hex(verifier.as_str());
    let state = random_hex();
    proof {
        let b = choose|b: Seq<u8>| b.len() == 32 && verifier@ == spec_hex_encode(b);
        crate::commands::catalog::lemma_encode_len(b);
        let c = choose|c: Seq<u8>| c.len() == 32 && state@ == spec_hex_encode(c);
        crate::commands::catalog::lemma_encode_len(c);
    }
    LoginSecrets { state, verifier, challenge }
}

// ---------------------------------------------------------------------------
// The sign-in URL
// ---------------------------------------------------------------------------

/// The query pairs as plain values.
pub open spec fn pairs_view(p: Seq<(String, String)>) -> Seq<(Seq<char>, Seq<char>)> {
    p.map_values(|x: (String, String)| (x.0@, x.1@))
}

/// The URL the `url` crate serialises for `base` with `pairs` appended to its query
/// (form-urlencoded), or nothing when `base` does not parse as a URL.
pub uninterp spec fn url_with_pairs(base: Seq<char>, pairs: Seq<(Seq<char>, Seq<char>)>) -> Option<Seq<char>>;

/// `url::Url::parse` followed by `query_pairs_mut().extend_pairs(..)` with the pairs
/// in order, and the URL's serialisation.
#[verifier::external_body]
fn url_append_pairs(base: &str, pairs: &Vec<(String, String)>) -> (r: Option<String>)
    ensures
        match r {
            Some(u) => url_with_pairs(base@, pairs_view(pairs@)) == Some(u@),
            None => url_with_pairs(base@, pairs_view(pairs@)) is None,
        },
{
    let mut url = reqwest::Url::parse(base).ok()?;
    url.query_pairs_mut().extend_pairs(pairs.iter());
    Some(url.to_string())
}

/// The loopback URL the browser is told to return to.
pub open spec fn spec_redirect_uri(port: u16) -> Seq<char> {
    "http://127.0.0.1:"@ + dec_nat(port as nat) + "/callback"@
}

pub fn redirect_uri(port: u16) -> (r: String)
    ensures
        r@ == spec_redirect_uri(port),
{
    let mut out = String::from_str("http://127.0.0.1:");
    push_u64(&mut out, port as u64);
    out.append("/callback");
    out
}

/// The pairs the sign-in URL carries, in order.
pub open spec fn authorize_pairs(port: u16, state: Seq<char>, challenge: Seq<char>, client_name: Seq<char>) -> Seq<(Seq<char>, Seq<char>)> {
    seq![
        ("redirect_uri"@, spec_redirect_uri(port)),
        ("state"@, state),
        ("code_challenge"@, challenge),
        ("name"@, client_name),
    ]
}

/// The absolute sign-in URL to open in the browser, against `site_base` (the
/// origin that serves the SPA — the same origin the CLI talks to). `None` when the
/// base is not a URL.
pub fn authorize_url(site_base: &str, port: u16, state: &str, challenge: &str, client_name: &str) -> (r: Option<String>)
    ensures
        match r {
            Some(u) => url_with_pairs(trim_slashes(site_base@) + "/cli-login"@, authorize_pairs(port, state@, challenge@, client_name@)) == Some(u@),
            None => url_with_pairs(trim_slashes(site_base@) + "/cli-login"@, authorize_pairs(port, state@, challenge@, client_name@)) is None,
        },
{
    let mut base = trim_trailing_slashes(site_base);
    base.append("/cli-login");
    let mut pairs: Vec<(String, String)> = Vec::new();
    pairs.push((String::from_str("redirect_uri"), redirect_uri(port)));
    pairs.push((String::from_str("state"), String::from_str(state)));
    pairs.push((String::from_str("code_challenge"), String::from_str(challenge)));
    pairs.push((String::from_str("name"), String::from_str(client_name)));
    assert(pairs_view(pairs@) =~= authorize_pairs(port, state@, challenge@, client_name@));
    url_append_pairs(base.as_str(), &pairs)
}

/// A best-effort label for the device, shown on the browser consent screen:
/// `$HOSTNAME`, else `$COMPUTERNAME`, trimmed; "this computer" when that is empty.
pub open spec fn spec_client_label(hostname: Option<Seq<char>>, computername: Option<Seq<char>>) -> Seq<char> {
    let raw = match hostname {
        Some(h) => Some(h),
        None => computername,
    };
    let host = match raw {
        Some(h) => if spec_trim(h).len() > 0 { spec_trim(h) } else { "this computer"@ },
        None => "this computer"@,
    };
    "tcglense CLI on "@ + host
}

pub fn client_label(hostname: Option<String>, computername: Option<String>) -> (r: String)
    ensures
        r@ == spec_client_label(crate::output::opt_view(hostname), crate::output::opt_view(computername)),
{
    let raw = match hostname {
        Some(h) => Some(h),
        None => computername,
    };
    let mut out = String::from_str("tcglense CLI on ");
    match raw {
        Some(h) => {
            let t = trim(h.as_str());
            if t.unicode_len() > 0 {
                out.append(t.as_str());
            } else {
                out.append("this computer");
            }
        },
        None => {
            out.append("this computer");
        },
    }
    out
}

// ---------------------------------------------------------------------------
// The request line
// ---------------------------------------------------------------------------

/// `String::from_utf8_lossy`: the text of `bytes`, each invalid sequence replaced
/// by U+FFFD. Valid UTF-8 comes back unchanged; nothing more is stated of the
/// replacement.
pub uninterp spec fn utf8_lossy(bytes: Seq<u8>) -> Seq<char>;

#[verifier::external_body]
pub(crate) fn lossy_utf8(bytes: &[u8]) -> (r: String)
    ensures
        r@ == utf8_lossy(bytes@),
        vstd::utf8::valid_utf8(bytes@) ==> r@ == vstd::utf8::decode_utf8(bytes@),
{
    String::from_utf8_lossy(bytes).into_owned()
}

/// The whitespace-separated words of `s`, in order (what `split_whitespace` yields).
pub open spec fn words(s: Seq<char>) -> Seq<Seq<char>>
    decreases s.len(),
{
    if s.len() == 0 {
        Seq::empty()
    } else {
        let w = words(s.drop_last());
        let c = s.last();
        if spec_is_whitespace(c) {
            w
        } else if s.len() >= 2 && !spec_is_whitespace(s[s.len() - 2]) && w.len() > 0 {
            w.update(w.len() - 1, w.last().push(c))
        } else {
            w.push(seq![c])
        }
    }
}

/// The words of `s`.
pub fn split_words(s: &[char]) -> (r: Vec<Vec<char>>)
    ensures
        crate::text::vviews(r@) == words(s@),
{
    let mut out: Vec<Vec<char>> = Vec::new();
    let mut i: usize = 0;
    while i < s.len()
        invariant
            i <= s.len(),
            crate::text::vviews(out@) == words(s@.take(i as int)),
        decreases s.len() - i,
    {
        let c = s[i];
        let ghost t = s@.take(i + 1);
        assert(t.drop_last() =~= s@.take(i as int));
        assert(t.last() == c);
        if !is_whitespace(c) {
            if i > 0 && !is_whitespace(s[i - 1]) && out.len() > 0 {
                assert(t[t.len() - 2] == s@[i - 1]);
                let last = out.len() - 1;
                let mut w = out.remove(last);
                w.push(c);
                out.push(w);
                assert(crate::text::vviews(out@) =~= words(t));
            } else {
                proof {
                    if i > 0 {
                        assert(t[t.len() - 2] == s@[i - 1]);
                    }
                }
                let mut w: Vec<char> = Vec::new();
                w.push(c);
                out.push(w);
                assert(crate::text::vviews(out@) =~= words(t));
            }
        }
        i += 1;
    }
    assert(s@.take(s.len() as int) =~= s@);
    out
}

/// Whether a CRLF starts at `j`.
pub open spec fn crlf_at(b: Seq<u8>, j: int) -> bool {
    b[j] == 13 && b[j + 1] == 10
}

/// The index of the first CRLF in `b`, if any.
pub open spec fn first_crlf(b: Seq<u8>) -> Option<int>
    decreases b.len(),
{
    if b.len() < 2 {
        None
    } else if b[0] == 13 && b[1] == 10 {
        Some(0)
    } else {
        match first_crlf(b.drop_first()) {
            Some(k) => Some(k + 1),
            None => None,
        }
    }
}

proof fn lemma_first_crlf(b: Seq<u8>, i: int)
    requires
        0 <= i,
        forall|j: int| 0 <= j < i && j + 1 < b.len() ==> !#[trigger] crlf_at(b, j),
        i + 1 < b.len() ==> crlf_at(b, i),
    ensures
        first_crlf(b) == (if i + 1 < b.len() { Some(i) } else { None::<int> }),
    decreases i,
{
    if b.len() >= 2 {
        if i > 0 {
            assert(!crlf_at(b, 0));
            let d = b.drop_first();
            assert forall|j: int| 0 <= j < i - 1 && j + 1 < d.len() implies !#[trigger] crlf_at(d, j) by {
                assert(d[j] == b[j + 1] && d[j + 1] == b[j + 2]);
                assert(!crlf_at(b, j + 1));
            }
            if i + 1 < b.len() {
                assert(d[i - 1] == b[i] && d[i] == b[i + 1]);
            }
            lemma_first_crlf(d, i - 1);
        }
    }
}

/// What the listener does with the bytes a connection has sent so far.
pub enum RequestScan {
    /// The request line is complete: the request target, if it has one.
    Line(Option<String>),
    /// Still no line ending — read more.
    NeedMore,
    /// Over the size cap without a line ending — drop the connection.
    TooLong,
}

/// The largest request prefix buffered while waiting for a line ending.
pub open spec fn request_cap() -> nat {
    8192
}

/// The request target of a request line: the second whitespace-separated word.
pub open spec fn spec_target(line: Seq<char>) -> Option<Seq<char>> {
    if words(line).len() >= 2 {
        Some(words(line)[1])
    } else {
        None
    }
}

/// Read the HTTP request line (up to the first CRLF) and return the request target
/// — the path+query, e.g. `/callback?code=…`.
pub fn scan_request(buf: &[u8]) -> (r: RequestScan)
    ensures
        match r {
            RequestScan::Line(t) => first_crlf(buf@) matches Some(pos) && match t {
                Some(s) => spec_target(utf8_lossy(buf@.take(pos))) == Some(s@),
                None => spec_target(utf8_lossy(buf@.take(pos))) is None,
            },
            RequestScan::NeedMore => first_crlf(buf@) is None && buf@.len() <= request_cap(),
            RequestScan::TooLong => first_crlf(buf@) is None && buf@.len() > request_cap(),
        },
{
    let n = buf.len();
    let mut i: usize = 0;
    while n >= 2 && i < n - 1
        invariant
            n == buf@.len(),
            i <= n,
            forall|j: int| 0 <= j < i && j + 1 < n ==> !#[trigger] crlf_at(buf@, j),
        decreases n - i,
    {
        if buf[i] == 13 && buf[i + 1] == 10 {
            proof {
                lemma_first_crlf(buf@, i as int);
            }
            let mut head: Vec<u8> = Vec::new();
            let mut k: usize = 0;
            while k < i
                invariant
                    k <= i < n,
                    n == buf@.len(),
                    head@ == buf@.take(k as int),
                decreases i - k,
            {
                head.push(buf[k]);
                assert(buf@.take(k as int).push(buf@[k as int]) =~= buf@.take(k + 1));
                k += 1;
            }
            let line = lossy_utf8(head.as_slice());
            let lc = chars_of(line.as_str());
            let ws = split_words(lc.as_slice());
            if ws.len() >= 2 {
                return RequestScan::Line(Some(string_from_chars(ws[1].as_slice())));
            } else {
                return RequestScan::Line(None);
            }
        }
        i += 1;
    }
    proof {
        lemma_first_crlf(buf@, i as int);
    }
    if n > 8192 {
        RequestScan::TooLong
    } else {
        RequestScan::NeedMore
    }
}

// ---------------------------------------------------------------------------
// The callback
// ---------------------------------------------------------------------------

/// The path and query pairs the `url` crate reads out of `url`, or nothing when
/// `url` does not parse.
pub uninterp spec fn url_parts(url: Seq<char>) -> Option<(Seq<char>, Seq<(Seq<char>, Seq<char>)>)>;

/// `url::Url::parse` of `url`, read back as its path and its decoded query pairs.
#[verifier::external_body]
fn parse_url(url: &str) -> (r: Option<(String, Vec<(String, String)>)>)
    ensures
        match r {
            Some((path, pairs)) => url_parts(url@) == Some((path@, pairs_view(pairs@))),
            None => url_parts(url@) is None,
        },
{
    let url = reqwest::Url::parse(url).ok()?;
    let pairs = url.query_pairs().map(|(k, v)| (k.into_owned(), v.into_owned())).collect();
    Some((url.path().to_string(), pairs))
}

/// A request target read against the loopback origin the listener serves.
pub open spec fn loopback_url(target: Seq<char>) -> Seq<char> {
    "http://127.0.0.1"@ + target
}

/// The value the last pair named `key` carries, if any.
pub open spec fn last_value(pairs: Seq<(Seq<char>, Seq<char>)>, key: Seq<char>) -> Option<Seq<char>>
    decreases pairs.len(),
{
    if pairs.len() == 0 {
        None
    } else if pairs.last().0 == key {
        Some(pairs.last().1)
    } else {
        last_value(pairs.drop_last(), key)
    }
}

fn find_last(pairs: &Vec<(String, String)>, key: &str) -> (r: Option<String>)
    ensures
        crate::output::opt_view(r) == last_value(pairs_view(pairs@), key@),
{
    let mut found: Option<String> = None;
    let mut i: usize = 0;
    while i < pairs.len()
        invariant
            i <= pairs@.len(),
            crate::output::opt_view(found) == last_value(pairs_view(pairs@).take(i as int), key@),
        decreases pairs.len() - i,
    {
        let ghost t = pairs_view(pairs@).take(i + 1);
        assert(t.drop_last() =~= pairs_view(pairs@).take(i as int));
        let kc = chars_of(pairs[i].0.as_str());
        if chars_equal(kc.as_slice(), key) {
            found = Some(pairs[i].1.clone());
        }
        i += 1;
    }
    assert(pairs_view(pairs@).take(pairs.len() as int) =~= pairs_view(pairs@));
    found
}

/// What one loopback request means for the sign-in.
pub enum Callback {
    /// Not the callback path: answered 404 and ignored.
    NotFound,
    /// Not a URL, or a callback whose `state` is not ours: answered 400 and ignored.
    Ignored,
    /// The user declined in the browser: answered with the cancellation page.
    Declined { error: String },
    /// The one-time authorization code: answered with the success page.
    Code { code: String },
    /// A callback of ours that carries no code: answered 400, and the sign-in fails.
    NoCode,
}

/// A callback's meaning, from its path and query pairs. `state` is checked before
/// `error` is honoured, so a stray `?error=…` without our state can't abort the
/// sign-in; the last occurrence of a parameter wins.
pub open spec fn spec_callback(path: Seq<char>, pairs: Seq<(Seq<char>, Seq<char>)>, expected_state: Seq<char>) -> int {
    if path != "/callback"@ {
        0
    } else if last_value(pairs, "state"@) != Some(expected_state) {
        1
    } else if last_value(pairs, "error"@) is Some {
        2
    } else if last_value(pairs, "code"@) matches Some(c) && c.len() > 0 {
        3
    } else {
        4
    }
}

impl Callback {
    /// Which of the five outcomes this is (in the order the variants are declared).
    pub open spec fn kind(self) -> int {
        match self {
            Callback::NotFound => 0,
            Callback::Ignored => 1,
            Callback::Declined { .. } => 2,
            Callback::Code { .. } => 3,
            Callback::NoCode => 4,
        }
    }

    /// The HTTP status the listener answers with.
    pub open spec fn spec_status(self) -> u16 {
        match self {
            Callback::NotFound => 404,
            Callback::Code { .. } => 200,
            _ => 400,
        }
    }

    pub fn status(&self) -> (s: u16)
        ensures
            s == self.spec_status(),
    {
        match self {
            Callback::NotFound => 404,
            Callback::Code { .. } => 200,
            _ => 400,
        }
    }

    /// Which page the listener answers with: the success page for a code, the
    /// cancellation page for a refusal, the error page otherwise.
    pub open spec fn spec_page(self) -> int {
        match self {
            Callback::Code { .. } => 0,
            Callback::Declined { .. } => 2,
            _ => 1,
        }
    }

    pub fn page(&self) -> (p: &'static str)
        ensures
            p == (if self.spec_page() == 0 {
                PAGE_OK
            } else if self.spec_page() == 2 {
                PAGE_DENIED
            } else {
                PAGE_ERROR
            }),
    {
        match self {
            Callback::Code { .. } => PAGE_OK,
            Callback::Declined { .. } => PAGE_DENIED,
            _ => PAGE_ERROR,
        }
    }

    /// How the sign-in ends: the code, the refusal, or the missing code; nothing
    /// for a request that is ignored.
    pub open spec fn spec_result(self) -> Option<Result<Seq<char>, Seq<char>>> {
        match self {
            Callback::Code { code } => Some(Ok(code@)),
            Callback::Declined { error } => Some(Err("sign-in was declined in the browser ("@ + error@ + ")"@)),
            Callback::NoCode => Some(Err("login redirect carried no authorization code"@)),
            _ => None,
        }
    }

    pub fn result(&self) -> (r: Option<Result<String, String>>)
        ensures
            r matches Some(x) ==> self.spec_result() == Some(
                match x {
                    Ok(c) => Ok::<Seq<char>, Seq<char>>(c@),
                    Err(e) => Err::<Seq<char>, Seq<char>>(e@),
                },
            ),
            r is None <==> self.spec_result() is None,
    {
        match self {
            Callback::Code { code } => Some(Ok(code.clone())),
            Callback::Declined { error } => {
                let mut e = String::from_str("sign-in was declined in the browser (");
                e.append(error.as_str());
                e.append(")");
                Some(Err(e))
            },
            Callback::NoCode => Some(Err(String::from_str("login redirect carried no authorization code"))),
            _ => None,
        }
    }

    /// Whether the sign-in is over (with a code or a refusal).
    pub fn is_final(&self) -> (b: bool)
        ensures
            b == (self.kind() >= 2),
    {
        match self {
            Callback::NotFound | Callback::Ignored => false,
            _ => true,
        }
    }
}

/// Decide what a parsed callback request means.
pub fn callback_outcome(path: &str, pairs: &Vec<(String, String)>, expected_state: &str) -> (r: Callback)
    ensures
        r.kind() == spec_callback(path@, pairs_view(pairs@), expected_state@),
        r matches Callback::Declined { error } ==> last_value(pairs_view(pairs@), "error"@) == Some(error@),
        r matches Callback::Code { code } ==> last_value(pairs_view(pairs@), "code"@) == Some(code@),
{
    let pc = chars_of(path);
    if !chars_equal(pc.as_slice(), "/callback") {
        return Callback::NotFound;
    }
    let state = find_last(pairs, "state");
    let state_ok = match &state {
        Some(s) => {
            let sc = chars_of(s.as_str());
            chars_equal(sc.as_slice(), expected_state)
        },
        None => false,
    };
    if !state_ok {
        return Callback::Ignored;
    }
    if let Some(err) = find_last(pairs, "error") {
        return Callback::Declined { error: err };
    }
    match find_last(pairs, "code") {
        Some(code) => {
            if code.unicode_len() > 0 {
                Callback::Code { code }
            } else {
                Callback::NoCode
            }
        },
        None => Callback::NoCode,
    }
}

/// What one loopback request target means: a target the URL parser rejects is
/// ignored; otherwise its path and query decide, as `callback_outcome` says.
pub fn callback_for(target: &str, expected_state: &str) -> (r: Callback)
    ensures
        match url_parts(loopback_url(target@)) {
            Some((path, pairs)) => {
                &&& r.kind() == spec_callback(path, pairs, expected_state@)
                &&& r matches Callback::Declined { error } ==> last_value(pairs, "error"@) == Some(error@)
                &&& r matches Callback::Code { code } ==> last_value(pairs, "code"@) == Some(code@)
            },
            None => r is Ignored,
        },
{
    let mut url = String::from_str("http://127.0.0.1");
    url.append(target);
    match parse_url(url.as_str()) {
        Some((path, pairs)) => callback_outcome(path.as_str(), &pairs, expected_state),
        None => Callback::Ignored,
    }
}

/// The reason phrase written for a status.
pub open spec fn spec_reason(status: u16) -> Seq<char> {
    if status == 200 {
        "OK"@
    } else if status == 400 {
        "Bad Request"@
    } else {
        "Not Found"@
    }
}

/// A minimal HTTP response with an HTML body of `byte_len` UTF-8 bytes.
pub open spec fn spec_response(status: u16, body: Seq<char>, byte_len: nat) -> Seq<char> {
    "HTTP/1.1 "@ + dec_nat(status as nat) + " "@ + spec_reason(status) + "\r\nContent-Type: text/html; charset=utf-8\r\nContent-Length: "@
        + dec_nat(byte_len) + "\r\nConnection: close\r\n\r\n"@ + body
}

pub fn response_text(status: u16, body: &str) -> (r: String)
    ensures
        r@ == spec_response(status, body@, body.len() as nat),
{
    let mut out = String::from_str("HTTP/1.1 ");
    push_u64(&mut out, status as u64);
    out.append(" ");
    if status == 200 {
        out.append("OK");
    } else if status == 400 {
        out.append("Bad Request");
    } else {
        out.append("Not Found");
    }
    out.append("\r\nContent-Type: text/html; charset=utf-8\r\nContent-Length: ");
    let len = body.len();
    push_u64(&mut out, len as u64);
    out.append("\r\nConnection: close\r\n\r\n");
    out.append(body);
    assert(out@ =~= spec_response(status, body@, body.len() as nat));
    out
}

/// The page a successful sign-in answers the browser with.
pub const PAGE_OK: &'static str = "<!doctype html><html><head><meta charset=\"utf-8\"><title>Signed in</title><style>body{font-family:system-ui,sans-serif;max-width:32rem;margin:6rem auto;padding:0 1.5rem;text-align:center;color:#1a1a1a}h1{font-size:1.4rem}p{color:#555}</style></head><body><h1>You're signed in \u{2705}</h1><p>You can close this tab and return to the terminal.</p></body></html>";

/// The page a failed or ignored request is answered with.
pub const PAGE_ERROR: &'static str = "<!doctype html><html><head><meta charset=\"utf-8\"><title>Sign-in error</title><style>body{font-family:system-ui,sans-serif;max-width:32rem;margin:6rem auto;padding:0 1.5rem;text-align:center;color:#1a1a1a}h1{font-size:1.4rem}p{color:#555}</style></head><body><h1>Sign-in failed</h1><p>Something went wrong. Return to the terminal and try again.</p></body></html>";

/// The page a sign-in declined in the browser is answered with.
pub const PAGE_DENIED: &'static str = "<!doctype html><html><head><meta charset=\"utf-8\"><title>Sign-in cancelled</title><style>body{font-family:system-ui,sans-serif;max-width:32rem;margin:6rem auto;padding:0 1.5rem;text-align:center;color:#1a1a1a}h1{font-size:1.4rem}p{color:#555}</style></head><body><h1>Sign-in cancelled</h1><p>You can close this tab and return to the terminal.</p></body></html>";

} // verus!
