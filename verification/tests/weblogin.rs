use tcglense::weblogin::{
    authorize_url, callback_for, callback_outcome, client_label, new_secrets, random_hex,
    redirect_uri, response_text, scan_request, sha256_hex, split_words, Callback, RequestScan,
};

#[test]
fn the_challenge_is_the_hex_sha256_of_the_verifier() {
    assert_eq!(
        sha256_hex("abc"),
        "ba7816bf8f01cfea414140de5dae2223b00361a396177a9cb410ff61f20015ad"
    );
    let s = new_secrets();
    assert_eq!(s.verifier.len(), 64);
    assert_eq!(s.state.len(), 64);
    assert_eq!(s.challenge, sha256_hex(&s.verifier));
    let a = random_hex();
    assert_eq!(a.len(), 64);
    assert!(a.chars().all(|c| c.is_ascii_hexdigit() && !c.is_ascii_uppercase()));
}

#[test]
fn the_sign_in_url_carries_the_loopback_state_and_challenge() {
    assert_eq!(redirect_uri(4321), "http://127.0.0.1:4321/callback");
    let u = authorize_url("https://tcg.example/", 4321, "st", "ch", "tcglense CLI on box").unwrap();
    assert_eq!(
        u,
        "https://tcg.example/cli-login?redirect_uri=http%3A%2F%2F127.0.0.1%3A4321%2Fcallback&state=st&code_challenge=ch&name=tcglense+CLI+on+box"
    );
    assert!(authorize_url("not a url", 1, "s", "c", "n").is_none());
}

#[test]
fn the_device_label_falls_back_to_this_computer() {
    assert_eq!(client_label(Some(" box ".into()), None), "tcglense CLI on box");
    assert_eq!(client_label(None, Some("PC".into())), "tcglense CLI on PC");
    assert_eq!(client_label(Some("  ".into()), Some("PC".into())), "tcglense CLI on this computer");
    assert_eq!(client_label(None, None), "tcglense CLI on this computer");
}

#[test]
fn the_request_line_yields_the_target() {
    match scan_request(b"GET /callback?code=1 HTTP/1.1\r\nHost: x\r\n") {
        RequestScan::Line(Some(t)) => assert_eq!(t, "/callback?code=1"),
        _ => panic!("expected a target"),
    }
    assert!(matches!(scan_request(b"GET /x HTTP"), RequestScan::NeedMore));
    assert!(matches!(scan_request(b"GET\r\n"), RequestScan::Line(None)));
    let big = vec![b'a'; 9000];
    assert!(matches!(scan_request(&big), RequestScan::TooLong));
    match scan_request(b"GET /caf\xff HTTP/1.1\r\n") {
        RequestScan::Line(Some(t)) => assert_eq!(t, "/caf\u{fffd}"),
        _ => panic!("expected a target"),
    }
    let ws = split_words(&"  a  bc ".chars().collect::<Vec<_>>());
    assert_eq!(ws, vec![vec!['a'], vec!['b', 'c']]);
}

#[test]
fn callbacks_check_state_before_anything_else() {
    match callback_for("/callback?state=s1&code=abc", "s1") {
        Callback::Code { code } => assert_eq!(code, "abc"),
        _ => panic!("expected a code"),
    }
    let c = callback_for("/callback?error=denied&state=s1", "s1");
    assert!(matches!(&c, Callback::Declined { error } if error == "denied"));
    assert_eq!(c.status(), 400);
    assert!(c.is_final());
    let c = callback_for("/callback?error=denied&state=other", "s1");
    assert!(matches!(c, Callback::Ignored));
    assert!(!c.is_final());
    let c = callback_for("/favicon.ico", "s1");
    assert!(matches!(c, Callback::NotFound));
    assert_eq!(c.status(), 404);
    assert!(matches!(callback_for("/callback?state=s1&code=", "s1"), Callback::NoCode));
    match callback_for("/callback?code=a%20b&state=s%261", "s&1") {
        Callback::Code { code } => assert_eq!(code, "a b"),
        _ => panic!("expected a decoded code"),
    }
    assert!(matches!(callback_for(":99999", "s1"), Callback::Ignored));
    let pairs = vec![("state".to_string(), "s1".to_string()), ("code".to_string(), "x".to_string())];
    assert!(matches!(callback_outcome("/callback", &pairs, "s1"), Callback::Code { .. }));
}

#[test]
fn responses_state_their_byte_length() {
    assert_eq!(
        response_text(200, "hé"),
        "HTTP/1.1 200 OK\r\nContent-Type: text/html; charset=utf-8\r\nContent-Length: 3\r\nConnection: close\r\n\r\nhé"
    );
    assert!(response_text(404, "").starts_with("HTTP/1.1 404 Not Found\r\n"));
}
