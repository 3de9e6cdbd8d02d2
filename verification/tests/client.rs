use tcglense::client::{send_step, SendStep};
use tcglense::config::Auth;
use tcglense::client::{
    decode_error, error_text, error_text_from, extract_refresh_cookie, refresh_cookie_header,
    transport_error, url,
};

#[test]
fn urls_join_base_and_path() {
    assert_eq!(url("https://api.example", "/api/games"), "https://api.example/api/games");
    assert_eq!(refresh_cookie_header("rt1"), "tcglense_refresh=rt1");
}

#[test]
fn the_refresh_cookie_is_found_among_the_set_cookie_values() {
    let headers = vec![
        "other=1; Path=/".to_string(),
        "tcglense_refresh=; Path=/".to_string(),
        "HttpOnly; tcglense_refresh=xyz; Secure".to_string(),
    ];
    assert_eq!(extract_refresh_cookie(&headers), Some("xyz".to_string()));
    assert_eq!(extract_refresh_cookie(&vec!["a=b".to_string()]), None);
    assert_eq!(extract_refresh_cookie(&vec![]), None);
}

#[test]
fn api_errors_prefer_the_error_field() {
    assert_eq!(
        error_text(404, None, "{\"error\":\"card not found\"}"),
        "card not found (404)"
    );
    assert_eq!(error_text(500, None, "boom"), "boom (500)");
}

#[test]
fn empty_bodies_fall_back_to_the_reason_phrase() {
    assert_eq!(
        error_text(401, None, "  "),
        "Unauthorized (401) (not authenticated — run `tcglense login` or `tcglense auth key <tcgl_…>`)"
    );
    assert_eq!(
        error_text(429, Some("30".to_string()), ""),
        "rate limited (429): Too Many Requests; retry after 30s"
    );
    assert_eq!(error_text(429, None, ""), "Too Many Requests (429) (rate limited)");
    assert_eq!(
        error_text_from(499, None, None, "", None),
        "request failed (499)"
    );
}

#[test]
fn forbidden_explains_the_scope() {
    assert_eq!(
        error_text_from(403, Some("Forbidden".into()), None, "", Some("nope".into())),
        "nope (403) (forbidden — the credential lacks the required scope; writes need a read_write key, and key management needs a session login)"
    );
}

#[test]
fn long_bodies_are_cut_to_three_hundred_characters() {
    let body = "x".repeat(400);
    let out = error_text_from(500, None, None, &body, None);
    assert_eq!(out, format!("{} (500)", "x".repeat(300)));
}

#[test]
fn transport_and_decode_errors_read_plainly() {
    assert_eq!(
        transport_error("http://h", "refused", true),
        "could not reach the API at http://h: refused\nIs the server running? Set the URL with `tcglense --url <URL> …` or `tcglense config url <URL>`."
    );
    assert_eq!(transport_error("http://h", "bad", false), "request to http://h failed: bad");
    let body = "y".repeat(250);
    assert_eq!(
        decode_error("eof", &body),
        format!("could not decode API response: eof; body was: {}", "y".repeat(200))
    );
}

#[test]
fn a_request_is_replayed_at_most_once() {
    let session = Some(Auth::Session { access_token: "a".into(), refresh_token: "r".into(), user: None });
    assert_eq!(send_step(401, &session, false), SendStep::RefreshAndReplay);
    assert_eq!(send_step(401, &session, true), SendStep::Done);
    assert_eq!(send_step(200, &session, false), SendStep::Done);
    let key = Some(Auth::ApiKey { key: "tcgl_x".into(), scope: None });
    assert_eq!(send_step(401, &key, false), SendStep::Done);
    assert_eq!(send_step(401, &None, false), SendStep::Done);
}
