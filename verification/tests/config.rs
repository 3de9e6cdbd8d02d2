use tcglense::config::{client_base_url, config_source, ConfigSource};
use tcglense::config::{
    choose_base_url, choose_credential, trim_trailing_slashes, Auth, Config, DEFAULT_BASE_URL,
};
use tcglense::models::User;

#[test]
fn session_auth_presents_its_access_token() {
    let auth = Auth::Session {
        access_token: "at".into(),
        refresh_token: "rt".into(),
        user: None,
    };
    assert_eq!(auth.bearer(), "at");
    assert_eq!(auth.describe(), "session");
}

#[test]
fn api_key_auth_presents_the_key_and_describes_its_scope() {
    let auth = Auth::ApiKey {
        key: "tcgl_abc123".into(),
        scope: Some("read_write".into()),
    };
    assert_eq!(auth.bearer(), "tcgl_abc123");
    assert_eq!(auth.describe(), "API key tcgl_abc123… (read_write)");
    let bare = Auth::ApiKey { key: "tcgl_0123456789abcdef".into(), scope: None };
    assert_eq!(bare.describe(), "API key tcgl_01234567…");
}

#[test]
fn session_describes_the_signed_in_user() {
    let user = User {
        id: 1,
        email: "a@b.c".into(),
        created_at: "2024".into(),
        username: None,
        discriminator: None,
        handle: None,
        currency: "usd".into(),
    };
    let auth = Auth::Session { access_token: "at".into(), refresh_token: "rt".into(), user: Some(user) };
    assert_eq!(auth.describe(), "session as a@b.c");
}

#[test]
fn an_empty_config_has_nothing_stored() {
    let cfg = Config::empty();
    assert!(cfg.base_url.is_none());
    assert!(cfg.auth.is_none());
}

#[test]
fn base_url_precedence_is_flag_then_stored_then_default() {
    assert_eq!(choose_base_url(&Some("https://a".into()), &Some("https://b".into())), "https://a");
    assert_eq!(choose_base_url(&None, &Some("https://b".into())), "https://b");
    assert_eq!(choose_base_url(&None, &None), DEFAULT_BASE_URL);
    assert_eq!(DEFAULT_BASE_URL, "https://tcglense.com");
    assert_eq!(trim_trailing_slashes("https://x.io//"), "https://x.io");
    assert_eq!(trim_trailing_slashes("https://x.io"), "https://x.io");
}

#[test]
fn command_line_credentials_are_never_persisted() {
    let stored = Some(Auth::ApiKey { key: "stored".into(), scope: None });
    let c = choose_credential(&Some("flag".into()), &Some("tok".into()), stored.clone());
    assert!(!c.persist);
    assert_eq!(c.auth.unwrap().bearer(), "flag");
    let c = choose_credential(&None, &Some("tok".into()), stored.clone());
    assert!(!c.persist);
    assert_eq!(c.auth.unwrap().bearer(), "tok");
    let c = choose_credential(&None, &None, stored);
    assert!(c.persist);
    assert_eq!(c.auth.unwrap().bearer(), "stored");
}

#[test]
fn the_config_file_comes_from_the_flag_then_the_env_then_the_directory() {
    assert!(matches!(config_source(Some("a.json".into()), Some("b.json".into()), true), ConfigSource::Explicit(p) if p == "a.json"));
    assert!(matches!(config_source(None, Some("b.json".into()), false), ConfigSource::Env(p) if p == "b.json"));
    assert!(matches!(config_source(None, Some(String::new()), true), ConfigSource::UnderConfigDir));
    assert!(matches!(config_source(None, None, false), ConfigSource::Unavailable));
}

#[test]
fn the_client_url_defaults_to_production_without_trailing_slashes() {
    assert_eq!(client_base_url(&None, &None), "https://tcglense.com");
    assert_eq!(client_base_url(&Some("https://x.io//".into()), &Some("http://y".into())), "https://x.io");
    assert_eq!(client_base_url(&None, &Some("http://y/".into())), "http://y");
}
