use tcglense::update::{
    accepts_update, check_due, is_newer, refreshed_cache, should_notify, tag_version, CheckCache,
    CHECK_INTERVAL_SECS,
};

#[test]
fn newer_versions_are_compared_semantically() {
    assert!(is_newer("1.2.3", "1.3.0"));
    assert!(!is_newer("1.3.0", "1.2.9"));
    assert!(!is_newer("1.2.3", "1.2.3"));
    assert!(is_newer("abc", "def"));
    assert!(!is_newer("abc", "abc"));
}

#[test]
fn notices_need_a_strictly_newer_release() {
    assert!(should_notify("0.1.0", &Some("0.2.0".into())));
    assert!(!should_notify("0.2.0", &Some("0.2.0".into())));
    assert!(!should_notify("0.2.0", &Some("garbage".into())));
    assert!(!should_notify("0.2.0", &None));
}

#[test]
fn the_cache_is_refreshed_once_a_day() {
    assert!(check_due(CHECK_INTERVAL_SECS, 0));
    assert!(!check_due(CHECK_INTERVAL_SECS - 1, 0));
    assert!(!check_due(5, 10));
    let old = CheckCache { last_check: 1, latest_version: Some("0.1.0".into()) };
    let kept = refreshed_cache(99, &old, None);
    assert_eq!(kept.last_check, 99);
    assert_eq!(kept.latest_version.as_deref(), Some("0.1.0"));
    let fresh = refreshed_cache(100, &old, Some("0.2.0".into()));
    assert_eq!(fresh.latest_version.as_deref(), Some("0.2.0"));
}

#[test]
fn tags_lose_their_leading_v_and_prompts_default_to_yes() {
    assert_eq!(tag_version("v1.2.3"), "1.2.3");
    assert_eq!(tag_version("1.2.3"), "1.2.3");
    assert!(accepts_update(""));
    assert!(accepts_update(" Y \n"));
    assert!(accepts_update("yes"));
    assert!(accepts_update("YeS"));
    assert!(!accepts_update("no"));
    assert!(!accepts_update("yess"));
}
