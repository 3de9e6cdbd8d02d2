use tcglense::commands::precons::colours;

#[test]
fn colours_render_the_three_way_identity() {
    assert_eq!(colours(&None), "—");
    assert_eq!(colours(&Some(vec![])), "C");
    assert_eq!(colours(&Some(vec!["W".to_string(), "U".to_string()])), "WU");
}
