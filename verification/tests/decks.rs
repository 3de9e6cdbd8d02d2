use tcglense::commands::decks::{diff_qty, identity, join_ids};

#[test]
fn identity_renders_the_three_way_colour_identity() {
    assert_eq!(identity(&None), "—");
    assert_eq!(identity(&Some(vec![])), "C");
    assert_eq!(
        identity(&Some(vec!["W".to_string(), "B".to_string()])),
        "WB"
    );
}

#[test]
fn diff_quantities_spell_out_the_foil_half_only_for_a_finish_change() {
    assert_eq!(diff_qty(4, 1, false), "4");
    assert_eq!(diff_qty(4, 1, true), "4 (1 foil)");
}

#[test]
fn join_ids_lists_with_commas_or_falls_back() {
    assert_eq!(join_ids(&[3, 10, -2], "none"), "3, 10, -2");
    assert_eq!(join_ids(&[], "none"), "none");
}
