use tcglense::commands::holdings::{CopyFilter, HoldingsFinish, ListFilter};

fn copies(min: Option<i64>, max: Option<i64>, finish: Option<HoldingsFinish>) -> CopyFilter {
    CopyFilter {
        min_copies: min,
        max_copies: max,
        finish,
    }
}

#[test]
fn copy_filter_pushes_only_what_was_given() {
    let mut q: Vec<(&str, String)> = Vec::new();
    copies(None, None, None).push(&mut q);
    assert!(q.is_empty());

    let mut q: Vec<(&str, String)> = Vec::new();
    copies(Some(4), Some(9), Some(HoldingsFinish::Foil)).push(&mut q);
    assert_eq!(
        q,
        vec![
            ("min_copies", "4".to_string()),
            ("max_copies", "9".to_string()),
            ("finish", "foil".to_string()),
        ]
    );
}

#[test]
fn list_filter_carries_the_search_and_the_copy_bounds() {
    let f = ListFilter {
        query: Some("is:foil".into()),
        set: Some("blb".into()),
        related: true,
        sort: Some("price".into()),
        dir: None,
        copies: copies(Some(1), None, Some(HoldingsFinish::Regular)),
    };
    let mut q: Vec<(&str, String)> = Vec::new();
    f.push(&mut q);
    assert_eq!(
        q,
        vec![
            ("q", "is:foil".to_string()),
            ("set", "blb".to_string()),
            ("sort", "price".to_string()),
            ("include_related", "true".to_string()),
            ("min_copies", "1".to_string()),
            ("finish", "regular".to_string()),
        ]
    );
}

#[test]
fn finish_names_are_the_wire_names() {
    assert_eq!(HoldingsFinish::Any.as_str(), "any");
    assert_eq!(HoldingsFinish::Regular.as_str(), "regular");
    assert_eq!(HoldingsFinish::Foil.as_str(), "foil");
}
