use tcglense::output::{dash, price, truncate};

#[test]
fn truncate_leaves_short_strings() {
    assert_eq!(truncate("abc", 10), "abc");
}

#[test]
fn truncate_clips_with_ellipsis() {
    let out = truncate("abcdefghij", 5);
    assert_eq!(out.chars().count(), 5);
    assert!(out.ends_with('…'));
}

#[test]
fn truncate_is_char_boundary_safe() {
    let out = truncate("héllo wörld ☃☃☃", 6);
    assert!(out.chars().count() <= 6);
}

#[test]
fn price_and_dash_format_optionals() {
    assert_eq!(price(&Some("1.50".into())), "$1.50");
    assert_eq!(price(&None), "—");
    assert_eq!(dash(&None), "—");
}

#[test]
fn truncate_keeps_the_prefix_exactly() {
    assert_eq!(truncate("abcdefghij", 5), "abcd…");
    assert_eq!(truncate("abcde", 5), "abcde");
    assert_eq!(dash(&Some("x".into())), "x");
}

use tcglense::models::{Card, CardFace, CardPrices, CollectionEntry};
use tcglense::output::{card_detail, cards_row, collection_row, indent};
use tcglense::text::{left_aligned, lines, right_aligned};

fn sample_card() -> Card {
    Card {
        id: "0123456789abcdef".into(),
        name: "Llanowar Elves".into(),
        set_code: "dom".into(),
        set_name: "Dominaria".into(),
        collector_number: "168".into(),
        rarity: None,
        lang: "en".into(),
        released_at: None,
        mana_cost: Some("{G}".into()),
        cmc: None,
        type_line: Some("Creature — Elf Druid".into()),
        oracle_text: Some("{T}: Add {G}.".into()),
        power: Some("1".into()),
        toughness: Some("1".into()),
        loyalty: None,
        color_identity: vec!["G".into()],
        colors: vec!["G".into()],
        layout: None,
        prices: CardPrices { usd: Some("0.25".into()), usd_foil: Some("1.00".into()), usd_etched: None, eur: None, tix: Some("0.02".into()) },
        legalities: None,
        has_image: true,
        drop_name: Some("Elf Drop".into()),
        drop_slug: None,
        drop_noun: None,
        secret_lair_bonus: false,
        secret_lair_spend_incentive: false,
        faces: vec![CardFace {
            name: Some("Front".into()),
            mana_cost: None,
            type_line: None,
            oracle_text: Some("a\r\nb\n".into()),
            power: None,
            toughness: None,
            loyalty: None,
        }],
    }
}

#[test]
fn lines_follow_str_lines() {
    assert_eq!(lines("a\r\nb\n"), vec!["a", "b"]);
    assert_eq!(lines(""), Vec::<String>::new());
    assert_eq!(lines("x\n\ny"), vec!["x", "", "y"]);
    assert_eq!(lines("tail\r"), vec!["tail\r"]);
    assert_eq!(indent("one\ntwo"), "    one\n    two");
    assert_eq!(left_aligned("ab", 4), "ab  ");
    assert_eq!(right_aligned("ab", 4), "  ab");
    assert_eq!(left_aligned("abcdef", 4), "abcdef");
}

#[test]
fn card_tables_show_the_listing_cells() {
    let c = sample_card();
    assert_eq!(
        cards_row(&c),
        vec!["0123456789a…", "Llanowar Elves", "DOM", "168", "—", "$0.25", "$1.00"]
    );
    let e = CollectionEntry { card: c, quantity: 4, foil_quantity: 1 };
    assert_eq!(
        collection_row(&e),
        vec!["0123456789a…", "Llanowar Elves", "DOM", "168", "4", "1", "$0.25"]
    );
}

#[test]
fn the_card_detail_block_reads_top_to_bottom() {
    let c = sample_card();
    assert_eq!(
        card_detail(&c),
        vec![
            "Llanowar Elves  [0123456789abcdef]",
            "  Dominaria · DOM #168 · —",
            "  Mana: {G}   CMC: 0",
            "  Type: Creature — Elf Druid",
            "  P/T: 1/1",
            "  ---\n    {T}: Add {G}.",
            "  --- face 1 ---",
            "  Front",
            "    a\n    b",
            "  Prices: USD $0.25 · Foil $1.00 · EUR — · TIX 0.02",
            "  Secret Lair drop: Elf Drop",
        ]
    );
}
