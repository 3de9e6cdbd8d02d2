use tcglense::client::{refreshed_session, should_refresh};
use tcglense::commands::catalog::{
    cards_preview, image_request, prices_report, prints_report, search, wrote_bytes, ImageOf,
};
use tcglense::models::{SearchGroup, SearchResults};
use tcglense::tui::app::Screen;
use tcglense::tui::view::{body, Body};
use tcglense::weblogin::{callback_outcome, Callback, PAGE_DENIED, PAGE_ERROR, PAGE_OK};
use tcglense::commands::auth::{availability, created_key, print_user, register_lines, status_lines};
use tcglense::commands::catalog::{
    set_drops_report, set_listing, set_report, set_request, set_subtypes_report, SetListing,
};
use tcglense::commands::collection::{
    check_visibility_change, enqueued_note, job_path, print_summary, report_job, source_lines,
    value_history, visibility_saved, CollectionSource,
};
use tcglense::commands::deck_reports::{
    checkpoints, library_line, odds_heading, print_deck_detail, print_distribution, OddsHead,
};
use tcglense::commands::holdings::{
    add, batch_counts, breakdown, bulk_query, export_cards, group_query, list, list_query,
    product_set_note, products_summary, quantities_line, set_drops, summary_query, CopyFilter,
    HoldingsFinish, ListFilter, Surface,
};
use tcglense::commands::misc::{config_lines, probe_line, server_config, set_url, update_report};
use tcglense::commands::precons::{extra_boards, print_facets, print_precon_detail};
use tcglense::commands::public::{copied, deck as public_deck, decks as public_decks, profile};
use tcglense::commands::tools::{deleted_note, life_base, seat_table, session_route, started_note};
use tcglense::commands::wishlist::{buy_list, visibility as wishlist_visibility};
use tcglense::config::{Auth, Config};
use tcglense::models::{
    BreakdownBucket, Card, CardPrices, CollectionBreakdown, CollectionDropGroup, CollectionEntry,
    CollectionQuantities, CollectionSummary, CollectionValuePoint, CollectionVisibility, CreatedApiKey,
    DeckCardEntry, DeckDetail, DeckSection, DeckStatItem, DropGroup, ImportJob, ImportSummary, LifePlayer,
    Page, PreconCardEntry, PreconDeck, PreconDeckDetail, PreconFacets, PreconSetRef, PreconTypeRef,
    ProductHoldingSummary, PublicConfig, PublicGameSummary, PublicProfile, RegisterResponse, SubtypeGroup,
    TopHolding, User, UsernameAvailability, WishlistVisibility,
};
use tcglense::output::{collection_table, games_table, Block};
use tcglense::text::{insert_sorted, str_less};
use tcglense::update::{notice, plan_update, Outcome, UpdatePlan};

fn render(blocks: &[Block]) -> Vec<String> {
    blocks.iter().map(render_one).collect()
}

fn render_one(b: &Block) -> String {
    match b {
        Block::Line(s) => s.clone(),
        Block::Note(s) => format!("note: {s}"),
        Block::Table { header, rows } => {
            let mut t = format!("table: {}", header.join("|"));
            for r in rows {
                t.push_str(&format!(" / {}", r.join("|")));
            }
            t
        }
    }
}

fn card(name: &str, set: &str, number: &str) -> Card {
    Card {
        id: format!("id-{name}"),
        name: name.into(),
        set_code: set.into(),
        set_name: "Set".into(),
        collector_number: number.into(),
        rarity: Some("rare".into()),
        lang: "en".into(),
        released_at: None,
        mana_cost: None,
        cmc: None,
        type_line: None,
        oracle_text: None,
        power: None,
        toughness: None,
        loyalty: None,
        color_identity: vec![],
        colors: vec![],
        layout: None,
        prices: CardPrices {
            usd: Some("1.00".into()),
            usd_foil: Some("3.00".into()),
            usd_etched: None,
            eur: None,
            tix: None,
        },
        legalities: None,
        has_image: false,
        drop_name: None,
        drop_slug: None,
        drop_noun: None,
        secret_lair_bonus: false,
        secret_lair_spend_incentive: false,
        faces: vec![],
    }
}

fn summary(total: i64, value: Option<&str>) -> CollectionSummary {
    CollectionSummary {
        unique_cards: total,
        total_cards: total,
        total_value_usd: value.map(String::from),
        bulk_value_usd: None,
    }
}

fn user() -> User {
    User {
        id: 7,
        email: "ann@example.com".into(),
        created_at: "2024-01-02".into(),
        username: None,
        discriminator: None,
        handle: None,
        currency: "AUD".into(),
    }
}

// -- holdings ----------------------------------------------------------------

#[test]
fn surfaces_route_by_owner_and_kind() {
    let c = Surface::collection("mtg");
    assert_eq!(c.base, "/api/collection/mtg");
    assert_eq!((c.batch_route, c.product_batch_route, c.noun), ("owned", "owned", "Owned"));
    let w = Surface::wishlist("mtg");
    assert_eq!(w.base, "/api/wishlist/mtg");
    assert_eq!((w.batch_route, w.noun), ("counts", "Wanted"));
    assert_eq!(Surface::public_collection("ann", "mtg").base, "/api/u/ann/mtg");
    let pw = Surface::public_wishlist("ann", "mtg");
    assert_eq!(pw.base, "/api/u/ann/wishlist/mtg");
    assert_eq!((pw.batch_route, pw.noun), ("owned", "Wanted"));
    assert_eq!(c.card_path("abc"), "/api/collection/mtg/cards/abc");
    assert_eq!(c.product_path("9"), "/api/collection/mtg/products/9");
    assert_eq!(c.group_path("blb", "drops"), "/api/collection/mtg/sets/blb/drops");
    assert_eq!(c.path("summary"), "/api/collection/mtg/summary");
}

#[test]
fn holdings_queries_keep_their_order() {
    let f = ListFilter {
        query: Some("t:elf".into()),
        set: None,
        related: false,
        sort: None,
        dir: Some("asc".into()),
        copies: CopyFilter { min_copies: None, max_copies: Some(3), finish: Some(HoldingsFinish::Any) },
    };
    assert_eq!(
        list_query(&f, Some(2), None),
        vec![
            ("q", "t:elf".to_string()),
            ("dir", "asc".to_string()),
            ("max_copies", "3".to_string()),
            ("finish", "any".to_string()),
            ("page", "2".to_string()),
        ]
    );
    assert_eq!(
        summary_query(&Some("blb".into()), true, Some(100)),
        vec![
            ("set", "blb".to_string()),
            ("include_related", "true".to_string()),
            ("bulk_max_cents", "100".to_string()),
        ]
    );
    assert!(bulk_query(None).is_empty());
    assert_eq!(
        group_query(&None, &CopyFilter { min_copies: Some(1), max_copies: None, finish: None }, None, Some(50)),
        vec![("min_copies", "1".to_string()), ("page_size", "50".to_string())]
    );
    let (path, q) = export_cards(&Surface::wishlist("mtg"), &f);
    assert_eq!(path, "/api/wishlist/mtg/cards/export");
    assert_eq!(q.len(), 4);
    let (path, _) = buy_list(&Surface::wishlist("mtg"), &f);
    assert_eq!(path, "/api/wishlist/mtg/buy-list");
}

#[test]
fn setting_counts_reports_the_new_counts_or_the_removal() {
    let q = CollectionQuantities { quantity: 3, foil_quantity: 1 };
    assert_eq!(tcglense::commands::holdings::set(&q), "Set to 3 regular / 1 foil.");
    assert_eq!(product_set_note(&q), "Set to 3 / 1 foil.");
    let none = CollectionQuantities { quantity: 0, foil_quantity: 0 };
    assert_eq!(tcglense::commands::holdings::set(&none), "Removed.");
    assert_eq!(product_set_note(&none), "Removed.");
    assert_eq!(quantities_line(&q), "regular: 3   foil: 1");
    let next = add(&q, 2, -1);
    assert_eq!((next.quantity, next.foil_quantity), (5, 0));
}

#[test]
fn batch_counts_list_the_held_ids_or_say_none() {
    assert_eq!(render_one(&batch_counts(&vec![])), "(none held)");
    let rows = vec![
        ("a".to_string(), CollectionQuantities { quantity: 1, foil_quantity: 0 }),
        ("b".to_string(), CollectionQuantities { quantity: 0, foil_quantity: 2 }),
    ];
    assert_eq!(render_one(&batch_counts(&rows)), "table: ID|Regular|Foil / a|1|0 / b|0|2");
}

#[test]
fn a_holdings_page_heads_its_count_column_with_the_noun() {
    let page = Page {
        data: vec![CollectionEntry { card: card("Elf", "dom", "1"), quantity: 4, foil_quantity: 1 }],
        page: 1,
        page_size: 50,
        total: 1,
        has_more: false,
    };
    assert_eq!(
        render(&list(&page, "Wanted")),
        vec![
            "table: ID|Name|Set|#|Wanted|Foil|USD / id-Elf|Elf|DOM|1|4|1|$1.00".to_string(),
            "note: page 1 \u{b7} 1 cards total".to_string(),
        ]
    );
}

#[test]
fn a_breakdown_skips_empty_facets_and_flags_unpriced_cards() {
    let b = CollectionBreakdown {
        summary: summary(2, Some("4.00")),
        rarity: vec![BreakdownBucket { key: "rare".into(), cards: 2, copies: 3, value_usd: Some("4.00".into()) }],
        color: vec![],
        card_type: vec![],
        finish: vec![],
        top: vec![TopHolding { card: card("Elf", "dom", "1"), quantity: 2, foil_quantity: 0, value_usd: "2.00".into() }],
        unpriced_cards: 1,
    };
    let out = render(&breakdown(&b));
    assert_eq!(out[0], "Unique cards : 2");
    assert_eq!(out[4], "\nBy rarity:");
    assert_eq!(out[5], "table: Key|Cards|Copies|Value / rare|2|3|$4.00");
    assert_eq!(out[6], "\nTop holdings (by held value):");
    assert_eq!(out[7], "table: Name|Set|#|Qty|Foil|Held value / Elf|DOM|1|2|0|$2.00");
    assert_eq!(out[8], "\n1 card(s) add nothing above \u{2014} no finish they're held in is priced.");
    assert_eq!(out.len(), 9);
}

#[test]
fn drop_groups_head_each_group() {
    let g = CollectionDropGroup {
        slug: None,
        title: "Drop A".into(),
        card_count: 2,
        cards: vec![],
    };
    assert_eq!(render(&set_drops(&vec![g], "Owned")), vec![
        "\n== Drop A (2 cards) ==".to_string(),
        "table: ID|Name|Set|#|Owned|Foil|USD".to_string(),
    ]);
    let s = ProductHoldingSummary { unique_products: 2, total_products: 5, total_value_usd: None };
    assert_eq!(products_summary(&s), vec![
        "Unique products : 2".to_string(),
        "Total products  : 5".to_string(),
        "Total value     : \u{2014}".to_string(),
    ]);
}

// -- collection ----------------------------------------------------------------

fn import_summary(removed: i64, sample: Vec<String>) -> ImportSummary {
    ImportSummary {
        provider: "moxfield".into(),
        mode: "merge".into(),
        total_rows: 10,
        distinct_cards: 8,
        matched_cards: 7,
        unmatched_cards: 1,
        unmatched_sample: sample,
        regular_copies: 9,
        foil_copies: 1,
        removed_cards: removed,
    }
}

#[test]
fn a_job_reports_its_summary_error_or_status() {
    let mut job = ImportJob { job_id: 4, status: "complete".into(), progress: None, summary: None, error: None };
    assert_eq!(report_job(&job), vec!["Job 4 complete.".to_string()]);
    job.summary = Some(import_summary(2, vec!["a".into(), "b".into()]));
    let lines = report_job(&job);
    assert_eq!(lines[0], "Import (moxfield / merge):");
    assert_eq!(lines[7], "  removed        : 2");
    assert_eq!(lines[8], "  unmatched e.g. : a, b");
    job.status = "error".into();
    assert_eq!(report_job(&job), vec!["Job 4 failed: unknown error".to_string()]);
    job.status = "running".into();
    assert_eq!(report_job(&job), vec!["Job 4 status: running".to_string()]);
    assert_eq!(print_summary(&import_summary(0, vec![])).len(), 7);
    assert_eq!(enqueued_note("sync", &job), "Enqueued sync job 4 (running).");
    assert_eq!(job_path(&Surface::collection("mtg"), 4), "/api/collection/mtg/import/jobs/4");
}

#[test]
fn collection_settings_read_field_by_field() {
    let src = CollectionSource {
        provider: "moxfield".into(),
        external_id: "x1".into(),
        url: "https://m/x1".into(),
        smart: true,
        last_synced_at: None,
    };
    assert_eq!(source_lines(&src)[3], "smart       : true");
    assert_eq!(source_lines(&src)[4], "last synced : never");
    let v = CollectionVisibility { public: false, show_value_chart: true, show_movers: false, handle: None };
    assert_eq!(visibility_saved(&v), "public: false  \u{b7}  handle: (none)");
    assert!(check_visibility_change(None, None, None).is_err());
    assert_eq!(
        check_visibility_change(None, None, None).unwrap_err(),
        "provide at least one of --public / --value-chart / --movers"
    );
    assert!(check_visibility_change(None, Some(false), None).is_ok());
    let pts = vec![CollectionValuePoint { date: "2024-01-01".into(), value_usd: Some("5.00".into()), sealed_value_usd: None }];
    assert_eq!(render_one(&value_history(&pts)), "table: Date|Cards USD|Sealed USD / 2024-01-01|$5.00|\u{2014}");
    let w = WishlistVisibility { public: true, handle: None };
    assert_eq!(wishlist_visibility(&w), "public: true  \u{b7}  handle: (set a username first)");
}

// -- public --------------------------------------------------------------------

#[test]
fn public_pages_read_as_printed() {
    let p = PublicProfile {
        username: "ann".into(),
        discriminator: 1,
        handle: "ann#1".into(),
        member_since: "2024".into(),
        games: vec![PublicGameSummary { game: "mtg".into(), summary: summary(3, None) }],
        wishlists: vec![],
    };
    assert_eq!(render(&profile(&p)), vec![
        "ann#1 (member since 2024)".to_string(),
        "table: Game|Cards|Copies|Value / mtg|3|3|\u{2014}".to_string(),
    ]);
    assert_eq!(render_one(&public_decks(&vec![])), "No public decks.");
    let d = deck_detail(vec![], vec![]);
    assert_eq!(copied(&d), "Copied 'Elves' into your decks as deck 9 (0 cards, private).");
    assert_eq!(render(&public_deck(&d))[0], "Elves by ?");
}

// -- decks ---------------------------------------------------------------------

fn deck_detail(sections: Vec<DeckSection>, cards: Vec<DeckCardEntry>) -> DeckDetail {
    DeckDetail {
        id: 9,
        game: "mtg".into(),
        name: "Elves".into(),
        description: Some(String::new()),
        format: None,
        folder_id: None,
        is_public: false,
        handle: None,
        summary: summary(0, None),
        maybeboard_summary: Some(summary(2, Some("1.50"))),
        sections,
        cards,
        created_at: "c".into(),
        updated_at: "u".into(),
    }
}

fn entry(name: &str, section: i64, q: i64, f: i64) -> DeckCardEntry {
    DeckCardEntry { card: card(name, "dom", "1"), section_id: section, quantity: q, foil_quantity: f }
}

#[test]
fn a_deck_lists_each_section_with_copies_in_section_order() {
    let sections = vec![
        DeckSection { id: 2, name: "Main".into(), position: 0, is_maybeboard: false },
        DeckSection { id: 1, name: "Empty".into(), position: 1, is_maybeboard: false },
        DeckSection { id: 3, name: "Maybe".into(), position: 2, is_maybeboard: true },
    ];
    let cards = vec![entry("A", 2, 2, 1), entry("B", 3, 1, 0), entry("C", 2, 1, 0), entry("D", 1, 0, 0)];
    let out = render(&print_deck_detail(&deck_detail(sections, cards)));
    assert_eq!(out[0], "Elves  [id 9]");
    assert_eq!(out[1], "  format: \u{2014}  \u{b7}  cards: 0  \u{b7}  value: \u{2014}  \u{b7}  public: false");
    assert_eq!(out[2], "  maybeboard: 2 cards \u{b7} $1.50");
    assert_eq!(out[3], "\n== Main (4) ==");
    assert_eq!(out[4], "table: Qty|Foil|Name|Set|# / 2|1|A|DOM|1 / 1|0|C|DOM|1");
    assert_eq!(out[5], "\n== Maybe (1)  [maybeboard] ==");
    assert_eq!(out.len(), 7);
}

#[test]
fn stats_lines_without_fractions() {
    let items = vec![
        DeckStatItem { key: "1".into(), label: "1".into(), count: 4, color: None },
        DeckStatItem { key: "2".into(), label: "2".into(), count: 0, color: None },
        DeckStatItem { key: "3".into(), label: "3".into(), count: 9, color: None },
    ];
    assert_eq!(print_distribution("Curve", &items), Some("  Curve   : 1 4 \u{b7} 3 9".to_string()));
    assert_eq!(print_distribution("Types", &vec![]), None);
    assert_eq!(library_line(&vec![]), "\nLibrary sections: (none)");
    assert_eq!(odds_heading(&None), "\nNo draw odds \u{2014} the library pool is empty.");
    let one = OddsHead { name: "Sol Ring".into(), copies: 1, library_size: 99 };
    assert_eq!(odds_heading(&Some(one)), "\nDraw odds for Sol Ring \u{2014} 1 copy in 99 cards:");
    assert_eq!(checkpoints(12), vec![1, 7, 10]);
    assert_eq!(checkpoints(40), vec![1, 7, 10, 15, 20, 30]);
}

// -- precons -------------------------------------------------------------------

fn precon(board_cards: Vec<(&str, &str, i64, bool)>) -> PreconDeckDetail {
    PreconDeckDetail {
        deck: PreconDeck {
            slug: "elf-tmc".into(),
            game: "mtg".into(),
            name: "Elf Power".into(),
            set_code: "tmc".into(),
            set_name: None,
            deck_type: "Commander Deck".into(),
            released_at: None,
            card_count: 100,
            sideboard_count: 0,
            color_identity: Some(vec!["G".into()]),
            face_card: None,
            price_usd: None,
        },
        format: Some("commander".into()),
        summary: summary(100, Some("80.00")),
        sideboard_summary: summary(0, None),
        cards: board_cards
            .into_iter()
            .map(|(name, board, q, foil)| PreconCardEntry { card: card(name, "tmc", "7"), board: board.into(), quantity: q, foil })
            .collect(),
        product: None,
    }
}

#[test]
fn a_precon_shows_known_boards_then_the_rest_in_order() {
    let d = precon(vec![
        ("A", "main", 2, false),
        ("B", "zeta", 1, true),
        ("C", "commander", 1, false),
        ("D", "alpha", 3, false),
        ("E", "zeta", 1, false),
    ]);
    assert_eq!(extra_boards(&d.cards), vec!["alpha".to_string(), "zeta".to_string()]);
    let out = render(&print_precon_detail(&d));
    assert_eq!(out[0], "Elf Power  [elf-tmc]");
    assert_eq!(out[1], "  Commander Deck \u{b7} TMC \u{b7} \u{2014}");
    assert_eq!(out[2], "  format: commander  \u{b7}  colours: G  \u{b7}  released: \u{2014}");
    assert_eq!(out[3], "  cards: 100  \u{b7}  value: $80.00");
    assert_eq!(out[4], "\n== Command zone (1) ==");
    assert_eq!(out[6], "\n== Deck (2) ==");
    assert_eq!(out[8], "\n== alpha (3) ==");
    assert_eq!(out[10], "\n== zeta (2) ==");
    assert_eq!(out[11], "table: Qty|Foil|Name|Set|#|USD / 1|yes|B|TMC|7|$3.00 / 1||E|TMC|7|$1.00");
    assert_eq!(out.len(), 12);
}

#[test]
fn precon_facets_show_only_tables_with_rows() {
    let f = PreconFacets {
        types: vec![PreconTypeRef { type_: "Commander Deck".into(), count: 3 }],
        sets: vec![],
        total: 3,
    };
    assert_eq!(render(&print_facets(&f)), vec![
        "3 preconstructed deck(s).".to_string(),
        "table: Type|Decks / Commander Deck|3".to_string(),
    ]);
    let g = PreconFacets {
        types: vec![],
        sets: vec![PreconSetRef { code: "tmc".into(), name: None, released_at: None, count: 1 }],
        total: 1,
    };
    assert_eq!(render(&print_facets(&g))[1], "table: Set|Name|Released|Decks / TMC|\u{2014}|\u{2014}|1");
}

// -- text order ------------------------------------------------------------------

#[test]
fn text_order_is_by_code_point_with_prefixes_first() {
    assert!(str_less("abc", "abd"));
    assert!(str_less("ab", "abc"));
    assert!(!str_less("abc", "abc"));
    assert!(str_less("Zeta", "alpha"));
    assert!(!str_less("b", "a"));
    let mut list: Vec<String> = Vec::new();
    for x in ["m", "c", "x", "c", "a"] {
        insert_sorted(&mut list, &x.to_string());
    }
    assert_eq!(list, vec!["a", "c", "m", "x"]);
}

// -- catalog sets ------------------------------------------------------------------

#[test]
fn the_set_command_picks_its_view_and_query() {
    assert_eq!(set_listing(true, true, true), SetListing::Drops);
    assert_eq!(set_listing(false, true, true), SetListing::Subtypes);
    assert_eq!(set_listing(false, false, true), SetListing::Cards);
    assert_eq!(set_listing(false, false, false), SetListing::Info);
    let (p, q) = set_request("mtg", "sld", SetListing::Drops, &Some("elf".into()), None, None, &Some("d1".into()), true, &None, &None);
    assert_eq!(p, "/api/games/mtg/sets/sld/drops");
    assert_eq!(q, vec![("q", "elf".to_string()), ("drop", "d1".to_string())]);
    let (p, q) = set_request("mtg", "sld", SetListing::Cards, &None, Some(2), None, &None, true, &Some("name".into()), &None);
    assert_eq!(p, "/api/games/mtg/sets/sld/cards");
    assert_eq!(q, vec![("page", "2".to_string()), ("include_related", "true".to_string()), ("sort", "name".to_string())]);
    let (p, q) = set_request("mtg", "sld", SetListing::Info, &Some("elf".into()), Some(2), None, &None, true, &None, &None);
    assert_eq!(p, "/api/games/mtg/sets/sld");
    assert!(q.is_empty());
}

#[test]
fn set_pages_head_each_group_and_close_with_the_page() {
    let page = Page {
        data: vec![DropGroup {
            slug: None,
            title: "Elves".into(),
            card_count: 1,
            cheapest_prints_usd: None,
            released_at: Some("2024-01-01".into()),
            cards: vec![],
        }],
        page: 1,
        page_size: 10,
        total: 1,
        has_more: true,
    };
    assert_eq!(render(&set_drops_report(&page)), vec![
        "\n== Elves (1 cards, \u{2014}, 2024-01-01) ==".to_string(),
        "table: ID|Name|Set|#|Rarity|USD|Foil".to_string(),
        "note: page 1 \u{b7} 1 drops total \u{b7} more (--page)".to_string(),
    ]);
    let sp = Page { data: vec![SubtypeGroup { slug: None, title: "Cats".into(), card_count: 0, cards: vec![] }], page: 2, page_size: 10, total: 11, has_more: false };
    assert_eq!(render(&set_subtypes_report(&sp))[2], "note: page 2 \u{b7} 11 sub-types total");
    let s = tcglense::models::CardSet {
        code: "sld".into(),
        name: "Secret Lair".into(),
        set_type: None,
        released_at: None,
        card_count: 5,
        icon_svg_uri: None,
        parent_set_code: None,
        has_drops: true,
        drop_noun: None,
        has_subtypes: false,
    };
    assert_eq!(render(&set_report(&s)), vec![
        "table: Code|Name|Type|Released|Cards / sld|Secret Lair|\u{2014}|\u{2014}|5".to_string(),
        "drops: true   sub-types: false   parent: \u{2014}".to_string(),
    ]);
}

// -- tools, update, client, auth, misc -----------------------------------------------

#[test]
fn life_notes_and_the_single_seat() {
    assert_eq!(life_base("mtg"), "/api/tools/mtg/life");
    assert_eq!(session_route("mtg", 12, "/players/reorder"), "/api/tools/mtg/life/sessions/12/players/reorder");
    assert_eq!(started_note(12), "Started tracked game 12.");
    assert_eq!(deleted_note(12), "Deleted tracked game 12.");
    let p = LifePlayer {
        id: 3,
        position: 0,
        name: "Ann".into(),
        starting_life: 40,
        life: 37,
        rotation: 90,
        result: "none".into(),
        deck_id: None,
        deck_name: None,
        commander_card_id: None,
        commander_name: None,
    };
    assert_eq!(render_one(&seat_table(&p)), "table: Seat|ID|Name|Life|Start|Playing|Rot|Result / 0|3|Ann|37|40|\u{2014}|90\u{b0}|none");
}

#[test]
fn the_update_plan_follows_the_flags() {
    assert!(matches!(plan_update("1.2.0", "1.2.0", false, false, "x86", true), UpdatePlan::Finish(Outcome::UpToDate { .. })));
    assert!(matches!(plan_update("1.2.0", "1.3.0", true, false, "x86", true), UpdatePlan::Finish(Outcome::Available { .. })));
    assert!(matches!(plan_update("1.2.0", "1.3.0", false, false, "x86", false), UpdatePlan::Finish(Outcome::NoAssetForPlatform { .. })));
    match plan_update("1.2.0", "1.3.0", false, false, "x86", true) {
        UpdatePlan::Ask(p) => assert_eq!(p, "Update tcglense 1.2.0 \u{2192} 1.3.0? [Y/n] "),
        _ => panic!("expected a prompt"),
    }
    assert!(matches!(plan_update("1.2.0", "1.3.0", false, true, "x86", true), UpdatePlan::Install));
    assert!(matches!(plan_update("1.3.0", "1.2.0", false, true, "x86", true), UpdatePlan::Finish(Outcome::UpToDate { .. })));
    assert_eq!(notice("1.0.0", "1.1.0")[0], "\nA new tcglense release is available: 1.0.0 \u{2192} 1.1.0");
    let out = update_report(&Outcome::NoAssetForPlatform { target: "riscv".into(), latest: "2.0.0".into() });
    assert_eq!(out.unwrap_err(), "release 2.0.0 has no prebuilt binary for this platform (riscv); build from source with `cargo install`");
    assert_eq!(update_report(&Outcome::Cancelled).unwrap(), vec!["Update cancelled.".to_string()]);
}

#[test]
fn only_a_session_gets_a_refresh() {
    let session = Some(Auth::Session { access_token: "a".into(), refresh_token: "r".into(), user: None });
    let key = Some(Auth::ApiKey { key: "tcgl_x".into(), scope: None });
    assert!(should_refresh(401, &session));
    assert!(!should_refresh(401, &key));
    assert!(!should_refresh(401, &None));
    assert!(!should_refresh(403, &session));
    match refreshed_session("new".into(), None, "old".into(), user()) {
        Auth::Session { access_token, refresh_token, .. } => {
            assert_eq!((access_token.as_str(), refresh_token.as_str()), ("new", "old"));
        }
        _ => panic!("expected a session"),
    }
    match refreshed_session("new".into(), Some("rot".into()), "old".into(), user()) {
        Auth::Session { refresh_token, .. } => assert_eq!(refresh_token, "rot"),
        _ => panic!("expected a session"),
    }
}

#[test]
fn account_lines_read_as_printed() {
    assert_eq!(print_user(&user())[2], "Handle     : (none)");
    assert_eq!(register_lines("a@b", &RegisterResponse { completion_token: Some("tok".into()) })[1], "Finish with:\n  tcglense complete-registration tok");
    assert_eq!(register_lines("a@b", &RegisterResponse { completion_token: None }).len(), 1);
    assert_eq!(status_lines("http://x", "/cfg", &None)[2], "Credential : (none \u{2014} run `tcglense login`)");
    let k = CreatedApiKey {
        id: 5,
        name: "ci".into(),
        scope: "read".into(),
        key: "tcgl_abc".into(),
        key_prefix: "tcgl_a".into(),
        created_at: "c".into(),
        expires_at: None,
    };
    assert_eq!(created_key(&k, true).len(), 4);
    assert_eq!(created_key(&k, false)[0], "Created API key 'ci' (id 5, read).");
    assert_eq!(availability(&UsernameAvailability { valid: false, reason: None }), "Unavailable: invalid");
}

#[test]
fn meta_lines_read_as_printed() {
    let cfg = Config { base_url: None, auth: None };
    assert_eq!(config_lines(&cfg, "/p")[0], "base_url   : https://tcglense.com");
    assert_eq!(config_lines(&cfg, "/p")[1], "credential : (none)");
    assert_eq!(set_url("https://api.example.com//"), ("https://api.example.com".to_string(), "Base URL set to https://api.example.com.".to_string()));
    assert_eq!(probe_line(200, "  ok \n"), "HTTP 200: ok");
    let pc = PublicConfig { maintenance_mode: false, turnstile_site_key: Some("k".into()), signups_enabled: true, signups_disabled_message: None };
    assert_eq!(server_config(&pc), vec![
        "maintenance_mode : false".to_string(),
        "signups_enabled  : true".to_string(),
        "turnstile        : enabled".to_string(),
    ]);
}

#[test]
fn shared_tables_carry_their_headers() {
    let games = vec![tcglense::models::Game { id: "mtg".into(), name: "Magic".into(), publisher: "WotC".into(), data_source: "scryfall".into() }];
    assert_eq!(render_one(&games_table(&games)), "table: ID|Name|Publisher|Source / mtg|Magic|WotC|scryfall");
    assert_eq!(render_one(&collection_table(&vec![], "Owned")), "table: ID|Name|Set|#|Owned|Foil|USD");
}

// -- catalog search, images, the login callback, the browser body ------------------

#[test]
fn a_search_shows_each_kind_that_matched() {
    let empty = SearchResults {
        cards: SearchGroup::default(),
        sets: SearchGroup::default(),
        products: SearchGroup::default(),
        precons: SearchGroup::default(),
        keywords: SearchGroup::default(),
    };
    assert_eq!(render(&search(&empty)), vec!["No matches.".to_string()]);
    let r = SearchResults {
        cards: SearchGroup { data: vec![card("Elf", "dom", "1")], has_more: true },
        ..empty
    };
    let out = render(&search(&r));
    assert_eq!(out[0], "\n== Cards (1, more matched \u{2014} raise --limit or narrow the query) ==");
    assert_eq!(out.len(), 2);
    let g = SearchGroup { data: vec![card("Elf", "dom", "1")], has_more: false };
    assert_eq!(render(&cards_preview(&g))[1], "note: showing 1");
    assert_eq!(render(&cards_preview(&SearchGroup::default())), vec!["No matches.".to_string()]);
}

#[test]
fn images_and_histories_route_and_fall_back() {
    let (p, q) = image_request(ImageOf::Card, "mtg", "abc", &Some("large".into()), &Some("back".into()));
    assert_eq!(p, "/api/games/mtg/cards/abc/image");
    assert_eq!(q, vec![("size", "large".to_string()), ("face", "back".to_string())]);
    let (p, q) = image_request(ImageOf::Product, "mtg", "9", &None, &Some("back".into()));
    assert_eq!(p, "/api/games/mtg/products/9/image");
    assert!(q.is_empty());
    assert_eq!(wrote_bytes(2048, "card.jpg"), "Wrote 2048 bytes to card.jpg.");
    assert_eq!(render_one(&prices_report(&vec![])), "No price history in range.");
    assert_eq!(render_one(&prints_report(&vec![])), "No other printings.");
}

#[test]
fn the_login_callback_answers_and_ends_as_decided() {
    let pairs = |v: &[(&str, &str)]| v.iter().map(|(a, b)| (a.to_string(), b.to_string())).collect::<Vec<_>>();
    let ok = callback_outcome("/callback", &pairs(&[("state", "s"), ("code", "c1")]), "s");
    assert_eq!(ok.page(), PAGE_OK);
    assert_eq!(ok.result(), Some(Ok("c1".to_string())));
    let no = callback_outcome("/callback", &pairs(&[("state", "s"), ("error", "access_denied")]), "s");
    assert_eq!(no.page(), PAGE_DENIED);
    assert_eq!(no.result(), Some(Err("sign-in was declined in the browser (access_denied)".to_string())));
    let stray = callback_outcome("/callback", &pairs(&[("error", "x")]), "s");
    assert!(matches!(stray, Callback::Ignored));
    assert_eq!(stray.page(), PAGE_ERROR);
    assert_eq!(stray.result(), None);
    let empty = callback_outcome("/callback", &pairs(&[("state", "s"), ("code", "")]), "s");
    assert_eq!(empty.result(), Some(Err("login redirect carried no authorization code".to_string())));
}

#[test]
fn the_browser_body_lists_or_shows_a_pane() {
    match body(&Screen::game_menu("mtg".into())) {
        Body::List(rows) => {
            assert_eq!(rows.len(), 6);
            assert_eq!(rows[0], vec!["Browse sets".to_string()]);
        }
        Body::Pane(_) => panic!("the menu is a list"),
    }
    match body(&Screen::message("Oops".into(), vec!["a".into(), "b".into()])) {
        Body::Pane(lines) => assert_eq!(lines.iter().map(|l| l.text.clone()).collect::<Vec<_>>(), vec!["a", "b"]),
        Body::List(_) => panic!("a message is a pane"),
    }
}
