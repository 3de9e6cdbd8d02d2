use tcglense::commands::catalog::{
    combos_report, drop_heading, fingerprint, formats_report, keywords_report, preview_note,
    product_detail, releases_report, search_heading, set_flags, FingerprintError, HexError,
};
use tcglense::commands::deck_reports::{
    bracket_report, diff_report, legality_report, mana_report, suggestions_report,
};
use tcglense::commands::decks::{
    folder_message, import_from, import_summary, visibility_line, ImportArgError, ImportFrom,
};
use tcglense::commands::tools::{change_line, life_report, sessions_report};
use tcglense::models::{
    Card, CardCombo, CardCombos, CardPrices, CardSet, ComboPiece, Deck, DeckBracketCard, DeckBracketCategory,
    DeckBracketEstimate, DeckBracketLevel, DeckCommander, DeckDiff, DeckDiffEntry, DeckDiffSide, DeckDiffSummary,
    DeckFormat, DeckImportResponse, DeckLegality, DeckManaBase, DeckManaColor, DeckManaDemandCard,
    DeckSuggestionCard, DeckSuggestionRole, DeckSuggestions, DeckVisibility, DropGroup, Keyword, LifeChange,
    LifeCounter, LifeEvent, LifePlayer, LifeSession, LifeSessionDetail, Product, ProductPrices, Releases,
    SetRelease,
};
use tcglense::output::Block;

fn render(blocks: &[Block]) -> Vec<String> {
    blocks
        .iter()
        .map(|b| match b {
            Block::Line(s) => s.clone(),
            Block::Note(s) => format!("note: {s}"),
            Block::Table { header, rows } => {
                let mut t = format!("table: {}", header.join("|"));
                for r in rows {
                    t.push_str(&format!(" / {}", r.join("|")));
                }
                t
            }
        })
        .collect()
}

fn card_set(code: &str, name: &str) -> CardSet {
    CardSet {
        code: code.into(),
        name: name.into(),
        set_type: None,
        released_at: None,
        card_count: 10,
        icon_svg_uri: None,
        parent_set_code: Some("abc".into()),
        has_drops: true,
        drop_noun: None,
        has_subtypes: false,
    }
}

fn product(id: &str, name: &str) -> Product {
    Product {
        id: id.into(),
        name: name.into(),
        set_code: "blb".into(),
        set_name: None,
        product_type: "box".into(),
        url: Some("https://x".into()),
        has_image: false,
        prices: ProductPrices { usd: Some("90.00".into()), usd_foil: None },
        msrp: None,
        released_at: Some("2024-08-02".into()),
    }
}

#[test]
fn the_release_calendar_lists_sets_drops_and_counts() {
    let r = Releases {
        from: "2024-01-01".into(),
        to: "2024-12-31".into(),
        sets: vec![SetRelease {
            set: card_set("blb", "Bloomburrow"),
            released_at: "2024-08-02".into(),
            secret_lair: false,
            precons: vec![],
            products: vec![product("p1", "Play Booster Box"), product("p2", "Bundle")],
        }],
        secret_lair_drops: vec![],
    };
    assert_eq!(
        render(&releases_report(&r)),
        vec![
            "Releases 2024-01-01 → 2024-12-31",
            "table: Date|Code|Name|Type|Cards|Precons|Products / 2024-08-02|BLB|Bloomburrow|—|10|0|2",
            "\n== Bloomburrow (BLB) ==",
            "  Products: Play Booster Box, Bundle",
            "note: \n1 set(s) · 0 Secret Lair drop(s).",
        ]
    );
    let empty = Releases { from: "a".into(), to: "b".into(), sets: vec![], secret_lair_drops: vec![] };
    assert_eq!(render(&releases_report(&empty)), vec!["Releases a → b", "Nothing releases in this window."]);
}

#[test]
fn catalog_lines_read_as_printed() {
    assert_eq!(
        product_detail(&product("p1", "Box")),
        vec!["Box  [p1]", "  BLB · — · box", "  USD $90.00 · Foil — · MSRP —", "  Released: 2024-08-02", "  https://x"]
    );
    assert_eq!(set_flags(&card_set("blb", "B")), "drops: true   sub-types: false   parent: abc");
    let g = DropGroup {
        slug: None,
        title: "Drop".into(),
        card_count: 5,
        cheapest_prints_usd: Some("3.00".into()),
        released_at: Some("2024-01-01".into()),
        cards: vec![],
    };
    assert_eq!(drop_heading(&g), "\n== Drop (5 cards, $3.00, 2024-01-01) ==");
    assert_eq!(search_heading("Cards", 3, true), "\n== Cards (3, more matched — raise --limit or narrow the query) ==");
    assert_eq!(preview_note(2, false), "showing 2");
    assert_eq!(preview_note(2, true), "showing 2 · more match — use the paged listing");
}

#[test]
fn combos_always_carry_the_attribution() {
    let r = CardCombos {
        combos: vec![CardCombo {
            id: "c-1".into(),
            url: "u".into(),
            identity: vec![],
            description: "d".into(),
            popularity: 42,
            templates: vec!["A sac outlet".into()],
            produces: vec!["Infinite mana".into()],
            bracket_tag: None,
            mana_needed: None,
            mana_value_needed: None,
            prerequisites: None,
            pieces: vec![ComboPiece {
                oracle_id: "o".into(),
                name: "Ashnod's Altar".into(),
                quantity: 2,
                must_be_commander: true,
                card_id: None,
            }],
        }],
        total: 3,
        source: "Commander Spellbook".into(),
        source_url: "https://spellbook".into(),
    };
    assert_eq!(
        render(&combos_report(&r)),
        vec![
            "table: Pieces|Produces|Popularity|Bracket|ID / 2× Ashnod's Altar (cmdr) + [A sac outlet]|Infinite mana|42|—|c-1",
            "note: 3 combo(s) total · 1 listed (the API caps the list).",
            "note: Combo data: Commander Spellbook · https://spellbook",
        ]
    );
}

#[test]
fn glossary_and_formats_filter_and_count() {
    let k = Keyword {
        name: "Ward".into(),
        slug: "ward".into(),
        kind: "ability".into(),
        text: "Counter it unless...".into(),
        parameterized: true,
        match_mode: "anywhere".into(),
    };
    assert_eq!(
        render(&keywords_report(&vec![k.clone()], true)),
        vec!["Ward  [ability, takes a value]", "  Counter it unless...\n"]
    );
    assert_eq!(render(&keywords_report(&vec![k], false))[1], "note: 1 entries (--full for each explanation).");
    let f = |key: &str, popular: bool| DeckFormat {
        key: key.into(),
        label: key.to_uppercase(),
        group: "g".into(),
        aliases: vec!["x".into(), "y".into()],
        popular,
    };
    let fs = vec![f("modern", true), f("pauper", false)];
    assert_eq!(
        render(&formats_report(&fs, true)),
        vec!["table: Label|Key|Group|Popular|Also accepts / MODERN|modern|g|yes|x, y", "note: 1 formats."]
    );
    assert_eq!(render(&formats_report(&vec![], false)), vec!["No legality-tracked formats for this game."]);
}

#[test]
fn fingerprints_come_from_hex_or_a_file() {
    let hex = "ab".repeat(32);
    assert_eq!(fingerprint(&Some(hex), &None).unwrap(), vec![0xab; 32]);
    assert_eq!(fingerprint(&None, &Some(vec![7u8; 32])).unwrap(), vec![7u8; 32]);
    let text = "01".repeat(32).into_bytes();
    assert_eq!(fingerprint(&None, &Some(text)).unwrap(), vec![1u8; 32]);
    assert_eq!(fingerprint(&None, &None), Err(FingerprintError::NoInput));
    assert_eq!(fingerprint(&Some("abc".into()), &None), Err(FingerprintError::Hex(HexError::OddLength)));
    let short = fingerprint(&Some("abcd".into()), &None).unwrap_err();
    assert_eq!(short, FingerprintError::WrongLength(2));
    assert_eq!(short.message(), "a fingerprint must be exactly 32 bytes (got 2)");
    assert_eq!(
        FingerprintError::NoInput.message(),
        "provide the fingerprint with --file <path> or --hex <64-char hex>"
    );
}

fn deck(id: i64, name: &str) -> Deck {
    Deck {
        id,
        game: "mtg".into(),
        name: name.into(),
        description: None,
        format: Some("commander".into()),
        folder_id: Some(3),
        is_public: false,
        card_count: 100,
        commanders: vec![],
        color_identity: None,
        value_usd: None,
        created_at: "t".into(),
        updated_at: "t".into(),
    }
}

#[test]
fn deck_commands_say_what_they_did() {
    assert_eq!(import_from(Some("url".into()), false), Ok(ImportFrom::Source("url".into())));
    assert_eq!(import_from(None, true), Ok(ImportFrom::File));
    assert_eq!(import_from(Some("u".into()), true), Err(ImportArgError::Both));
    assert_eq!(import_from(None, false), Err(ImportArgError::Neither));
    assert_eq!(ImportArgError::Neither.message(), "provide --source <url/id> or --file <path>");
    assert_eq!(folder_message(&deck(1, "Elves")), "Deck 'Elves' filed under folder 3.");
    assert_eq!(
        visibility_line(&DeckVisibility { public: true, handle: None }),
        "public: true  ·  handle: (set a username first)"
    );
    let r = DeckImportResponse {
        deck: deck(9, "Goblins"),
        provider: "moxfield".into(),
        total_rows: 100,
        matched_cards: 98,
        unmatched_cards: 2,
        unmatched_sample: vec!["Foo".into(), "Bar".into()],
    };
    assert_eq!(
        import_summary(&r),
        vec!["Imported 'Goblins' (id 9): 100 rows, 98 matched, 2 unmatched.", "  unmatched e.g. Foo, Bar"]
    );
}

#[test]
fn the_bracket_estimate_arrows_the_decks_rung() {
    let b = DeckBracketEstimate {
        format_key: "commander".into(),
        format_label: "Commander".into(),
        bracket: 2,
        label: "Core".into(),
        description: "Precon level".into(),
        ladder: vec![
            DeckBracketLevel { bracket: 1, label: "Exhibition".into(), description: "d1".into() },
            DeckBracketLevel { bracket: 2, label: "Core".into(), description: "d2".into() },
        ],
        reasons: vec!["No Game Changers".into()],
        caveats: vec![],
        categories: vec![
            DeckBracketCategory {
                signal: "gc".into(),
                label: "Game Changers".into(),
                description: "x".into(),
                count: 0,
                decisive: false,
                cards: vec![],
            },
            DeckBracketCategory {
                signal: "tutor".into(),
                label: "Tutors".into(),
                description: "x".into(),
                count: 2,
                decisive: true,
                cards: vec![DeckBracketCard { card_id: "a".into(), name: "Demonic Tutor".into(), quantity: 2 }],
            },
        ],
        exhibition_possible: false,
    };
    assert_eq!(
        render(&bracket_report(&Some(b))),
        vec![
            "Bracket 2 — Core  [Commander]",
            "  Precon level",
            "\nWhy:",
            "  · No Game Changers",
            "",
            "table: Category|Cards|Decisive|Examples / Tutors|2|yes|2× Demonic Tutor",
            "\nLadder:",
            "    1. Exhibition — d1",
            "  → 2. Core — d2",
        ]
    );
    assert_eq!(
        render(&bracket_report(&None)),
        vec!["No bracket — the ladder is only defined for Commander decks."]
    );
}

#[test]
fn the_mana_base_names_what_the_hungriest_cards_want() {
    let demand = |n: &str| DeckManaDemandCard {
        card_id: n.into(),
        name: n.into(),
        quantity: 1,
        mana_cost: "{G}{G}".into(),
        pips: 2,
        turn: 2,
        cost_key: "GG".into(),
        gold: false,
        sources_needed: 20,
        x_cost: false,
        clamped: false,
    };
    let m = DeckManaBase {
        deck_size: 100,
        table_size: 99,
        library_size: 99,
        land_count: 38,
        colors: vec![DeckManaColor {
            color: "G".into(),
            label: "Green".into(),
            pips: 30,
            hybrid_pips: 0,
            demand_count: 6,
            demand: vec![demand("a"), demand("b"), demand("c"), demand("d"), demand("e")],
            sources: 38,
            land_sources: 36,
            nonland_sources: 2,
            source_count: 38,
            source_cards: vec![],
            sources_needed: None,
            shortfall: 0,
            status: "ok".into(),
            verdict: "fine".into(),
        }],
        unchecked_count: 0,
        caveats: vec!["Karsten".into()],
        source: "Frank Karsten".into(),
    };
    assert_eq!(
        render(&mana_report(&m)),
        vec![
            "100 cards cast from · 99 in the library · 38 lands · judged against the 99-card column",
            "table: Colour|Pips|Sources|Needed|Shortfall|Verdict / Green|30|38 (36+2)|—||fine",
            "  Green wants: a {G}{G} (needs 20) · b {G}{G} (needs 20) · c {G}{G} (needs 20) · d {G}{G} (needs 20) · +2 more",
            "\nWhat the numbers assume:",
            "  · Karsten",
            "note: Thresholds from Frank Karsten.",
        ]
    );
}

fn card(id: &str, name: &str) -> Card {
    Card {
        id: id.into(),
        name: name.into(),
        set_code: "dom".into(),
        set_name: "Dominaria".into(),
        collector_number: "1".into(),
        rarity: None,
        lang: "en".into(),
        released_at: None,
        mana_cost: None,
        cmc: None,
        type_line: None,
        oracle_text: None,
        power: None,
        toughness: None,
        loyalty: None,
        color_identity: vec![],
        colors: vec![],
        layout: None,
        prices: CardPrices { usd: None, usd_foil: None, usd_etched: None, eur: None, tix: None },
        legalities: None,
        has_image: false,
        drop_name: None,
        drop_slug: None,
        drop_noun: None,
        secret_lair_bonus: false,
        secret_lair_spend_incentive: false,
        faces: vec![],
    }
}

#[test]
fn suggestions_look_cards_up_by_id() {
    let s = DeckSuggestions {
        commanders: vec![DeckCommander { card_id: "k".into(), name: "Krenko".into() }],
        color_identity: Some(vec!["R".into()]),
        format_key: None,
        format_label: None,
        candidate_count: 2,
        scanned_count: 2,
        cards: vec![
            DeckSuggestionCard { card: card("a", "Goblin A"), edhrec_rank: 5, owned: 1, roles: vec!["ramp".into()] },
            DeckSuggestionCard { card: card("b", "Goblin B"), edhrec_rank: 9, owned: 2, roles: vec![] },
        ],
        top: vec!["b".into(), "zz".into(), "a".into()],
        roles: vec![
            DeckSuggestionRole {
                role: "ramp".into(),
                label: "Ramp".into(),
                description: "d".into(),
                in_deck: 4,
                count: 1,
                card_ids: vec!["zz".into(), "a".into()],
            },
            DeckSuggestionRole {
                role: "draw".into(),
                label: "Draw".into(),
                description: "d".into(),
                in_deck: 0,
                count: 0,
                card_ids: vec![],
            },
        ],
        unclassified_count: 1,
        caveats: vec!["global rank".into()],
    };
    assert_eq!(
        render(&suggestions_report(&s)),
        vec![
            "no tracked format  ·  colours R  ·  2 owned candidate(s), 2 scanned",
            "  commanders: Krenko",
            "\nMost played overall:",
            "table: Rank|Name|Set|#|Own|Roles / 9|Goblin B|DOM|1|2| / 5|Goblin A|DOM|1|1|ramp",
            "",
            "Ramp: you have 4 · you own 1 more — Goblin A",
            "\n1 scanned candidate(s) fill no role at all.",
            "\nWhat this ranking is:",
            "  · global rank",
        ]
    );
}

#[test]
fn legality_and_diffs_report_plainly() {
    let l = DeckLegality {
        format_key: "modern".into(),
        format_label: "Modern".into(),
        issues: vec![],
        violations: vec![],
        card_statuses: Default::default(),
        unknown_count: 0,
        legal: true,
    };
    assert_eq!(render(&legality_report(&Some(l))), vec!["Modern [modern] — LEGAL", "  No issues."]);
    let side = |id: i64, n: &str| DeckDiffSide { id, name: n.into(), format: None, total_cards: 60 };
    let d = DeckDiff {
        base: side(1, "A"),
        other: side(2, "B"),
        summary: DeckDiffSummary { added: 1, removed: 0, changed: 0, finish_changed: 1, unchanged: 58 },
        cards: vec![DeckDiffEntry {
            card: card("x", "Bolt"),
            name: "Bolt".into(),
            change: "finish".into(),
            base_quantity: 4,
            other_quantity: 4,
            delta: 0,
            base_foil_quantity: 0,
            other_foil_quantity: 1,
        }],
        sections: vec![],
    };
    assert_eq!(
        render(&diff_report(&d)),
        vec![
            "A [1] vs B [2]",
            "  60 cards vs 60 cards",
            "  1 added · 0 removed · 0 changed · 1 finish-only · 58 unchanged",
            "",
            "table: Change|Name|Base|Other|Δ / finish|Bolt|4 (0 foil)|4 (1 foil)|+0",
        ]
    );
}

fn seat(id: i64, name: &str) -> LifePlayer {
    LifePlayer {
        id,
        position: id - 1,
        name: name.into(),
        starting_life: 40,
        life: 35,
        rotation: 90,
        result: "none".into(),
        deck_id: None,
        deck_name: None,
        commander_card_id: None,
        commander_name: None,
    }
}

#[test]
fn the_life_tracker_prints_the_table_and_its_history() {
    let session = LifeSession {
        id: 5,
        game: "mtg".into(),
        name: None,
        format: Some("commander".into()),
        starting_life: 40,
        layout: "rows".into(),
        counters: vec!["poison".into()],
        status: "active".into(),
        players: vec![seat(1, "Alice")],
        started_at: "t0".into(),
        finished_at: None,
        created_at: "t0".into(),
        updated_at: "t0".into(),
    };
    let event = LifeEvent {
        id: 9,
        player_id: 1,
        delta: -5,
        life_after: 35,
        counter: "life".into(),
        source_player_id: None,
        kind: "adjust".into(),
        created_at: "t1".into(),
    };
    let detail = LifeSessionDetail {
        session: session.clone(),
        counters: vec![LifeCounter { counter: "poison".into(), player_id: 1, source_player_id: Some(7), value: 2 }],
        events: vec![event.clone()],
    };
    assert_eq!(
        render(&life_report(&detail, true)),
        vec![
            "Game 5 · mtg · active · layout rows · started t0",
            "  name: —   format: commander   starting life: 40",
            "  tracking: life, poison",
            "table: Seat|ID|Name|Life|Start|Playing|Rot|Result / 0|1|Alice|35|40|—|90°|none",
            "table: Seat|Counter|From|Value / Alice|poison|#7|2",
            "table: ID|Seat|Counter|From|Kind|Delta|After|When / 9|Alice|life|—|adjust|-5|35|t1",
        ]
    );
    assert_eq!(
        render(&sessions_report(&vec![session.clone()])),
        vec!["table: ID|Name|Status|Format|Seats|Started / 5|—|active|commander|1|t0"]
    );
    assert_eq!(render(&sessions_report(&vec![])), vec!["No tracked games."]);
    let change = LifeChange { player: seat(1, "Alice"), counter: None, event };
    assert_eq!(change_line(&change), "Alice (seat 1) life: 40 → 35   (-5 · adjust · event 9)");
}
