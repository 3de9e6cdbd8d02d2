use tcglense::models::{
    Card, CardPrices, CardSet, CollectionEntry, CollectionQuantities, Deck, DeckCardEntry, DeckDetail,
    DeckSection, CollectionSummary, Game, Page,
};
use tcglense::tui::app::{cards_request, holdings_request, CardSource, Command, Key, Screen, Tui};
use tcglense::tui::view::{
    account_lines, auth_label, block_title, breadcrumb_text, card_detail_text, card_spans,
    deck_detail_text, deck_spans, footer_text, game_spans, holding_spans, set_spans, AccountRead,
    AccountUser, Tone,
};
use tcglense::tui::{
    adjusted_counts, breadcrumb, clip, foil_label, footer, game_menu, initial_selection,
    move_selection, page_target, paging, row_change, HoldSurface, RowChange, ScreenStack,
    GAME_MENU_LEN,
};

fn game(id: &str) -> Game {
    Game { id: id.into(), name: format!("{id} game"), publisher: "Pub".into(), data_source: "src".into() }
}

fn card(id: &str, name: &str) -> Card {
    Card {
        id: id.into(),
        name: name.into(),
        set_code: "blb".into(),
        set_name: "Bloomburrow".into(),
        collector_number: "12".into(),
        rarity: Some("rare".into()),
        lang: "en".into(),
        released_at: None,
        mana_cost: Some("{1}{G}".into()),
        cmc: Some("2".into()),
        type_line: Some("Creature — Rabbit".into()),
        oracle_text: Some("Line one\nLine two".into()),
        power: Some("2".into()),
        toughness: Some("3".into()),
        loyalty: None,
        color_identity: vec![],
        colors: vec![],
        layout: None,
        prices: CardPrices {
            usd: Some("1.50".into()),
            usd_foil: None,
            usd_etched: None,
            eur: Some("1.20".into()),
            tix: None,
        },
        legalities: None,
        has_image: false,
        drop_name: None,
        drop_slug: None,
        drop_noun: None,
        secret_lair_bonus: false,
        secret_lair_spend_incentive: false,
        faces: vec![],
    }
}

fn set(code: &str) -> CardSet {
    CardSet {
        code: code.into(),
        name: "Bloomburrow".into(),
        set_type: Some("expansion".into()),
        released_at: Some("2024-08-02".into()),
        card_count: 280,
        icon_svg_uri: None,
        parent_set_code: None,
        has_drops: false,
        drop_noun: None,
        has_subtypes: false,
    }
}

fn page<T>(data: Vec<T>, page: i64, has_more: bool) -> Page<T> {
    let total = data.len() as i64;
    Page { data, page, page_size: 60, total, has_more }
}

fn entry(id: &str, q: i64, f: i64) -> CollectionEntry {
    CollectionEntry { card: card(id, &format!("Card {id}")), quantity: q, foil_quantity: f }
}

#[test]
fn the_bottom_screen_is_never_popped() {
    let mut s = ScreenStack::new("games");
    assert_eq!(s.len(), 1);
    assert_eq!(s.depth(), 0);
    assert!(!s.pop());
    assert_eq!(*s.top(), "games");
    s.push("sets");
    s.push("cards");
    assert_eq!(s.len(), 3);
    assert_eq!(*s.get(1), "sets");
    assert!(s.pop());
    assert_eq!(*s.top(), "sets");
    assert_eq!(s.swap_top("sets p2"), "sets");
    assert_eq!(*s.top(), "sets p2");
    assert_eq!(*s.get(0), "games");
}

#[test]
fn selection_stays_on_the_list() {
    assert_eq!(initial_selection(0), None);
    assert_eq!(initial_selection(5), Some(0));
    assert_eq!(move_selection(0, 0, 1), None);
    assert_eq!(move_selection(5, 2, 1), Some(3));
    assert_eq!(move_selection(5, 2, 10), Some(4));
    assert_eq!(move_selection(5, 2, -10), Some(0));
}

#[test]
fn paging_stays_on_real_pages() {
    assert_eq!(page_target(1, -1, true), None);
    assert_eq!(page_target(2, -1, false), Some(1));
    assert_eq!(page_target(2, 1, false), None);
    assert_eq!(page_target(2, 1, true), Some(3));
}

#[test]
fn edits_never_go_below_zero() {
    assert_eq!(adjusted_counts(2, 1, -1, false), (1, 1));
    assert_eq!(adjusted_counts(0, 1, -1, false), (0, 1));
    assert_eq!(adjusted_counts(2, 0, -1, true), (2, 0));
    assert_eq!(adjusted_counts(2, 0, 1, true), (2, 1));
}

#[test]
fn zeroed_rows_go_and_the_selection_follows() {
    assert!(matches!(row_change(3, 3, 0, 0), RowChange::Nothing));
    assert!(matches!(row_change(0, 1, 0, 0), RowChange::Remove { select: None }));
    assert!(matches!(row_change(1, 3, 0, 0), RowChange::Remove { select: Some(1) }));
    assert!(matches!(row_change(2, 3, 0, 0), RowChange::Remove { select: Some(1) }));
    assert!(matches!(row_change(2, 3, 1, 0), RowChange::Update));
}

#[test]
fn cells_and_footers_read_as_shown() {
    let m = game_menu();
    assert_eq!(m.len(), GAME_MENU_LEN);
    assert_eq!(m[2], "Collection");
    assert_eq!(HoldSurface::Collection.base("mtg"), "/api/collection/mtg");
    assert_eq!(HoldSurface::Wishlist.base("mtg"), "/api/wishlist/mtg");
    assert_eq!(HoldSurface::Wishlist.label(), "Wish list");
    assert_eq!(foil_label(3), "3f");
    assert_eq!(foil_label(0), "-");
    assert_eq!(clip("abcdef", 4), "abc…");
    assert_eq!(paging(2, 120, "cards"), "p2 · 120 cards  —  ");
    assert_eq!(footer("", "p1 · ", "q quit"), " p1 · q quit");
    assert_eq!(footer("saved", "p1 · ", "q quit"), " saved  —  p1 · q quit");
    assert_eq!(breadcrumb(&["Games".to_string(), "mtg".to_string()]), "Games › mtg");
}

#[test]
fn the_browser_opens_on_the_games_list_or_the_failure() {
    let t = Tui::new("http://h".into(), false, Ok(vec![game("mtg"), game("lorcana")]));
    assert!(matches!(t.top(), Screen::Games { selected: Some(0), .. }));
    assert_eq!(t.status, "↑/↓ move · Enter open · q quit · ? help");
    let t = Tui::new("http://h".into(), false, Err("boom".into()));
    match t.top() {
        Screen::Message { title, lines } => {
            assert_eq!(title, "Could not load games");
            assert_eq!(lines, &vec!["boom".to_string(), String::new(), "Press q to quit.".to_string()]);
        }
        _ => panic!("expected the failure message"),
    }
}

#[test]
fn keys_walk_down_into_a_game_and_back() {
    let mut t = Tui::new("http://h".into(), false, Ok(vec![game("mtg"), game("lorcana")]));
    assert!(matches!(t.on_key(Key::Down), Command::Nothing));
    assert_eq!(t.top().selection(), Some(1));
    t.on_key(Key::Down);
    assert_eq!(t.top().selection(), Some(1));
    t.on_key(Key::Char('k'));
    t.on_key(Key::Enter);
    match t.top() {
        Screen::GameMenu { game, selected } => {
            assert_eq!(game, "mtg");
            assert_eq!(*selected, Some(0));
        }
        _ => panic!("expected the game menu"),
    }
    assert_eq!(breadcrumb_text(&t), "Games › MTG");
    assert!(matches!(t.on_key(Key::Enter), Command::LoadSets { game } if game == "mtg"));
    t.on_key(Key::Esc);
    assert!(matches!(t.top(), Screen::Games { .. }));
    t.on_key(Key::Esc);
    assert_eq!(t.status, "Press q to quit.");
    t.on_key(Key::Char('?'));
    assert!(matches!(t.top(), Screen::Message { title, .. } if title == "Help"));
    t.on_key(Key::Left);
    t.on_key(Key::Char('q'));
    assert!(t.should_quit);
}

#[test]
fn signed_out_surfaces_ask_to_sign_in() {
    let mut t = Tui::new("http://h".into(), false, Ok(vec![game("mtg")]));
    t.on_key(Key::Enter);
    t.on_key(Key::Down);
    t.on_key(Key::Down);
    assert!(matches!(t.on_key(Key::Enter), Command::Nothing));
    assert_eq!(t.status, "Sign in to view your collection.");
    t.on_key(Key::Down);
    t.on_key(Key::Enter);
    assert_eq!(t.status, "Sign in to view your wish list.");
    t.on_key(Key::Down);
    t.on_key(Key::Enter);
    assert_eq!(t.status, "Sign in to view your decks.");
    t.on_key(Key::Down);
    assert!(matches!(t.on_key(Key::Enter), Command::LoadAccount));
}

#[test]
fn the_search_overlay_builds_a_search() {
    let mut t = Tui::new("http://h".into(), true, Ok(vec![game("mtg")]));
    t.on_key(Key::Enter);
    t.on_key(Key::Down);
    assert!(matches!(t.on_key(Key::Enter), Command::Nothing));
    assert_eq!(t.input.as_ref().unwrap().prompt, "Search mtg cards (Scryfall syntax): ");
    t.on_key(Key::Char('b'));
    t.on_key(Key::Char('x'));
    t.on_key(Key::Backspace);
    t.on_key(Key::Char('o'));
    match t.on_key(Key::Enter) {
        Command::LoadCards { game, title, source: CardSource::Search { query }, page, push, from_search } => {
            assert_eq!(game, "mtg");
            assert_eq!(query, "bo");
            assert_eq!(title, "mtg · search “bo”");
            assert_eq!(page, 1);
            assert!(push && from_search);
        }
        _ => panic!("expected a search"),
    }
    assert!(t.input.is_none());
    t.on_key(Key::Enter);
    t.on_key(Key::Char(' '));
    t.on_key(Key::Enter);
    assert_eq!(t.status, "Search cancelled.");
    t.on_key(Key::Enter);
    t.on_key(Key::Esc);
    assert_eq!(t.status, "Cancelled.");
}

#[test]
fn card_lists_page_edit_and_open_details() {
    let mut t = Tui::new("http://h".into(), true, Ok(vec![game("mtg")]));
    t.on_key(Key::Enter);
    t.show(Screen::sets("mtg".into(), vec![set("blb")]), true);
    match t.on_key(Key::Enter) {
        Command::LoadCards { title, source: CardSource::InSet { code, query }, push, .. } => {
            assert_eq!(title, "mtg · BLB");
            assert_eq!(code, "blb");
            assert!(query.is_none() && push);
        }
        _ => panic!("expected the set's cards"),
    }
    let src = CardSource::InSet { code: "blb".into(), query: None };
    t.show(Screen::cards("mtg".into(), "mtg · BLB".into(), src, page(vec![card("c1", "Alpha")], 1, true)), true);
    assert!(matches!(t.on_key(Key::Char('p')), Command::Nothing));
    assert_eq!(t.status, "No more pages.");
    assert!(matches!(t.on_key(Key::Char('n')), Command::LoadCards { page: 2, push: false, .. }));
    match t.on_key(Key::Char('+')) {
        Command::ApplyDelta { base, card_id, delta, foil, done } => {
            assert_eq!(base, "/api/collection/mtg");
            assert_eq!(card_id, "c1");
            assert_eq!((delta, foil), (1, false));
            assert_eq!(done, "Updated Alpha in collection.");
        }
        _ => panic!("expected an edit"),
    }
    match t.on_key(Key::Char('w')) {
        Command::ApplyDelta { base, done, .. } => {
            assert_eq!(base, "/api/wishlist/mtg");
            assert_eq!(done, "Added Alpha to the wish list.");
        }
        _ => panic!("expected a wish"),
    }
    assert!(footer_text(&t).starts_with(" No more pages.  —  p1 · 1 cards  —  Enter detail"));
    t.on_key(Key::Enter);
    assert!(matches!(t.top(), Screen::CardDetail { .. }));
    assert_eq!(footer_text(&t), " No more pages.  —  Esc back · q quit");
}

#[test]
fn holdings_edits_write_counts_and_reflect_them() {
    let mut t = Tui::new("http://h".into(), true, Ok(vec![game("mtg")]));
    let p = page(vec![entry("a", 2, 0), entry("b", 1, 1)], 1, false);
    t.show(Screen::holdings("mtg".into(), HoldSurface::Collection, p), true);
    t.on_key(Key::Down);
    match t.on_key(Key::Char('F')) {
        Command::PutCounts { base, card_id, quantity, foil_quantity, row, done } => {
            assert_eq!(base, "/api/collection/mtg");
            assert_eq!(card_id, "b");
            assert_eq!((quantity, foil_quantity, row), (1, 0, 1));
            assert!(done.is_none());
        }
        _ => panic!("expected a write"),
    }
    t.update_holding_row(1, CollectionQuantities { quantity: 1, foil_quantity: 0 });
    match t.top() {
        Screen::Holdings { items, .. } => assert_eq!((items[1].quantity, items[1].foil_quantity), (1, 0)),
        _ => panic!("expected holdings"),
    }
    assert!(matches!(t.on_key(Key::Char('r')), Command::PutCounts { quantity: 0, foil_quantity: 0, row: 1, done: Some(_), .. }));
    t.update_holding_row(1, CollectionQuantities { quantity: 0, foil_quantity: 0 });
    match t.top() {
        Screen::Holdings { items, selected, .. } => {
            assert_eq!(items.len(), 1);
            assert_eq!(*selected, Some(0));
        }
        _ => panic!("expected holdings"),
    }
    assert!(matches!(t.on_key(Key::Char('n')), Command::Nothing));
    assert_eq!(t.status, "No more pages.");
}

#[test]
fn rows_are_padded_as_drawn() {
    assert_eq!(game_spans(&game("mtg")), vec!["mtg   ", "mtg game  ", "(Pub)"]);
    assert_eq!(set_spans(&set("blb")), vec!["BLB     ", "Bloomburrow", "  280 cards  2024-08-02"]);
    let c = card("c1", "Alpha");
    assert_eq!(
        card_spans(&c),
        vec![format!("{:<32}", "Alpha"), "BLB   ".to_string(), "#12    ".to_string(), "rare     ".to_string(), "$1.50".to_string()]
    );
    assert_eq!(holding_spans(&entry("a", 2, 3))[0], "  2×3f ");
    let d = Deck {
        id: 7,
        game: "mtg".into(),
        name: "Elves".into(),
        description: None,
        format: None,
        folder_id: None,
        is_public: true,
        card_count: 100,
        commanders: vec![],
        color_identity: None,
        value_usd: None,
        created_at: "t".into(),
        updated_at: "t".into(),
    };
    assert_eq!(deck_spans(&d), vec!["7    ", "Elves", "  —  100 cards  [public]"]);
    assert_eq!(auth_label(true), "● signed in");
    assert_eq!(auth_label(false), "○ anonymous");
}

#[test]
fn detail_panes_list_their_lines() {
    let c = card("c1", "Alpha");
    let lines: Vec<(String, Tone)> = card_detail_text(&c).into_iter().map(|l| (l.text, l.tone)).collect();
    assert_eq!(lines[0], ("Alpha".to_string(), Tone::Bold));
    assert_eq!(lines[1].0, "Bloomburrow · BLB #12 · rare");
    assert_eq!(lines[2].0, "Mana {1}{G}  ·  CMC 2");
    assert_eq!(lines[3].0, "Creature — Rabbit");
    assert_eq!(lines[4].0, "2/3");
    assert_eq!(lines[5].0, "");
    assert_eq!(lines[6].0, "Line one");
    assert_eq!(lines[7].0, "Line two");
    assert_eq!(lines[9], ("USD $1.50 · Foil — · EUR 1.20 · TIX —".to_string(), Tone::Price));
    assert_eq!(lines[10], ("id c1".to_string(), Tone::Dim));
    let deck = DeckDetail {
        id: 1,
        game: "mtg".into(),
        name: "Elves".into(),
        description: None,
        format: Some("commander".into()),
        folder_id: None,
        is_public: false,
        handle: None,
        summary: CollectionSummary { unique_cards: 2, total_cards: 3, total_value_usd: Some("4.00".into()), bulk_value_usd: None },
        maybeboard_summary: None,
        sections: vec![
            DeckSection { id: 1, name: "Main".into(), position: 0, is_maybeboard: false },
            DeckSection { id: 2, name: "Side".into(), position: 1, is_maybeboard: false },
        ],
        cards: vec![
            DeckCardEntry { card: card("a", "Elf"), section_id: 1, quantity: 2, foil_quantity: 1 },
            DeckCardEntry { card: card("b", "Tree"), section_id: 1, quantity: 1, foil_quantity: 0 },
        ],
        created_at: "t".into(),
        updated_at: "t".into(),
    };
    let text: Vec<String> = deck_detail_text(&deck).into_iter().map(|l| l.text).collect();
    assert_eq!(
        text,
        vec![
            "format commander · 3 cards · value $4.00 · public false",
            "",
            "== Main ==",
            "  2× Elf (+1 foil)",
            "  1× Tree",
        ]
    );
    assert_eq!(block_title(&Screen::deck_detail(deck)), " Elves ");
}

#[test]
fn the_account_screen_reads_the_user() {
    let u = AccountUser { email: Some("a@b.c".into()), handle: None, currency: Some("usd".into()) };
    assert_eq!(
        account_lines("http://h", &AccountRead::Read(Some(u))),
        vec!["Base URL : http://h", "Email    : a@b.c", "Handle   : (none)", "Currency : usd"]
    );
    assert_eq!(
        account_lines("http://h", &AccountRead::SignedOut),
        vec!["Base URL : http://h", "Not signed in — run `tcglense login` first."]
    );
    assert_eq!(
        account_lines("http://h", &AccountRead::Failed("401".into())),
        vec!["Base URL : http://h", "(/me failed: 401)"]
    );
}

#[test]
fn browser_fetches_name_their_route_and_page() {
    let (path, q) = cards_request("mtg", &CardSource::InSet { code: "blb".into(), query: None }, 2);
    assert_eq!(path, "/api/games/mtg/sets/blb/cards");
    assert_eq!(q, vec![("page", "2".to_string()), ("page_size", "60".to_string())]);
    let (path, q) = cards_request("mtg", &CardSource::InSet { code: "blb".into(), query: Some("otter".into()) }, 1);
    assert_eq!(path, "/api/games/mtg/sets/blb/cards");
    assert_eq!(q[2], ("q", "otter".to_string()));
    let (path, q) = cards_request("mtg", &CardSource::Search { query: "bolt".into() }, 3);
    assert_eq!(path, "/api/games/mtg/cards");
    assert_eq!(q, vec![("page", "3".to_string()), ("page_size", "60".to_string()), ("q", "bolt".to_string())]);
    let (path, q) = holdings_request("mtg", HoldSurface::Wishlist, 1);
    assert_eq!(path, "/api/wishlist/mtg");
    assert_eq!(q, vec![("page", "1".to_string()), ("page_size", "60".to_string())]);
}
