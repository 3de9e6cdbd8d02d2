//! The interactive browser as a state machine: the screens on the stack, what a
//! key does to them, and which fetch a key asks for. The terminal loop performs
//! the fetch and hands the result back through [`Tui::show`],
//! [`Tui::update_holding_row`] and [`Tui::set_status`].
use super::{
    adjusted_counts, first_row, initial_selection, move_selection, page_target, row_change, spec_adjusted, spec_move, spec_page_target,
    HoldSurface, RowChange, ScreenStack, GAME_MENU_LEN,
};
use crate::models::{Card, CardFace, CardPrices, CardSet, CollectionEntry, CollectionQuantities, Deck, DeckDetail, Game, Page};
use crate::output::{str_upper, to_upper};
use crate::commands::{opt_pair, push_opt, query_view, Query};
use crate::text::{chars_of, dec_int, fmt_i64, spec_trim, trim_chars, views};
use std::collections::BTreeMap;
use vstd::prelude::*;

verus! {

broadcast use vstd::string::group_string_axioms;

/// How a Cards screen was populated (so paging can refetch).
pub enum CardSource {
    InSet { code: String, query: Option<String> },
    Search { query: String },
}

/// A navigable screen. Each list screen owns its selection, so going back
/// restores it.
pub enum Screen {
    Games { items: Vec<Game>, selected: Option<usize> },
    GameMenu { game: String, selected: Option<usize> },
    Sets { game: String, items: Vec<CardSet>, selected: Option<usize> },
    Cards {
        game: String,
        title: String,
        source: CardSource,
        items: Vec<Card>,
        page: i64,
        total: i64,
        has_more: bool,
        selected: Option<usize>,
    },
    CardDetail { card: Card },
    Holdings {
        game: String,
        surface: HoldSurface,
        items: Vec<CollectionEntry>,
        page: i64,
        total: i64,
        has_more: bool,
        selected: Option<usize>,
    },
    Decks { game: String, items: Vec<Deck>, selected: Option<usize> },
    DeckDetail { deck: DeckDetail },
    Account { lines: Vec<String> },
    Message { title: String, lines: Vec<String> },
}

/// A count the client can move by one without leaving `i64`.
pub open spec fn in_range(x: i64) -> bool {
    i64::MIN < x < i64::MAX
}

/// Every held row's counts can be moved by one.
pub open spec fn entries_in_range(items: Seq<CollectionEntry>) -> bool {
    forall|i: int| #![trigger items[i]] 0 <= i < items.len() ==> in_range(items[i].quantity) && in_range(items[i].foil_quantity)
}

/// The legality table's view, when there is one.
pub open spec fn legality_view(l: Option<BTreeMap<String, String>>) -> Option<Map<String, String>> {
    match l {
        Some(m) => Some(m@),
        None => None,
    }
}

/// `a` is a copy of `b`: every field the same, the legality table the same map.
pub open spec fn same_card(a: Card, b: Card) -> bool {
    &&& a.id == b.id && a.name == b.name && a.set_code == b.set_code && a.set_name == b.set_name
    &&& a.collector_number == b.collector_number && a.rarity == b.rarity && a.lang == b.lang
    &&& a.released_at == b.released_at && a.mana_cost == b.mana_cost && a.cmc == b.cmc
    &&& a.type_line == b.type_line && a.oracle_text == b.oracle_text && a.power == b.power
    &&& a.toughness == b.toughness && a.loyalty == b.loyalty
    &&& a.color_identity@ == b.color_identity@ && a.colors@ == b.colors@
    &&& a.layout == b.layout && a.prices == b.prices
    &&& legality_view(a.legalities) == legality_view(b.legalities)
    &&& a.has_image == b.has_image && a.drop_name == b.drop_name && a.drop_slug == b.drop_slug
    &&& a.drop_noun == b.drop_noun && a.secret_lair_bonus == b.secret_lair_bonus
    &&& a.secret_lair_spend_incentive == b.secret_lair_spend_incentive
    &&& a.faces@ == b.faces@
}

fn copy_opt(s: &Option<String>) -> (r: Option<String>)
    ensures
        r == *s,
{
    match s {
        Some(x) => Some(x.clone()),
        None => None,
    }
}

fn copy_strings(v: &Vec<String>) -> (r: Vec<String>)
    ensures
        r@ == v@,
{
    let mut out: Vec<String> = Vec::new();
    let mut i: usize = 0;
    while i < v.len()
        invariant
            i <= v.len(),
            out@ == v@.take(i as int),
        decreases v.len() - i,
    {
        out.push(v[i].clone());
        i = i + 1;
        assert(out@ =~= v@.take(i as int));
    }
    assert(v@.take(v.len() as int) =~= v@);
    out
}

fn copy_face(f: &CardFace) -> (r: CardFace)
    ensures
        r == *f,
{
    CardFace {
        name: copy_opt(&f.name),
        mana_cost: copy_opt(&f.mana_cost),
        type_line: copy_opt(&f.type_line),
        oracle_text: copy_opt(&f.oracle_text),
        power: copy_opt(&f.power),
        toughness: copy_opt(&f.toughness),
        loyalty: copy_opt(&f.loyalty),
    }
}

/// A copy of `c` for the detail screen.
fn copy_card(c: &Card) -> (r: Card)
    ensures
        same_card(r, *c),
{
    let mut faces: Vec<CardFace> = Vec::new();
    let mut i: usize = 0;
    while i < c.faces.len()
        invariant
            i <= c.faces.len(),
            faces@ == c.faces@.take(i as int),
        decreases c.faces.len() - i,
    {
        faces.push(copy_face(&c.faces[i]));
        i = i + 1;
        assert(faces@ =~= c.faces@.take(i as int));
    }
    assert(c.faces@.take(c.faces.len() as int) =~= c.faces@);
    let legalities = match &c.legalities {
        Some(m) => Some(m.clone()),
        None => None,
    };
    Card {
        id: c.id.clone(),
        name: c.name.clone(),
        set_code: c.set_code.clone(),
        set_name: c.set_name.clone(),
        collector_number: c.collector_number.clone(),
        rarity: copy_opt(&c.rarity),
        lang: c.lang.clone(),
        released_at: copy_opt(&c.released_at),
        mana_cost: copy_opt(&c.mana_cost),
        cmc: copy_opt(&c.cmc),
        type_line: copy_opt(&c.type_line),
        oracle_text: copy_opt(&c.oracle_text),
        power: copy_opt(&c.power),
        toughness: copy_opt(&c.toughness),
        loyalty: copy_opt(&c.loyalty),
        color_identity: copy_strings(&c.color_identity),
        colors: copy_strings(&c.colors),
        layout: copy_opt(&c.layout),
        prices: CardPrices {
            usd: copy_opt(&c.prices.usd),
            usd_foil: copy_opt(&c.prices.usd_foil),
            usd_etched: copy_opt(&c.prices.usd_etched),
            eur: copy_opt(&c.prices.eur),
            tix: copy_opt(&c.prices.tix),
        },
        legalities,
        has_image: c.has_image,
        drop_name: copy_opt(&c.drop_name),
        drop_slug: copy_opt(&c.drop_slug),
        drop_noun: copy_opt(&c.drop_noun),
        secret_lair_bonus: c.secret_lair_bonus,
        secret_lair_spend_incentive: c.secret_lair_spend_incentive,
        faces,
    }
}

impl Screen {
    /// How many rows the screen lists (0 for a detail pane).
    pub open spec fn spec_list_len(self) -> nat {
        match self {
            Screen::Games { items, .. } => items@.len(),
            Screen::GameMenu { .. } => GAME_MENU_LEN as nat,
            Screen::Sets { items, .. } => items@.len(),
            Screen::Cards { items, .. } => items@.len(),
            Screen::Holdings { items, .. } => items@.len(),
            Screen::Decks { items, .. } => items@.len(),
            _ => 0,
        }
    }

    /// The highlighted row, if any.
    pub open spec fn spec_selection(self) -> Option<usize> {
        match self {
            Screen::Games { selected, .. } => selected,
            Screen::GameMenu { selected, .. } => selected,
            Screen::Sets { selected, .. } => selected,
            Screen::Cards { selected, .. } => selected,
            Screen::Holdings { selected, .. } => selected,
            Screen::Decks { selected, .. } => selected,
            _ => None,
        }
    }

    /// The row a key acts on: the highlighted one, else the first.
    pub open spec fn spec_selected(self) -> usize {
        match self.spec_selection() {
            Some(i) => i,
            None => 0,
        }
    }

    /// The selection is a row of the list, and there is one exactly when the list
    /// has rows.
    pub open spec fn sel_ok(self) -> bool {
        match self.spec_selection() {
            Some(k) => k < self.spec_list_len(),
            None => self.spec_list_len() == 0,
        }
    }

    /// A paged screen's page number, and every held row's counts, can be moved by one.
    pub open spec fn counts_ok(self) -> bool {
        match self {
            Screen::Cards { page, .. } => in_range(page),
            Screen::Holdings { items, page, .. } => in_range(page) && entries_in_range(items@),
            _ => true,
        }
    }

    pub open spec fn wf(self) -> bool {
        self.sel_ok() && self.counts_ok()
    }

    /// The same screen with the selection `sel` (a detail pane has none).
    pub open spec fn spec_with_selection(self, sel: Option<usize>) -> Screen {
        match self {
            Screen::Games { items, .. } => Screen::Games { items, selected: sel },
            Screen::GameMenu { game, .. } => Screen::GameMenu { game, selected: sel },
            Screen::Sets { game, items, .. } => Screen::Sets { game, items, selected: sel },
            Screen::Cards { game, title, source, items, page, total, has_more, .. } => Screen::Cards {
                game,
                title,
                source,
                items,
                page,
                total,
                has_more,
                selected: sel,
            },
            Screen::Holdings { game, surface, items, page, total, has_more, .. } => Screen::Holdings {
                game,
                surface,
                items,
                page,
                total,
                has_more,
                selected: sel,
            },
            Screen::Decks { game, items, .. } => Screen::Decks { game, items, selected: sel },
            other => other,
        }
    }

    pub fn list_len(&self) -> (n: usize)
        ensures
            n == self.spec_list_len(),
    {
        match self {
            Screen::Games { items, .. } => items.len(),
            Screen::GameMenu { .. } => GAME_MENU_LEN,
            Screen::Sets { items, .. } => items.len(),
            Screen::Cards { items, .. } => items.len(),
            Screen::Holdings { items, .. } => items.len(),
            Screen::Decks { items, .. } => items.len(),
            _ => 0,
        }
    }

    pub fn selection(&self) -> (s: Option<usize>)
        ensures
            s == self.spec_selection(),
    {
        match self {
            Screen::Games { selected, .. } => *selected,
            Screen::GameMenu { selected, .. } => *selected,
            Screen::Sets { selected, .. } => *selected,
            Screen::Cards { selected, .. } => *selected,
            Screen::Holdings { selected, .. } => *selected,
            Screen::Decks { selected, .. } => *selected,
            _ => None,
        }
    }

    pub fn selected(&self) -> (i: usize)
        ensures
            i == self.spec_selected(),
    {
        match self.selection() {
            Some(i) => i,
            None => 0,
        }
    }

    /// The same screen with the selection `sel`.
    pub fn with_selection(self, sel: Option<usize>) -> (r: Screen)
        ensures
            r == self.spec_with_selection(sel),
    {
        match self {
            Screen::Games { items, .. } => Screen::Games { items, selected: sel },
            Screen::GameMenu { game, .. } => Screen::GameMenu { game, selected: sel },
            Screen::Sets { game, items, .. } => Screen::Sets { game, items, selected: sel },
            Screen::Cards { game, title, source, items, page, total, has_more, .. } => Screen::Cards {
                game,
                title,
                source,
                items,
                page,
                total,
                has_more,
                selected: sel,
            },
            Screen::Holdings { game, surface, items, page, total, has_more, .. } => Screen::Holdings {
                game,
                surface,
                items,
                page,
                total,
                has_more,
                selected: sel,
            },
            Screen::Decks { game, items, .. } => Screen::Decks { game, items, selected: sel },
            other => other,
        }
    }

    /// The games list.
    pub fn games(items: Vec<Game>) -> (r: Screen)
        ensures
            r == (Screen::Games { items, selected: first_row(items@.len()) }),
            r.wf(),
    {
        let sel = initial_selection(items.len());
        Screen::Games { items, selected: sel }
    }

    /// The per-game action menu.
    pub fn game_menu(game: String) -> (r: Screen)
        ensures
            r == (Screen::GameMenu { game, selected: Some(0usize) }),
            r.wf(),
    {
        Screen::GameMenu { game, selected: Some(0) }
    }

    /// A game's sets.
    pub fn sets(game: String, items: Vec<CardSet>) -> (r: Screen)
        ensures
            r == (Screen::Sets { game, items, selected: first_row(items@.len()) }),
            r.wf(),
    {
        let sel = initial_selection(items.len());
        Screen::Sets { game, items, selected: sel }
    }

    /// One page of cards.
    pub fn cards(game: String, title: String, source: CardSource, page: Page<Card>) -> (r: Screen)
        requires
            in_range(page.page),
        ensures
            r == (Screen::Cards {
                game,
                title,
                source,
                items: page.data,
                page: page.page,
                total: page.total,
                has_more: page.has_more,
                selected: first_row(page.data@.len()),
            }),
            r.wf(),
    {
        let sel = initial_selection(page.data.len());
        Screen::Cards {
            game,
            title,
            source,
            items: page.data,
            page: page.page,
            total: page.total,
            has_more: page.has_more,
            selected: sel,
        }
    }

    /// One page of a holdings surface.
    pub fn holdings(game: String, surface: HoldSurface, page: Page<CollectionEntry>) -> (r: Screen)
        requires
            in_range(page.page),
            entries_in_range(page.data@),
        ensures
            r == (Screen::Holdings {
                game,
                surface,
                items: page.data,
                page: page.page,
                total: page.total,
                has_more: page.has_more,
                selected: first_row(page.data@.len()),
            }),
            r.wf(),
    {
        let sel = initial_selection(page.data.len());
        Screen::Holdings {
            game,
            surface,
            items: page.data,
            page: page.page,
            total: page.total,
            has_more: page.has_more,
            selected: sel,
        }
    }

    /// A game's decks.
    pub fn decks(game: String, items: Vec<Deck>) -> (r: Screen)
        ensures
            r == (Screen::Decks { game, items, selected: first_row(items@.len()) }),
            r.wf(),
    {
        let sel = initial_selection(items.len());
        Screen::Decks { game, items, selected: sel }
    }

    /// One deck in full.
    pub fn deck_detail(deck: DeckDetail) -> (r: Screen)
        ensures
            r == (Screen::DeckDetail { deck }),
            r.wf(),
    {
        Screen::DeckDetail { deck }
    }

    /// Text lines under a title.
    pub fn message(title: String, lines: Vec<String>) -> (r: Screen)
        ensures
            r == (Screen::Message { title, lines }),
            r.wf(),
    {
        Screen::Message { title, lines }
    }
}

/// Whether every held row's counts can be moved by one.
pub fn counts_in_range(items: &[CollectionEntry]) -> (r: bool)
    ensures
        r == entries_in_range(items@),
{
    let mut i: usize = 0;
    while i < items.len()
        invariant
            i <= items@.len(),
            forall|j: int| #![trigger items@[j]] 0 <= j < i ==> in_range(items@[j].quantity) && in_range(items@[j].foil_quantity),
        decreases items.len() - i,
    {
        let e = &items[i];
        if e.quantity == i64::MIN || e.quantity == i64::MAX || e.foil_quantity == i64::MIN || e.foil_quantity
            == i64::MAX {
            assert(!(in_range(items@[i as int].quantity) && in_range(items@[i as int].foil_quantity)));
            return false;
        }
        assert(in_range(items@[i as int].quantity) && in_range(items@[i as int].foil_quantity));
        i += 1;
    }
    true
}

// ---------------------------------------------------------------------------
// The browser
// ---------------------------------------------------------------------------

/// The paging pairs of a browser fetch: the page, sixty rows to a page.
pub open spec fn page_pairs(page: i64) -> Seq<(Seq<char>, Seq<char>)> {
    seq![("page"@, dec_int(page as int)), ("page_size"@, "60"@)]
}

fn page_query(page: i64) -> (q: Query)
    ensures
        query_view(q@) == page_pairs(page),
{
    let q: Query = vec![("page", fmt_i64(page)), ("page_size", String::from_str("60"))];
    assert(query_view(q@) =~= page_pairs(page));
    q
}

/// The request for one page of a Cards screen: the set's card route (with the
/// search text, if any) or the game's card search.
pub fn cards_request(game: &str, source: &CardSource, page: i64) -> (r: (String, Query))
    ensures
        match *source {
            CardSource::InSet { code, query } => {
                &&& r.0@ == "/api/games/"@ + game@ + "/sets/"@ + code@ + "/cards"@
                &&& query_view(r.1@) == page_pairs(page) + opt_pair("q", query)
            },
            CardSource::Search { query } => {
                &&& r.0@ == "/api/games/"@ + game@ + "/cards"@
                &&& query_view(r.1@) == page_pairs(page) + seq![("q"@, query@)]
            },
        },
{
    let mut q = page_query(page);
    let mut path = String::from_str("/api/games/");
    path.append(game);
    match source {
        CardSource::InSet { code, query } => {
            path.append("/sets/");
            path.append(code.as_str());
            path.append("/cards");
            push_opt(&mut q, "q", query);
        },
        CardSource::Search { query } => {
            path.append("/cards");
            let ghost before = q@;
            q.push(("q", query.clone()));
            assert(query_view(q@) =~= query_view(before) + seq![("q"@, query@)]);
        },
    }
    (path, q)
}

/// The request for one page of a Holdings screen.
pub fn holdings_request(game: &str, surface: HoldSurface, page: i64) -> (r: (String, Query))
    ensures
        r.0@ == surface.spec_base(game@),
        query_view(r.1@) == page_pairs(page),
{
    (surface.base(game), page_query(page))
}

/// What the search overlay's text is for.
pub enum InputPurpose {
    SearchCards { game: String },
}

/// The active text-entry overlay (card search).
pub struct InputState {
    pub prompt: String,
    pub value: String,
    pub purpose: InputPurpose,
}

impl InputState {
    /// The game the search runs in.
    pub open spec fn spec_game(self) -> String {
        match self.purpose {
            InputPurpose::SearchCards { game } => game,
        }
    }
}

/// A key the browser reacts to (everything else is `Other`).
pub enum Key {
    Char(char),
    Enter,
    Esc,
    Backspace,
    Left,
    Right,
    Up,
    Down,
    PageUp,
    PageDown,
    Other,
}

/// The fetch or write a key asks the terminal loop for.
pub enum Command {
    Nothing,
    /// Fetch the game's sets and push a Sets screen.
    LoadSets { game: String },
    /// Fetch one page of cards; push a Cards screen, or redraw the top one in place.
    /// A failed search is reported in the status line rather than ending the session.
    LoadCards { game: String, title: String, source: CardSource, page: i64, push: bool, from_search: bool },
    /// Fetch one page of a holdings surface; push, or redraw in place.
    LoadHoldings { game: String, surface: HoldSurface, page: i64, push: bool },
    /// Fetch the game's decks and push a Decks screen.
    LoadDecks { game: String },
    /// Fetch one deck and push its detail.
    LoadDeckDetail { game: String, deck_id: i64 },
    /// Read the signed-in account and push the Account screen.
    LoadAccount,
    /// Read a card's counts on a surface, write them back moved by `delta` (never
    /// below zero), then show `done`.
    ApplyDelta { base: String, card_id: String, delta: i64, foil: bool, done: String },
    /// Write a card's counts on a surface and reflect the echo into the highlighted
    /// holdings row `row`, then show `done` if there is one.
    PutCounts { base: String, card_id: String, quantity: i64, foil_quantity: i64, row: usize, done: Option<String> },
}

/// The browser's whole state.
pub struct Tui {
    pub base_url: String,
    pub authed: bool,
    pub stack: ScreenStack<Screen>,
    pub status: String,
    pub input: Option<InputState>,
    pub should_quit: bool,
}

/// The selection move a navigation key makes.
pub open spec fn nav_delta(key: Key) -> Option<i64> {
    match key {
        Key::Up => Some(-1i64),
        Key::Down => Some(1i64),
        Key::PageUp => Some(-10i64),
        Key::PageDown => Some(10i64),
        Key::Char(c) => if c == 'k' {
            Some(-1i64)
        } else if c == 'j' {
            Some(1i64)
        } else {
            None
        },
        _ => None,
    }
}

/// The count change an edit key makes: `(delta, foil)`.
pub open spec fn edit_delta(key: Key) -> Option<(i64, bool)> {
    match key {
        Key::Char(c) => if c == '+' || c == '=' {
            Some((1i64, false))
        } else if c == '-' || c == '_' {
            Some((-1i64, false))
        } else if c == 'f' {
            Some((1i64, true))
        } else if c == 'F' {
            Some((-1i64, true))
        } else {
            None
        },
        _ => None,
    }
}

/// A screen after a selection move of `delta`: clamped to the list, and nothing
/// changes on an empty list.
pub open spec fn moved(top: Screen, delta: i64) -> Screen {
    match spec_move(top.spec_list_len(), top.spec_selected() as nat, delta as int) {
        Some(i) => top.spec_with_selection(Some(i as usize)),
        None => top,
    }
}

/// The title of a search's Cards screen.
pub open spec fn search_title(game: Seq<char>, query: Seq<char>) -> Seq<char> {
    game + " \u{b7} search \u{201c}"@ + query + "\u{201d}"@
}

/// The title of a set's Cards screen.
pub open spec fn set_title(game: Seq<char>, code: Seq<char>) -> Seq<char> {
    game + " \u{b7} "@ + str_upper(code)
}

/// The prompt of the card search overlay.
pub open spec fn search_prompt(game: Seq<char>) -> Seq<char> {
    "Search "@ + game + " cards (Scryfall syntax): "@
}

/// The help screen's lines.
pub open spec fn help_lines() -> Seq<Seq<char>> {
    seq![
        "\u{2191}/\u{2193} or j/k   move"@,
        "Enter / \u{2192}    open / descend"@,
        "Esc / \u{2190} / \u{232b}  go back"@,
        "n / p        next / previous page"@,
        "/            (on card lists) search \u{2014} via the menu"@,
        "+ / -        adjust owned/wanted regular count"@,
        "f / F        adjust foil count (+ / -)"@,
        "w            add card to wish list"@,
        "r            remove highlighted holding"@,
        "q            quit"@,
    ]
}

impl Tui {
    /// The screens, bottom first.
    pub open spec fn screens(self) -> Seq<Screen> {
        self.stack.spec_screens()
    }

    /// The screen on top.
    pub open spec fn spec_top(self) -> Screen {
        self.screens().last()
    }

    /// Every screen's selection is on its list and every count can be moved.
    pub open spec fn wf(self) -> bool {
        forall|i: int| 0 <= i < self.screens().len() ==> #[trigger] self.screens()[i].wf()
    }

    /// Only the screens changed, to `screens`.
    pub open spec fn only_screens(old: Tui, new: Tui, screens: Seq<Screen>) -> bool {
        &&& new.screens() == screens
        &&& new.status == old.status
        &&& new.input == old.input
        &&& new.should_quit == old.should_quit
    }

    /// Only the status line changed, to `msg`.
    pub open spec fn only_status(old: Tui, new: Tui, msg: Seq<char>) -> bool {
        &&& new.screens() == old.screens()
        &&& new.status@ == msg
        &&& new.input == old.input
        &&& new.should_quit == old.should_quit
    }

    /// Nothing changed.
    pub open spec fn unchanged(old: Tui, new: Tui) -> bool {
        Tui::only_screens(old, new, old.screens())
    }

    /// What a key does while the search overlay is open.
    pub open spec fn input_step(old: Tui, key: Key, new: Tui, c: Command) -> bool {
        let inp = old.input->0;
        &&& new.screens() == old.screens()
        &&& new.should_quit == old.should_quit
        &&& match key {
            Key::Enter => new.input is None && if spec_trim(inp.value@).len() == 0 {
                new.status@ == "Search cancelled."@ && c is Nothing
            } else {
                &&& new.status == old.status
                &&& c matches Command::LoadCards { game, title, source, page, push, from_search }
                &&& game == inp.spec_game()
                &&& source matches CardSource::Search { query }
                &&& query == inp.value
                &&& title@ == search_title(inp.spec_game()@, inp.value@)
                &&& page == 1 && push && from_search
            },
            Key::Esc => new.input is None && new.status@ == "Cancelled."@ && c is Nothing,
            Key::Backspace => {
                &&& new.status == old.status && c is Nothing
                &&& new.input matches Some(n)
                &&& n.prompt == inp.prompt && n.purpose == inp.purpose
                &&& n.value@ == (if inp.value@.len() > 0 {
                    inp.value@.drop_last()
                } else {
                    inp.value@
                })
            },
            Key::Char(ch) => {
                &&& new.status == old.status && c is Nothing
                &&& new.input matches Some(n)
                &&& n.prompt == inp.prompt && n.purpose == inp.purpose
                &&& n.value@ == inp.value@.push(ch)
            },
            _ => new.status == old.status && new.input == old.input && c is Nothing,
        }
    }

    /// What Enter does on the game menu's row `idx` for `game`.
    pub open spec fn menu_step(old: Tui, new: Tui, c: Command, game: String, idx: usize) -> bool {
        if idx == 0 {
            Tui::unchanged(old, new) && c == Command::LoadSets { game }
        } else if idx == 1 {
            &&& new.screens() == old.screens() && new.status == old.status && new.should_quit == old.should_quit
            &&& c is Nothing
            &&& new.input matches Some(n)
            &&& n.prompt@ == search_prompt(game@) && n.value@.len() == 0
            &&& n.purpose == InputPurpose::SearchCards { game }
        } else if idx == 2 || idx == 3 {
            let surface = if idx == 2 { HoldSurface::Collection } else { HoldSurface::Wishlist };
            if old.authed {
                Tui::unchanged(old, new) && c == Command::LoadHoldings { game, surface, page: 1, push: true }
            } else {
                Tui::only_status(old, new, sign_in_to_view(surface)) && c is Nothing
            }
        } else if idx == 4 {
            if old.authed {
                Tui::unchanged(old, new) && c == Command::LoadDecks { game }
            } else {
                Tui::only_status(old, new, "Sign in to view your decks."@) && c is Nothing
            }
        } else if idx == 5 {
            Tui::unchanged(old, new) && c is LoadAccount
        } else {
            Tui::unchanged(old, new) && c is Nothing
        }
    }

    /// What Enter (or Right) does on the top screen.
    pub open spec fn enter_step(old: Tui, new: Tui, c: Command) -> bool {
        let top = old.spec_top();
        let idx = top.spec_selected();
        match top {
            Screen::Games { items, .. } => if idx < items@.len() {
                Tui::only_screens(old, new, old.screens().push(Screen::GameMenu { game: items@[idx as int].id, selected: Some(0usize) }))
                    && c is Nothing
            } else {
                Tui::unchanged(old, new) && c is Nothing
            },
            Screen::GameMenu { game, .. } => Tui::menu_step(old, new, c, game, idx),
            Screen::Sets { game, items, .. } => if idx < items@.len() {
                &&& Tui::unchanged(old, new)
                &&& c matches Command::LoadCards { game: g, title, source, page, push, from_search }
                &&& g == game && title@ == set_title(game@, items@[idx as int].code@)
                &&& source matches CardSource::InSet { code, query }
                &&& code == items@[idx as int].code && query is None
                &&& page == 1 && push && !from_search
            } else {
                Tui::unchanged(old, new) && c is Nothing
            },
            Screen::Cards { items, .. } => if idx < items@.len() {
                &&& new.screens().len() == old.screens().len() + 1
                &&& new.screens().drop_last() == old.screens()
                &&& new.spec_top() matches Screen::CardDetail { card } && same_card(card, items@[idx as int])
                &&& new.status == old.status && new.input == old.input && new.should_quit == old.should_quit
                &&& c is Nothing
            } else {
                Tui::unchanged(old, new) && c is Nothing
            },
            Screen::Holdings { items, .. } => if idx < items@.len() {
                &&& new.screens().len() == old.screens().len() + 1
                &&& new.screens().drop_last() == old.screens()
                &&& new.spec_top() matches Screen::CardDetail { card } && same_card(card, items@[idx as int].card)
                &&& new.status == old.status && new.input == old.input && new.should_quit == old.should_quit
                &&& c is Nothing
            } else {
                Tui::unchanged(old, new) && c is Nothing
            },
            Screen::Decks { game, items, .. } => if idx < items@.len() {
                Tui::unchanged(old, new) && c == Command::LoadDeckDetail { game, deck_id: items@[idx as int].id }
            } else {
                Tui::unchanged(old, new) && c is Nothing
            },
            _ => Tui::unchanged(old, new) && c is Nothing,
        }
    }

    /// What `n` (`delta` 1) and `p` (`delta` -1) do.
    pub open spec fn page_step(old: Tui, new: Tui, c: Command, delta: i64) -> bool {
        match old.spec_top() {
            Screen::Cards { game, title, source, page, has_more, .. } => match spec_page_target(page, delta, has_more) {
                None => Tui::only_status(old, new, "No more pages."@) && c is Nothing,
                Some(p) => {
                    &&& Tui::unchanged(old, new)
                    &&& c matches Command::LoadCards { game: g, title: t, source: s, page: q, push, from_search }
                    &&& g == game && t == title && same_source(s, source)
                    &&& q == p && !push && !from_search
                },
            },
            Screen::Holdings { game, surface, page, has_more, .. } => match spec_page_target(page, delta, has_more) {
                None => Tui::only_status(old, new, "No more pages."@) && c is Nothing,
                Some(p) => if old.authed {
                    Tui::unchanged(old, new) && c == Command::LoadHoldings { game, surface, page: p as i64, push: false }
                } else {
                    Tui::only_status(old, new, sign_in_to_view(surface)) && c is Nothing
                },
            },
            _ => Tui::unchanged(old, new) && c is Nothing,
        }
    }

    /// What an edit key moving the regular (`foil` false) or foil count by `delta` does.
    pub open spec fn edit_step(old: Tui, new: Tui, c: Command, delta: i64, foil: bool) -> bool {
        let top = old.spec_top();
        let idx = top.spec_selected();
        if !old.authed {
            Tui::only_status(old, new, "Sign in to edit holdings."@) && c is Nothing
        } else {
            match top {
                Screen::Cards { game, items, .. } => if idx < items@.len() {
                    &&& Tui::unchanged(old, new)
                    &&& c matches Command::ApplyDelta { base, card_id, delta: d, foil: f, done }
                    &&& base@ == HoldSurface::Collection.spec_base(game@) && card_id == items@[idx as int].id
                    &&& d == delta && f == foil
                    &&& done@ == "Updated "@ + items@[idx as int].name@ + " in collection."@
                } else {
                    Tui::unchanged(old, new) && c is Nothing
                },
                Screen::Holdings { game, surface, items, .. } => if idx < items@.len() {
                    let e = items@[idx as int];
                    &&& Tui::unchanged(old, new)
                    &&& c matches Command::PutCounts { base, card_id, quantity, foil_quantity, row, done }
                    &&& base@ == surface.spec_base(game@) && card_id == e.card.id
                    &&& (quantity as int, foil_quantity as int) == spec_adjusted(e.quantity, e.foil_quantity, delta, foil)
                    &&& row == idx && done is None
                } else {
                    Tui::unchanged(old, new) && c is Nothing
                },
                _ => Tui::unchanged(old, new) && c is Nothing,
            }
        }
    }

    /// What `w` does.
    pub open spec fn wish_step(old: Tui, new: Tui, c: Command) -> bool {
        let top = old.spec_top();
        let idx = top.spec_selected();
        if !old.authed {
            Tui::only_status(old, new, "Sign in to edit the wish list."@) && c is Nothing
        } else {
            match top {
                Screen::Cards { game, items, .. } => if idx < items@.len() {
                    &&& Tui::unchanged(old, new)
                    &&& c matches Command::ApplyDelta { base, card_id, delta, foil, done }
                    &&& base@ == HoldSurface::Wishlist.spec_base(game@) && card_id == items@[idx as int].id
                    &&& delta == 1 && !foil
                    &&& done@ == "Added "@ + items@[idx as int].name@ + " to the wish list."@
                } else {
                    Tui::unchanged(old, new) && c is Nothing
                },
                _ => Tui::unchanged(old, new) && c is Nothing,
            }
        }
    }

    /// What `r` does.
    pub open spec fn remove_step(old: Tui, new: Tui, c: Command) -> bool {
        let top = old.spec_top();
        let idx = top.spec_selected();
        if !old.authed {
            Tui::unchanged(old, new) && c is Nothing
        } else {
            match top {
                Screen::Holdings { game, surface, items, .. } => if idx < items@.len() {
                    &&& Tui::unchanged(old, new)
                    &&& c matches Command::PutCounts { base, card_id, quantity, foil_quantity, row, done }
                    &&& base@ == surface.spec_base(game@) && card_id == items@[idx as int].card.id
                    &&& quantity == 0 && foil_quantity == 0 && row == idx
                    &&& done matches Some(m) && m@ == "Removed."@
                } else {
                    Tui::unchanged(old, new) && c is Nothing
                },
                _ => Tui::unchanged(old, new) && c is Nothing,
            }
        }
    }

    /// What a key does with no overlay open.
    pub open spec fn key_step(old: Tui, key: Key, new: Tui, c: Command) -> bool {
        if key == Key::Char('q') {
            new.screens() == old.screens() && new.status == old.status && new.input == old.input && new.should_quit
                && c is Nothing
        } else if key == Key::Char('?') {
            &&& new.screens().len() == old.screens().len() + 1
            &&& new.screens().drop_last() == old.screens()
            &&& new.spec_top() matches Screen::Message { title, lines }
            &&& title@ == "Help"@ && views(lines@) == help_lines()
            &&& new.status == old.status && new.input == old.input && new.should_quit == old.should_quit
            &&& c is Nothing
        } else if key is Esc || key is Backspace || key is Left {
            c is Nothing && if old.screens().len() > 1 {
                Tui::only_screens(old, new, old.screens().drop_last())
            } else {
                Tui::only_status(old, new, "Press q to quit."@)
            }
        } else if nav_delta(key) is Some {
            c is Nothing && Tui::only_screens(
                old,
                new,
                old.screens().update(old.screens().len() - 1, moved(old.spec_top(), nav_delta(key)->0)),
            )
        } else if key is Enter || key is Right {
            Tui::enter_step(old, new, c)
        } else if key == Key::Char('n') {
            Tui::page_step(old, new, c, 1i64)
        } else if key == Key::Char('p') {
            Tui::page_step(old, new, c, -1i64)
        } else if edit_delta(key) is Some {
            let e = edit_delta(key)->0;
            Tui::edit_step(old, new, c, e.0, e.1)
        } else if key == Key::Char('r') {
            Tui::remove_step(old, new, c)
        } else if key == Key::Char('w') {
            Tui::wish_step(old, new, c)
        } else {
            Tui::unchanged(old, new) && c is Nothing
        }
    }
}

/// "Sign in to view your collection." / "... wish list."
pub open spec fn sign_in_to_view(surface: HoldSurface) -> Seq<char> {
    match surface {
        HoldSurface::Collection => "Sign in to view your collection."@,
        HoldSurface::Wishlist => "Sign in to view your wish list."@,
    }
}

/// Two card sources that fetch the same cards.
pub open spec fn same_source(a: CardSource, b: CardSource) -> bool {
    match (a, b) {
        (CardSource::InSet { code: c1, query: q1 }, CardSource::InSet { code: c2, query: q2 }) => c1 == c2 && q1 == q2,
        (CardSource::Search { query: q1 }, CardSource::Search { query: q2 }) => q1 == q2,
        _ => false,
    }
}

/// Changing anything but the screens keeps the browser well formed.
pub proof fn lemma_wf_same_screens(a: Tui, b: Tui)
    requires
        a.wf(),
        b.screens() == a.screens(),
    ensures
        b.wf(),
{
    assert forall|i: int| 0 <= i < b.screens().len() implies #[trigger] b.screens()[i].wf() by {
        assert(a.screens()[i].wf());
    }
}

/// A selection move keeps a screen well formed.
pub proof fn lemma_moved_wf(top: Screen, delta: i64)
    requires
        top.wf(),
    ensures
        moved(top, delta).wf(),
        moved(top, delta).spec_list_len() == top.spec_list_len(),
{
    super::move_stays_on_list(top.spec_list_len(), top.spec_selected() as nat, delta as int);
}

impl Tui {
    /// The browser with its top screen replaced by a well-formed one stays well formed.
    pub proof fn lemma_wf_update_top(a: Tui, b: Tui, s: Screen)
        requires
            a.wf(),
            s.wf(),
            b.screens() == a.screens().update(a.screens().len() - 1, s),
        ensures
            b.wf(),
    {
        assert forall|i: int| 0 <= i < b.screens().len() implies #[trigger] b.screens()[i].wf() by {
            if i != a.screens().len() - 1 {
                assert(a.screens()[i].wf());
            }
        }
    }
}

/// A list row after a write echoed `q` for the highlighted holdings row `row`:
/// zeroed rows go and the selection follows, other rows take the new counts.
pub open spec fn row_updated(old_top: Screen, new_top: Screen, row: usize, q: CollectionQuantities) -> bool {
    match old_top {
        Screen::Holdings { game, surface, items, page, total, has_more, selected } => if row >= items@.len() {
            new_top == old_top
        } else {
            &&& new_top matches Screen::Holdings {
                game: g2,
                surface: s2,
                items: i2,
                page: p2,
                total: t2,
                has_more: h2,
                selected: sel2,
            }
            &&& g2 == game && s2 == surface && p2 == page && t2 == total && h2 == has_more
            &&& if q.quantity == 0 && q.foil_quantity == 0 {
                &&& i2@ == items@.remove(row as int)
                &&& sel2 == (if items@.len() == 1 {
                    None
                } else if row < items@.len() - 1 {
                    Some(row)
                } else {
                    Some((items@.len() - 2) as usize)
                })
            } else {
                &&& i2@.len() == items@.len()
                &&& forall|j: int| 0 <= j < items@.len() && j != row ==> #[trigger] i2@[j] == items@[j]
                &&& i2@[row as int].card == items@[row as int].card
                &&& i2@[row as int].quantity == q.quantity && i2@[row as int].foil_quantity == q.foil_quantity
                &&& sel2 == selected
            }
        },
        _ => new_top == old_top,
    }
}

/// A string without its last character.
fn without_last(s: &String) -> (r: String)
    ensures
        r@ == (if s@.len() > 0 {
            s@.drop_last()
        } else {
            s@
        }),
{
    let cs = chars_of(s.as_str());
    if cs.len() == 0 {
        return String::new();
    }
    let head = crate::text::slice_chars(cs.as_slice(), 0, cs.len() - 1);
    assert(head@ =~= s@.drop_last());
    crate::text::string_from_chars(head.as_slice())
}

/// A copy of a card source.
fn copy_source(src: &CardSource) -> (r: CardSource)
    ensures
        same_source(r, *src),
{
    match src {
        CardSource::InSet { code, query } => {
            let q = match query {
                Some(x) => Some(x.clone()),
                None => None,
            };
            CardSource::InSet { code: code.clone(), query: q }
        },
        CardSource::Search { query } => CardSource::Search { query: query.clone() },
    }
}

/// A screen standing in for the top while it is taken off to be edited.
fn placeholder() -> (r: Screen)
    ensures
        r.wf(),
{
    Screen::Account { lines: Vec::new() }
}

impl Tui {
    /// The browser as it opens: the games list (or why it could not be read),
    /// with the key hints in the status line.
    pub fn new(base_url: String, authed: bool, games: Result<Vec<Game>, String>) -> (t: Tui)
        ensures
            t.wf(),
            t.base_url == base_url,
            t.authed == authed,
            t.input is None,
            !t.should_quit,
            t.screens().len() == 1,
            match games {
                Ok(items) => {
                    &&& t.spec_top() == (Screen::Games { items, selected: first_row(items@.len()) })
                    &&& t.status@ == "\u{2191}/\u{2193} move \u{b7} Enter open \u{b7} q quit \u{b7} ? help"@
                },
                Err(e) => {
                    &&& t.spec_top() matches Screen::Message { title, lines }
                    &&& title@ == "Could not load games"@
                    &&& views(lines@) == seq![e@, Seq::<char>::empty(), "Press q to quit."@]
                    &&& t.status@.len() == 0
                },
            },
    {
        match games {
            Ok(items) => {
                let screen = Screen::games(items);
                let t = Tui {
                    base_url,
                    authed,
                    stack: ScreenStack::new(screen),
                    status: String::from_str("\u{2191}/\u{2193} move \u{b7} Enter open \u{b7} q quit \u{b7} ? help"),
                    input: None,
                    should_quit: false,
                };
                assert(t.screens()[0] == t.spec_top());
                t
            },
            Err(e) => {
                let mut lines: Vec<String> = Vec::new();
                lines.push(e);
                lines.push(String::new());
                lines.push(String::from_str("Press q to quit."));
                assert(views(lines@) =~= seq![e@, Seq::<char>::empty(), "Press q to quit."@]);
                let screen = Screen::message(String::from_str("Could not load games"), lines);
                let t = Tui {
                    base_url,
                    authed,
                    stack: ScreenStack::new(screen),
                    status: String::new(),
                    input: None,
                    should_quit: false,
                };
                assert(t.screens()[0] == t.spec_top());
                t
            },
        }
    }

    /// The screen on top.
    pub fn top(&self) -> (r: &Screen)
        ensures
            *r == self.spec_top(),
    {
        self.stack.top()
    }

    /// Show a fetched screen: pushed on top, or in place of the top one.
    pub fn show(&mut self, screen: Screen, push: bool)
        requires
            old(self).wf(),
            screen.wf(),
        ensures
            final(self).wf(),
            final(self).authed == old(self).authed,
            final(self).base_url == old(self).base_url,
            push ==> Tui::only_screens(*old(self), *final(self), old(self).screens().push(screen)),
            !push ==> Tui::only_screens(
                *old(self),
                *final(self),
                old(self).screens().update(old(self).screens().len() - 1, screen),
            ),
    {
        if push {
            self.stack.push(screen);
        } else {
            let _ = self.stack.swap_top(screen);
        }
        assert forall|i: int| 0 <= i < self.screens().len() implies #[trigger] self.screens()[i].wf() by {
            if i < old(self).screens().len() && !(i == old(self).screens().len() - 1 && !push) {
                assert(self.screens()[i] == old(self).screens()[i]);
            }
        }
    }

    /// Replace the status line.
    pub fn set_status(&mut self, msg: String)
        requires
            old(self).wf(),
        ensures
            final(self).wf(),
            final(self).authed == old(self).authed,
            final(self).base_url == old(self).base_url,
            Tui::only_status(*old(self), *final(self), msg@),
    {
        self.status = msg;
        proof {
            lemma_wf_same_screens(*old(self), *self);
        }
    }

    fn status_is(&mut self, msg: &str)
        requires
            old(self).wf(),
        ensures
            final(self).wf(),
            final(self).authed == old(self).authed,
            final(self).base_url == old(self).base_url,
            Tui::only_status(*old(self), *final(self), msg@),
    {
        self.status = String::from_str(msg);
        proof {
            lemma_wf_same_screens(*old(self), *self);
        }
    }

    fn push_screen(&mut self, screen: Screen)
        requires
            old(self).wf(),
            screen.wf(),
        ensures
            final(self).wf(),
            final(self).authed == old(self).authed,
            final(self).base_url == old(self).base_url,
            Tui::only_screens(*old(self), *final(self), old(self).screens().push(screen)),
    {
        self.show(screen, true);
    }

    /// Move the top list's selection by `delta`.
    fn move_top(&mut self, delta: i64)
        requires
            old(self).wf(),
        ensures
            final(self).wf(),
            final(self).authed == old(self).authed,
            final(self).base_url == old(self).base_url,
            Tui::only_screens(
                *old(self),
                *final(self),
                old(self).screens().update(old(self).screens().len() - 1, moved(old(self).spec_top(), delta)),
            ),
    {
        let len = self.stack.top().list_len();
        let cur = self.stack.top().selected();
        proof {
            assert(old(self).screens()[old(self).screens().len() - 1].wf());
            lemma_moved_wf(old(self).spec_top(), delta);
        }
        match move_selection(len, cur, delta) {
            Some(next) => {
                let t = self.stack.swap_top(placeholder());
                let t2 = t.with_selection(Some(next));
                assert(t2 == moved(old(self).spec_top(), delta));
                let _ = self.stack.swap_top(t2);
                assert(self.screens() =~= old(self).screens().update(
                    old(self).screens().len() - 1,
                    moved(old(self).spec_top(), delta),
                ));
            },
            None => {
                assert(moved(old(self).spec_top(), delta) == old(self).spec_top());
                assert(old(self).screens().update(old(self).screens().len() - 1, old(self).spec_top()) =~= old(
                    self,
                ).screens());
            },
        }
        proof {
            Tui::lemma_wf_update_top(*old(self), *self, moved(old(self).spec_top(), delta));
        }
    }

    /// The holdings fetch a surface asks for, or the sign-in note.
    fn holdings_command(&mut self, game: String, surface: HoldSurface, page: i64, push: bool) -> (c: Command)
        requires
            old(self).wf(),
        ensures
            final(self).wf(),
            final(self).authed == old(self).authed,
            final(self).base_url == old(self).base_url,
            old(self).authed ==> Tui::unchanged(*old(self), *final(self)) && c == (Command::LoadHoldings {
                game,
                surface,
                page,
                push,
            }),
            !old(self).authed ==> Tui::only_status(*old(self), *final(self), sign_in_to_view(surface)) && c is Nothing,
    {
        if self.authed {
            Command::LoadHoldings { game, surface, page, push }
        } else {
            match surface {
                HoldSurface::Collection => self.status_is("Sign in to view your collection."),
                HoldSurface::Wishlist => self.status_is("Sign in to view your wish list."),
            }
            Command::Nothing
        }
    }

    fn open_menu_item(&mut self, game: String, idx: usize) -> (c: Command)
        requires
            old(self).wf(),
        ensures
            final(self).wf(),
            final(self).authed == old(self).authed,
            final(self).base_url == old(self).base_url,
            Tui::menu_step(*old(self), *final(self), c, game, idx),
    {
        if idx == 0 {
            Command::LoadSets { game }
        } else if idx == 1 {
            let mut prompt = String::from_str("Search ");
            prompt.append(game.as_str());
            prompt.append(" cards (Scryfall syntax): ");
            self.input = Some(InputState { prompt, value: String::new(), purpose: InputPurpose::SearchCards { game } });
            proof {
                lemma_wf_same_screens(*old(self), *self);
            }
            Command::Nothing
        } else if idx == 2 {
            self.holdings_command(game, HoldSurface::Collection, 1, true)
        } else if idx == 3 {
            self.holdings_command(game, HoldSurface::Wishlist, 1, true)
        } else if idx == 4 {
            if self.authed {
                Command::LoadDecks { game }
            } else {
                self.status_is("Sign in to view your decks.");
                Command::Nothing
            }
        } else if idx == 5 {
            Command::LoadAccount
        } else {
            Command::Nothing
        }
    }

    fn on_enter(&mut self) -> (c: Command)
        requires
            old(self).wf(),
        ensures
            final(self).wf(),
            final(self).authed == old(self).authed,
            final(self).base_url == old(self).base_url,
            Tui::enter_step(*old(self), *final(self), c),
    {
        let idx = self.stack.top().selected();
        match self.stack.top() {
            Screen::Games { items, .. } => {
                if idx < items.len() {
                    let game = items[idx].id.clone();
                    self.push_screen(Screen::game_menu(game));
                }
                Command::Nothing
            },
            Screen::GameMenu { game, .. } => {
                let g = game.clone();
                self.open_menu_item(g, idx)
            },
            Screen::Sets { game, items, .. } => {
                if idx < items.len() {
                    let code = items[idx].code.clone();
                    let mut title = game.clone();
                    title.append(" \u{b7} ");
                    let up = to_upper(code.as_str());
                    title.append(up.as_str());
                    Command::LoadCards {
                        game: game.clone(),
                        title,
                        source: CardSource::InSet { code, query: None },
                        page: 1,
                        push: true,
                        from_search: false,
                    }
                } else {
                    Command::Nothing
                }
            },
            Screen::Cards { items, .. } => {
                if idx < items.len() {
                    let card = copy_card(&items[idx]);
                    self.push_screen(Screen::CardDetail { card });
                    assert(self.screens().drop_last() =~= old(self).screens());
                }
                Command::Nothing
            },
            Screen::Holdings { items, .. } => {
                if idx < items.len() {
                    let card = copy_card(&items[idx].card);
                    self.push_screen(Screen::CardDetail { card });
                    assert(self.screens().drop_last() =~= old(self).screens());
                }
                Command::Nothing
            },
            Screen::Decks { game, items, .. } => {
                if idx < items.len() {
                    Command::LoadDeckDetail { game: game.clone(), deck_id: items[idx].id }
                } else {
                    Command::Nothing
                }
            },
            _ => Command::Nothing,
        }
    }

    fn page(&mut self, delta: i64) -> (c: Command)
        requires
            old(self).wf(),
            delta == 1 || delta == -1,
        ensures
            final(self).wf(),
            final(self).authed == old(self).authed,
            final(self).base_url == old(self).base_url,
            Tui::page_step(*old(self), *final(self), c, delta),
    {
        proof {
            assert(old(self).screens()[old(self).screens().len() - 1].wf());
        }
        match self.stack.top() {
            Screen::Cards { game, title, source, page, has_more, .. } => {
                match page_target(*page, delta, *has_more) {
                    None => {
                        self.status_is("No more pages.");
                        Command::Nothing
                    },
                    Some(p) => Command::LoadCards {
                        game: game.clone(),
                        title: title.clone(),
                        source: copy_source(source),
                        page: p,
                        push: false,
                        from_search: false,
                    },
                }
            },
            Screen::Holdings { game, surface, page, has_more, .. } => {
                match page_target(*page, delta, *has_more) {
                    None => {
                        self.status_is("No more pages.");
                        Command::Nothing
                    },
                    Some(p) => {
                        let g = game.clone();
                        let s = *surface;
                        self.holdings_command(g, s, p, false)
                    },
                }
            },
            _ => Command::Nothing,
        }
    }

    fn edit(&mut self, delta: i64, foil: bool) -> (c: Command)
        requires
            old(self).wf(),
            delta == 1 || delta == -1,
        ensures
            final(self).wf(),
            final(self).authed == old(self).authed,
            final(self).base_url == old(self).base_url,
            Tui::edit_step(*old(self), *final(self), c, delta, foil),
    {
        if !self.authed {
            self.status_is("Sign in to edit holdings.");
            return Command::Nothing;
        }
        proof {
            assert(old(self).screens()[old(self).screens().len() - 1].wf());
        }
        let idx = self.stack.top().selected();
        match self.stack.top() {
            Screen::Cards { game, items, .. } => {
                if idx < items.len() {
                    let mut done = String::from_str("Updated ");
                    done.append(items[idx].name.as_str());
                    done.append(" in collection.");
                    Command::ApplyDelta {
                        base: HoldSurface::Collection.base(game.as_str()),
                        card_id: items[idx].id.clone(),
                        delta,
                        foil,
                        done,
                    }
                } else {
                    Command::Nothing
                }
            },
            Screen::Holdings { game, surface, items, .. } => {
                if idx < items.len() {
                    let e = &items[idx];
                    assert(in_range(items@[idx as int].quantity) && in_range(items@[idx as int].foil_quantity));
                    let (quantity, foil_quantity) = adjusted_counts(e.quantity, e.foil_quantity, delta, foil);
                    Command::PutCounts {
                        base: surface.base(game.as_str()),
                        card_id: e.card.id.clone(),
                        quantity,
                        foil_quantity,
                        row: idx,
                        done: None,
                    }
                } else {
                    Command::Nothing
                }
            },
            _ => Command::Nothing,
        }
    }

    fn wish(&mut self) -> (c: Command)
        requires
            old(self).wf(),
        ensures
            final(self).wf(),
            final(self).authed == old(self).authed,
            final(self).base_url == old(self).base_url,
            Tui::wish_step(*old(self), *final(self), c),
    {
        if !self.authed {
            self.status_is("Sign in to edit the wish list.");
            return Command::Nothing;
        }
        let idx = self.stack.top().selected();
        match self.stack.top() {
            Screen::Cards { game, items, .. } => {
                if idx < items.len() {
                    let mut done = String::from_str("Added ");
                    done.append(items[idx].name.as_str());
                    done.append(" to the wish list.");
                    Command::ApplyDelta {
                        base: HoldSurface::Wishlist.base(game.as_str()),
                        card_id: items[idx].id.clone(),
                        delta: 1,
                        foil: false,
                        done,
                    }
                } else {
                    Command::Nothing
                }
            },
            _ => Command::Nothing,
        }
    }

    fn remove(&mut self) -> (c: Command)
        requires
            old(self).wf(),
        ensures
            final(self).wf(),
            final(self).authed == old(self).authed,
            final(self).base_url == old(self).base_url,
            Tui::remove_step(*old(self), *final(self), c),
    {
        if !self.authed {
            return Command::Nothing;
        }
        let idx = self.stack.top().selected();
        match self.stack.top() {
            Screen::Holdings { game, surface, items, .. } => {
                if idx < items.len() {
                    Command::PutCounts {
                        base: surface.base(game.as_str()),
                        card_id: items[idx].card.id.clone(),
                        quantity: 0,
                        foil_quantity: 0,
                        row: idx,
                        done: Some(String::from_str("Removed.")),
                    }
                } else {
                    Command::Nothing
                }
            },
            _ => Command::Nothing,
        }
    }

    fn on_input_key(&mut self, key: Key) -> (c: Command)
        requires
            old(self).wf(),
            old(self).input is Some,
        ensures
            final(self).wf(),
            final(self).authed == old(self).authed,
            final(self).base_url == old(self).base_url,
            Tui::input_step(*old(self), key, *final(self), c),
    {
        match key {
            Key::Enter => {
                let inp = self.input.take().unwrap();
                proof {
                    lemma_wf_same_screens(*old(self), *self);
                }
                let InputState { prompt: _, value, purpose } = inp;
                let game = match purpose {
                    InputPurpose::SearchCards { game } => game,
                };
                let vc = chars_of(value.as_str());
                let t = trim_chars(vc.as_slice());
                if t.len() == 0 {
                    self.status_is("Search cancelled.");
                    Command::Nothing
                } else {
                    let mut title = game.clone();
                    title.append(" \u{b7} search \u{201c}");
                    title.append(value.as_str());
                    title.append("\u{201d}");
                    Command::LoadCards {
                        game,
                        title,
                        source: CardSource::Search { query: value },
                        page: 1,
                        push: true,
                        from_search: true,
                    }
                }
            },
            Key::Esc => {
                self.input = None;
                proof {
                    lemma_wf_same_screens(*old(self), *self);
                }
                self.status_is("Cancelled.");
                Command::Nothing
            },
            Key::Backspace => {
                let mut inp = self.input.take().unwrap();
                inp.value = without_last(&inp.value);
                self.input = Some(inp);
                proof {
                    lemma_wf_same_screens(*old(self), *self);
                }
                Command::Nothing
            },
            Key::Char(ch) => {
                let mut inp = self.input.take().unwrap();
                crate::text::string_push(&mut inp.value, ch);
                self.input = Some(inp);
                proof {
                    lemma_wf_same_screens(*old(self), *self);
                }
                Command::Nothing
            },
            _ => Command::Nothing,
        }
    }

    fn push_help(&mut self)
        requires
            old(self).wf(),
        ensures
            final(self).wf(),
            final(self).authed == old(self).authed,
            final(self).base_url == old(self).base_url,
            final(self).screens().len() == old(self).screens().len() + 1,
            final(self).screens().drop_last() == old(self).screens(),
            final(self).spec_top() matches Screen::Message { title, lines } && title@ == "Help"@ && views(lines@)
                == help_lines(),
            final(self).status == old(self).status,
            final(self).input == old(self).input,
            final(self).should_quit == old(self).should_quit,
    {
        let mut lines: Vec<String> = Vec::new();
        lines.push(String::from_str("\u{2191}/\u{2193} or j/k   move"));
        lines.push(String::from_str("Enter / \u{2192}    open / descend"));
        lines.push(String::from_str("Esc / \u{2190} / \u{232b}  go back"));
        lines.push(String::from_str("n / p        next / previous page"));
        lines.push(String::from_str("/            (on card lists) search \u{2014} via the menu"));
        lines.push(String::from_str("+ / -        adjust owned/wanted regular count"));
        lines.push(String::from_str("f / F        adjust foil count (+ / -)"));
        lines.push(String::from_str("w            add card to wish list"));
        lines.push(String::from_str("r            remove highlighted holding"));
        lines.push(String::from_str("q            quit"));
        assert(views(lines@) =~= help_lines());
        let screen = Screen::message(String::from_str("Help"), lines);
        self.push_screen(screen);
        assert(self.screens().drop_last() =~= old(self).screens());
    }

    /// React to one key press: what it does to the screens, the overlay and the
    /// status line, and the fetch it asks for.
    pub fn on_key(&mut self, key: Key) -> (c: Command)
        requires
            old(self).wf(),
        ensures
            final(self).wf(),
            final(self).authed == old(self).authed,
            final(self).base_url == old(self).base_url,
            old(self).input is Some ==> Tui::input_step(*old(self), key, *final(self), c),
            old(self).input is None ==> Tui::key_step(*old(self), key, *final(self), c),
    {
        if self.input.is_some() {
            return self.on_input_key(key);
        }
        match key {
            Key::Char('q') => {
                self.should_quit = true;
                proof {
                    lemma_wf_same_screens(*old(self), *self);
                }
                Command::Nothing
            },
            Key::Char('?') => {
                self.push_help();
                Command::Nothing
            },
            Key::Esc | Key::Backspace | Key::Left => {
                let popped = self.stack.pop();
                assert forall|i: int| 0 <= i < self.screens().len() implies #[trigger] self.screens()[i].wf() by {
                    assert(self.screens()[i] == old(self).screens()[i]);
                    assert(old(self).screens()[i].wf());
                }
                if !popped {
                    self.status_is("Press q to quit.");
                }
                Command::Nothing
            },
            Key::Up | Key::Char('k') => {
                self.move_top(-1);
                Command::Nothing
            },
            Key::Down | Key::Char('j') => {
                self.move_top(1);
                Command::Nothing
            },
            Key::PageUp => {
                self.move_top(-10);
                Command::Nothing
            },
            Key::PageDown => {
                self.move_top(10);
                Command::Nothing
            },
            Key::Enter | Key::Right => self.on_enter(),
            Key::Char('n') => self.page(1),
            Key::Char('p') => self.page(-1),
            Key::Char('+') | Key::Char('=') => self.edit(1, false),
            Key::Char('-') | Key::Char('_') => self.edit(-1, false),
            Key::Char('f') => self.edit(1, true),
            Key::Char('F') => self.edit(-1, true),
            Key::Char('r') => self.remove(),
            Key::Char('w') => self.wish(),
            _ => Command::Nothing,
        }
    }

    /// Reflect a write's echoed counts into the highlighted holdings row `row`
    /// (removing a zeroed row).
    pub fn update_holding_row(&mut self, row: usize, q: CollectionQuantities)
        requires
            old(self).wf(),
            in_range(q.quantity),
            in_range(q.foil_quantity),
        ensures
            final(self).wf(),
            final(self).authed == old(self).authed,
            final(self).base_url == old(self).base_url,
            final(self).status == old(self).status,
            final(self).input == old(self).input,
            final(self).should_quit == old(self).should_quit,
            final(self).screens().len() == old(self).screens().len(),
            final(self).screens().drop_last() == old(self).screens().drop_last(),
            row_updated(old(self).spec_top(), final(self).spec_top(), row, q),
    {
        proof {
            assert(old(self).screens()[old(self).screens().len() - 1].wf());
        }
        let t = self.stack.swap_top(placeholder());
        let t2 = match t {
            Screen::Holdings { game, surface, items, page, total, has_more, selected } => {
                let mut items = items;
                let len = items.len();
                match row_change(row, len, q.quantity, q.foil_quantity) {
                    RowChange::Nothing => Screen::Holdings { game, surface, items, page, total, has_more, selected },
                    RowChange::Remove { select } => {
                        let _gone = items.remove(row);
                        Screen::Holdings { game, surface, items, page, total, has_more, selected: select }
                    },
                    RowChange::Update => {
                        let mut e = items.remove(row);
                        e.quantity = q.quantity;
                        e.foil_quantity = q.foil_quantity;
                        items.insert(row, e);
                        Screen::Holdings { game, surface, items, page, total, has_more, selected }
                    },
                }
            },
            other => other,
        };
        let _ = self.stack.swap_top(t2);
        assert(self.screens().drop_last() =~= old(self).screens().drop_last());
        assert forall|i: int| 0 <= i < self.screens().len() implies #[trigger] self.screens()[i].wf() by {
            if i != self.screens().len() - 1 {
                assert(self.screens()[i] == old(self).screens()[i]);
            }
        }
    }
}

// ---------------------------------------------------------------------------
// Laws
// ---------------------------------------------------------------------------

/// The browser always has a screen to draw.
pub proof fn always_a_screen(t: Tui)
    ensures
        t.screens().len() >= 1,
{
}

/// Going back after a key pushed a screen returns to exactly the screens there
/// were before it.
pub proof fn back_undoes_descend(before: Tui, key: Key, mid: Tui, c: Command, back: Key, after: Tui, c2: Command)
    requires
        before.input is None,
        mid.input is None,
        Tui::key_step(before, key, mid, c),
        mid.screens().len() == before.screens().len() + 1,
        back is Esc || back is Backspace || back is Left,
        Tui::key_step(mid, back, after, c2),
    ensures
        after.screens() == before.screens(),
{
    if key == Key::Char('q') || key is Esc || key is Backspace || key is Left || nav_delta(key) is Some {
        assert(false);
    }
    assert(mid.screens().drop_last() == before.screens()) by {
        if key == Key::Char('?') {
        } else if key is Enter || key is Right {
            let top = before.spec_top();
            match top {
                Screen::Games { items, .. } => {
                    assert(mid.screens() == before.screens().push(
                        Screen::GameMenu { game: items@[top.spec_selected() as int].id, selected: Some(0usize) },
                    ));
                    assert(mid.screens().drop_last() =~= before.screens());
                },
                _ => {},
            }
        }
    }
}

} // verus!
