//! Preconstructed decks: the browse filters, how a precon's colours read, and
//! what the browse table, the facets and one precon in full print.
use super::{flag_pair, opt_pair, push_flag, push_opt, query_view};
use crate::commands::decks::{identity, opt_views, spec_identity};
use crate::models::{
    Page, PreconCardEntry, PreconDeck, PreconDeckDetail, PreconFacets, PreconGroup, PreconSetRef, PreconTypeRef,
};
use crate::output::{
    block_view, dash, header_view, page_note, spec_page_note, opt_view, price, push_block, push_cell, report_view, rows_view, spec_dash,
    spec_price, str_upper, table_rows, to_upper, truncate, yes_blank, yes_or_blank, Block, BlockView,
};
use crate::text::{
    dec_int, fmt_i64, insert_sorted, push_i128, push_i64, sorted_strict, spec_truncate, str_eq, views,
};
use vstd::prelude::*;

verus! {

/// The browse filters, identical on the flat list and the grouped one.
#[derive(Debug)]
pub struct PreconFilters {
    /// Name substring; every word must match.
    pub query: Option<String>,
    /// Set code, e.g. `tmc`.
    pub set: Option<String>,
    /// With `set`, span the set's whole group (root + related sub-sets).
    pub related: bool,
    /// Deck type, e.g. `Commander Deck` — `facets` lists the vocabulary.
    pub type_: Option<String>,
    /// Sort key: released (default, newest first) | name.
    pub sort: Option<String>,
    pub page: Option<u32>,
    pub page_size: Option<u32>,
}

impl PreconFilters {
    /// The pairs the filters contribute, in order.
    pub open spec fn pairs(self) -> Seq<(Seq<char>, Seq<char>)> {
        opt_pair("q", self.query) + opt_pair("set", self.set) + flag_pair("include_related", self.related)
            + opt_pair("type", self.type_) + opt_pair("sort", self.sort) + opt_pair("page", self.page)
            + opt_pair("page_size", self.page_size)
    }

    /// The query string a browse sends.
    pub fn query(&self) -> (q: Vec<(&'static str, String)>)
        ensures
            query_view(q@) == self.pairs(),
    {
        let mut q: Vec<(&'static str, String)> = Vec::new();
        assert(query_view(q@) =~= Seq::empty());
        push_opt(&mut q, "q", &self.query);
        push_opt(&mut q, "set", &self.set);
        push_flag(&mut q, "include_related", self.related);
        push_opt(&mut q, "type", &self.type_);
        push_opt(&mut q, "sort", &self.sort);
        push_opt(&mut q, "page", &self.page);
        push_opt(&mut q, "page_size", &self.page_size);
        assert(query_view(q@) =~= self.pairs());
        q
    }
}

/// A deck's colour identity as WUBRG letters — `C` for a deliberately colourless
/// deck, a dash when there was nothing to read a colour off at all.
pub fn colours(identity_letters: &Option<Vec<String>>) -> (r: String)
    ensures
        r@ == spec_identity(opt_views(*identity_letters)),
{
    identity(identity_letters)
}

// ---------------------------------------------------------------------------
// The browse table and the facets
// ---------------------------------------------------------------------------

pub open spec fn spec_precon_row(d: PreconDeck) -> Seq<Seq<char>> {
    seq![
        spec_truncate(d.slug@, 28),
        spec_truncate(d.name@, 32),
        str_upper(d.set_code@),
        spec_truncate(d.deck_type@, 18),
        spec_identity(opt_views(d.color_identity)),
        dec_int(d.card_count as int),
        dec_int(d.sideboard_count as int),
    ]
}

fn precon_row(d: &PreconDeck) -> (r: Vec<String>)
    ensures
        views(r@) == spec_precon_row(*d),
{
    let mut row: Vec<String> = Vec::new();
    push_cell(&mut row, truncate(d.slug.as_str(), 28));
    push_cell(&mut row, truncate(d.name.as_str(), 32));
    push_cell(&mut row, to_upper(d.set_code.as_str()));
    push_cell(&mut row, truncate(d.deck_type.as_str(), 18));
    push_cell(&mut row, colours(&d.color_identity));
    push_cell(&mut row, fmt_i64(d.card_count));
    push_cell(&mut row, fmt_i64(d.sideboard_count));
    assert(views(row@) =~= spec_precon_row(*d));
    row
}

/// The precon browse table: slug, name, set, type, colours, cards, sideboard.
pub fn precons_table(decks: &Vec<PreconDeck>) -> (b: Block)
    ensures
        block_view(b) == BlockView::Table(
            seq!["Slug"@, "Name"@, "Set"@, "Type"@, "Colours"@, "Cards"@, "Side"@],
            decks@.map_values(|d: PreconDeck| spec_precon_row(d)),
        ),
{
    let header = vec!["Slug", "Name", "Set", "Type", "Colours", "Cards", "Side"];
    assert(header_view(header@) =~= seq!["Slug"@, "Name"@, "Set"@, "Type"@, "Colours"@, "Cards"@, "Side"@]);
    let rows = table_rows(decks, precon_row, Ghost(|d: PreconDeck| spec_precon_row(d)));
    Block::Table { header, rows }
}

pub open spec fn spec_type_row(t: PreconTypeRef) -> Seq<Seq<char>> {
    seq![spec_truncate(t.type_@, 34), dec_int(t.count as int)]
}

fn type_row(t: &PreconTypeRef) -> (r: Vec<String>)
    ensures
        views(r@) == spec_type_row(*t),
{
    let mut row: Vec<String> = Vec::new();
    push_cell(&mut row, truncate(t.type_.as_str(), 34));
    push_cell(&mut row, fmt_i64(t.count));
    assert(views(row@) =~= spec_type_row(*t));
    row
}

pub open spec fn spec_set_ref_row(r: PreconSetRef) -> Seq<Seq<char>> {
    seq![
        str_upper(r.code@),
        spec_truncate(spec_dash(opt_view(r.name)), 40),
        spec_dash(opt_view(r.released_at)),
        dec_int(r.count as int),
    ]
}

fn set_ref_row(r: &PreconSetRef) -> (out: Vec<String>)
    ensures
        views(out@) == spec_set_ref_row(*r),
{
    let mut row: Vec<String> = Vec::new();
    push_cell(&mut row, to_upper(r.code.as_str()));
    let name = dash(&r.name);
    push_cell(&mut row, truncate(name.as_str(), 40));
    push_cell(&mut row, dash(&r.released_at));
    push_cell(&mut row, fmt_i64(r.count));
    assert(views(row@) =~= spec_set_ref_row(*r));
    row
}

/// The facets: how many precons there are, then the deck types and the sets, each
/// table only when it has rows.
pub open spec fn spec_print_facets(f: PreconFacets) -> Seq<BlockView> {
    seq![BlockView::Line(dec_int(f.total as int) + " preconstructed deck(s)."@)] + (if f.types@.len() > 0 {
        seq![
            BlockView::Table(seq!["Type"@, "Decks"@], f.types@.map_values(|t: PreconTypeRef| spec_type_row(t))),
        ]
    } else {
        Seq::empty()
    }) + (if f.sets@.len() > 0 {
        seq![
            BlockView::Table(
                seq!["Set"@, "Name"@, "Released"@, "Decks"@],
                f.sets@.map_values(|r: PreconSetRef| spec_set_ref_row(r)),
            ),
        ]
    } else {
        Seq::empty()
    })
}

pub fn print_facets(f: &PreconFacets) -> (out: Vec<Block>)
    ensures
        report_view(out@) == spec_print_facets(*f),
{
    let mut out: Vec<Block> = Vec::new();
    let mut head = fmt_i64(f.total);
    head.append(" preconstructed deck(s).");
    push_block(&mut out, Block::Line(head));
    if f.types.len() > 0 {
        let header = vec!["Type", "Decks"];
        assert(header_view(header@) =~= seq!["Type"@, "Decks"@]);
        let rows = table_rows(&f.types, type_row, Ghost(|t: PreconTypeRef| spec_type_row(t)));
        push_block(&mut out, Block::Table { header, rows });
    }
    let ghost mid = report_view(out@);
    if f.sets.len() > 0 {
        let header = vec!["Set", "Name", "Released", "Decks"];
        assert(header_view(header@) =~= seq!["Set"@, "Name"@, "Released"@, "Decks"@]);
        let rows = table_rows(&f.sets, set_ref_row, Ghost(|r: PreconSetRef| spec_set_ref_row(r)));
        push_block(&mut out, Block::Table { header, rows });
    }
    assert(report_view(out@) =~= spec_print_facets(*f));
    out
}

// ---------------------------------------------------------------------------
// One precon in full
// ---------------------------------------------------------------------------

/// The boards a decklist names that get a heading of their own, in this order.
pub open spec fn known_board(b: Seq<char>) -> bool {
    b == "commander"@ || b == "main"@ || b == "side"@
}

fn is_known_board(b: &String) -> (r: bool)
    ensures
        r == known_board(b@),
{
    str_eq(b.as_str(), "commander") || str_eq(b.as_str(), "main") || str_eq(b.as_str(), "side")
}

/// The board of the `k`-th card.
pub open spec fn board_at(cards: Seq<PreconCardEntry>, k: int) -> Seq<char> {
    cards[k].board@
}

/// Whether one of the first `n` cards is on board `b`.
pub open spec fn names_board(cards: Seq<PreconCardEntry>, n: int, b: Seq<char>) -> bool {
    exists|k: int| 0 <= k < n && #[trigger] board_at(cards, k) == b
}

/// `ex` lists, in ascending order and once each, every other board the cards
/// name.
pub open spec fn is_extra_boards(cards: Seq<PreconCardEntry>, ex: Seq<Seq<char>>) -> bool {
    &&& sorted_strict(ex)
    &&& forall|b: Seq<char>| #[trigger]
        ex.contains(b) <==> (!known_board(b) && names_board(cards, cards.len() as int, b))
}

/// The other boards the cards name, ascending.
pub open spec fn spec_extra_boards(cards: Seq<PreconCardEntry>) -> Seq<Seq<char>> {
    choose|ex: Seq<Seq<char>>| is_extra_boards(cards, ex)
}

/// Every board the cards name beyond the three known ones, ascending, once each.
pub fn extra_boards(cards: &Vec<PreconCardEntry>) -> (r: Vec<String>)
    ensures
        views(r@) == spec_extra_boards(cards@),
{
    let mut out: Vec<String> = Vec::new();
    let mut i: usize = 0;
    while i < cards.len()
        invariant
            i <= cards@.len(),
            sorted_strict(views(out@)),
            forall|b: Seq<char>| #[trigger]
                views(out@).contains(b) <==> (!known_board(b) && names_board(cards@, i as int, b)),
        decreases cards.len() - i,
    {
        let ghost before = views(out@);
        let b = &cards[i].board;
        assert(board_at(cards@, i as int) == b@);
        let known = is_known_board(b);
        if !known {
            insert_sorted(&mut out, b);
        }
        assert forall|x: Seq<char>|
            views(out@).contains(x) <==> (!known_board(x) && names_board(cards@, i + 1, x)) by {
            if views(out@).contains(x) {
                if before.contains(x) {
                    assert(names_board(cards@, i as int, x));
                    let k = choose|k: int| 0 <= k < i && #[trigger] board_at(cards@, k) == x;
                    assert(0 <= k < i + 1 && board_at(cards@, k) == x);
                } else {
                    assert(x == b@);
                    assert(board_at(cards@, i as int) == x);
                }
            }
            if !known_board(x) && names_board(cards@, i + 1, x) {
                let k = choose|k: int| 0 <= k < i + 1 && #[trigger] board_at(cards@, k) == x;
                if k < i {
                    assert(names_board(cards@, i as int, x));
                    assert(before.contains(x));
                } else {
                    assert(x == b@);
                }
            }
        }
        i += 1;
    }
    proof {
        assert(is_extra_boards(cards@, views(out@)));
        let ch = spec_extra_boards(cards@);
        assert(is_extra_boards(cards@, ch));
        crate::text::lemma_sorted_unique(views(out@), ch);
    }
    out
}

/// The cards on one board, in order.
pub open spec fn board_cards(cards: Seq<PreconCardEntry>, board: Seq<char>) -> Seq<PreconCardEntry>
    decreases cards.len(),
{
    if cards.len() == 0 {
        Seq::empty()
    } else if cards.last().board@ == board {
        board_cards(cards.drop_last(), board).push(cards.last())
    } else {
        board_cards(cards.drop_last(), board)
    }
}

/// The copies a list of precon cards holds.
pub open spec fn copies(cards: Seq<PreconCardEntry>) -> int
    decreases cards.len(),
{
    if cards.len() == 0 {
        0
    } else {
        copies(cards.drop_last()) + cards.last().quantity
    }
}

/// One row of a board: copies, foil, name, set, number, and the price of the
/// finish the row is in.
pub open spec fn spec_board_row(c: PreconCardEntry) -> Seq<Seq<char>> {
    seq![
        dec_int(c.quantity as int),
        yes_blank(c.foil),
        spec_truncate(c.card.name@, 34),
        str_upper(c.card.set_code@),
        c.card.collector_number@,
        spec_price(opt_view(if c.foil { c.card.prices.usd_foil } else { c.card.prices.usd })),
    ]
}

fn board_row(c: &PreconCardEntry) -> (r: Vec<String>)
    ensures
        views(r@) == spec_board_row(*c),
{
    let mut row: Vec<String> = Vec::new();
    push_cell(&mut row, fmt_i64(c.quantity));
    push_cell(&mut row, yes_or_blank(c.foil));
    push_cell(&mut row, truncate(c.card.name.as_str(), 34));
    push_cell(&mut row, to_upper(c.card.set_code.as_str()));
    push_cell(&mut row, c.card.collector_number.clone());
    push_cell(&mut row, price(if c.foil { &c.card.prices.usd_foil } else { &c.card.prices.usd }));
    assert(views(row@) =~= spec_board_row(*c));
    row
}

/// One board under its label and total copies; nothing when the board is empty.
pub open spec fn spec_board(cards: Seq<PreconCardEntry>, board: Seq<char>, label: Seq<char>) -> Seq<BlockView> {
    let bc = board_cards(cards, board);
    if bc.len() == 0 {
        Seq::empty()
    } else {
        seq![
            BlockView::Line("\n== "@ + label + " ("@ + dec_int(copies(bc)) + ") =="@),
            BlockView::Table(
                seq!["Qty"@, "Foil"@, "Name"@, "Set"@, "#"@, "USD"@],
                bc.map_values(|c: PreconCardEntry| spec_board_row(c)),
            ),
        ]
    }
}

fn print_board(out: &mut Vec<Block>, cards: &Vec<PreconCardEntry>, board: &str, label: &str)
    requires
        cards@.len() <= i64::MAX,
    ensures
        report_view(final(out)@) == report_view(old(out)@) + spec_board(cards@, board@, label@),
{
    let mut rows: Vec<Vec<String>> = Vec::new();
    let mut total: i128 = 0;
    let mut i: usize = 0;
    while i < cards.len()
        invariant
            i <= cards@.len(),
            cards@.len() <= i64::MAX,
            rows_view(rows@) == board_cards(cards@.take(i as int), board@).map_values(
                |c: PreconCardEntry| spec_board_row(c),
            ),
            total == copies(board_cards(cards@.take(i as int), board@)),
            -(i as int) * 0x8000_0000_0000_0000 <= total <= (i as int) * 0x8000_0000_0000_0000,
        decreases cards.len() - i,
    {
        let c = &cards[i];
        let ghost prev = board_cards(cards@.take(i as int), board@);
        assert(cards@.take(i + 1).drop_last() =~= cards@.take(i as int));
        assert(cards@.take(i + 1).last() == cards@[i as int]);
        if str_eq(c.board.as_str(), board) {
            assert(prev.push(*c).drop_last() =~= prev);
            crate::output::push_row(&mut rows, board_row(c));
            total = total + c.quantity as i128;
            assert(prev.push(*c).map_values(|c: PreconCardEntry| spec_board_row(c)) =~= prev.map_values(
                |c: PreconCardEntry| spec_board_row(c),
            ).push(spec_board_row(*c)));
        }
        i += 1;
    }
    assert(cards@.take(cards@.len() as int) =~= cards@);
    if rows.len() == 0 {
        assert(report_view(out@) =~= report_view(old(out)@) + spec_board(cards@, board@, label@));
        return ;
    }
    let mut head = String::from_str("\n== ");
    head.append(label);
    head.append(" (");
    push_i128(&mut head, total);
    head.append(") ==");
    push_block(out, Block::Line(head));
    let header = vec!["Qty", "Foil", "Name", "Set", "#", "USD"];
    assert(header_view(header@) =~= seq!["Qty"@, "Foil"@, "Name"@, "Set"@, "#"@, "USD"@]);
    push_block(out, Block::Table { header, rows });
    assert(report_view(out@) =~= report_view(old(out)@) + spec_board(cards@, board@, label@));
}

/// The other boards, each under its own name, in the order given.
pub open spec fn spec_extra_blocks(cards: Seq<PreconCardEntry>, ex: Seq<Seq<char>>) -> Seq<BlockView>
    decreases ex.len(),
{
    if ex.len() == 0 {
        Seq::empty()
    } else {
        spec_extra_blocks(cards, ex.drop_last()) + spec_board(cards, ex.last(), ex.last())
    }
}

/// The header lines of one precon: name and slug; type, set and set name; format,
/// colours and release; size and value; then the sideboard (only when it has
/// cards), the face card and the product it ships in (each only when known).
pub open spec fn spec_precon_head(d: PreconDeckDetail) -> Seq<Seq<char>> {
    let h = d.deck;
    seq![
        h.name@ + "  ["@ + h.slug@ + "]"@,
        "  "@ + h.deck_type@ + " \u{b7} "@ + str_upper(h.set_code@) + " \u{b7} "@ + spec_dash(opt_view(h.set_name)),
        "  format: "@ + spec_dash(opt_view(d.format)) + "  \u{b7}  colours: "@ + spec_identity(
            opt_views(h.color_identity),
        ) + "  \u{b7}  released: "@ + spec_dash(opt_view(h.released_at)),
        "  cards: "@ + dec_int(d.summary.total_cards as int) + "  \u{b7}  value: "@ + spec_price(
            opt_view(d.summary.total_value_usd),
        ),
    ] + (if d.sideboard_summary.total_cards > 0 {
        seq![
            "  sideboard: "@ + dec_int(d.sideboard_summary.total_cards as int) + " cards \u{b7} "@ + spec_price(
                opt_view(d.sideboard_summary.total_value_usd),
            ),
        ]
    } else {
        Seq::empty()
    }) + match h.face_card {
        Some(fc) => seq!["  face card: "@ + fc.name@ + " ["@ + fc.card_id@ + "]"@],
        None => Seq::empty(),
    } + match d.product {
        Some(p) => seq!["  ships in: "@ + p.name@ + " ["@ + p.id@ + "] \u{b7} "@ + spec_price(opt_view(p.prices.usd))],
        None => Seq::empty(),
    }
}

/// One precon in full: the header lines, then the command zone, the deck and the
/// sideboard, then any other board the list names, in ascending order.
pub open spec fn spec_precon_detail(d: PreconDeckDetail) -> Seq<BlockView> {
    spec_precon_head(d).map_values(|l: Seq<char>| BlockView::Line(l)) + spec_board(
        d.cards@,
        "commander"@,
        "Command zone"@,
    ) + spec_board(d.cards@, "main"@, "Deck"@) + spec_board(d.cards@, "side"@, "Sideboard"@) + spec_extra_blocks(
        d.cards@,
        spec_extra_boards(d.cards@),
    )
}

fn push_line(out: &mut Vec<Block>, l: String)
    ensures
        report_view(final(out)@) == report_view(old(out)@).push(BlockView::Line(l@)),
{
    push_block(out, Block::Line(l));
}

fn precon_head(out: &mut Vec<Block>, d: &PreconDeckDetail)
    ensures
        report_view(final(out)@) == report_view(old(out)@) + spec_precon_head(*d).map_values(
            |l: Seq<char>| BlockView::Line(l),
        ),
{
    let h = &d.deck;
    let mut a = h.name.clone();
    a.append("  [");
    a.append(h.slug.as_str());
    a.append("]");
    push_line(out, a);
    let mut b = String::from_str("  ");
    b.append(h.deck_type.as_str());
    b.append(" \u{b7} ");
    let up = to_upper(h.set_code.as_str());
    b.append(up.as_str());
    b.append(" \u{b7} ");
    let sn = dash(&h.set_name);
    b.append(sn.as_str());
    push_line(out, b);
    let mut c = String::from_str("  format: ");
    let f = dash(&d.format);
    c.append(f.as_str());
    c.append("  \u{b7}  colours: ");
    let col = colours(&h.color_identity);
    c.append(col.as_str());
    c.append("  \u{b7}  released: ");
    let rel = dash(&h.released_at);
    c.append(rel.as_str());
    push_line(out, c);
    let mut e = String::from_str("  cards: ");
    push_i64(&mut e, d.summary.total_cards);
    e.append("  \u{b7}  value: ");
    let v = price(&d.summary.total_value_usd);
    e.append(v.as_str());
    push_line(out, e);
    let ghost four = report_view(out@);
    if d.sideboard_summary.total_cards > 0 {
        let mut sb = String::from_str("  sideboard: ");
        push_i64(&mut sb, d.sideboard_summary.total_cards);
        sb.append(" cards \u{b7} ");
        let sv = price(&d.sideboard_summary.total_value_usd);
        sb.append(sv.as_str());
        push_line(out, sb);
    }
    let ghost five = report_view(out@);
    if let Some(fc) = &h.face_card {
        let mut l = String::from_str("  face card: ");
        l.append(fc.name.as_str());
        l.append(" [");
        l.append(fc.card_id.as_str());
        l.append("]");
        push_line(out, l);
    }
    let ghost six = report_view(out@);
    if let Some(p) = &d.product {
        let mut l = String::from_str("  ships in: ");
        l.append(p.name.as_str());
        l.append(" [");
        l.append(p.id.as_str());
        l.append("] \u{b7} ");
        let pp = price(&p.prices.usd);
        l.append(pp.as_str());
        push_line(out, l);
    }
    assert(report_view(out@) =~= report_view(old(out)@) + spec_precon_head(*d).map_values(
        |l: Seq<char>| BlockView::Line(l),
    ));
}

pub fn print_precon_detail(d: &PreconDeckDetail) -> (out: Vec<Block>)
    requires
        d.cards@.len() <= i64::MAX,
    ensures
        report_view(out@) == spec_precon_detail(*d),
{
    let mut out: Vec<Block> = Vec::new();
    precon_head(&mut out, d);
    print_board(&mut out, &d.cards, "commander", "Command zone");
    print_board(&mut out, &d.cards, "main", "Deck");
    print_board(&mut out, &d.cards, "side", "Sideboard");
    let ghost known = report_view(out@);
    let ex = extra_boards(&d.cards);
    let mut i: usize = 0;
    while i < ex.len()
        invariant
            i <= ex@.len(),
            d.cards@.len() <= i64::MAX,
            views(ex@) == spec_extra_boards(d.cards@),
            report_view(out@) == known + spec_extra_blocks(d.cards@, views(ex@).take(i as int)),
        decreases ex.len() - i,
    {
        let b = ex[i].as_str();
        print_board(&mut out, &d.cards, b, b);
        assert(views(ex@).take(i + 1).drop_last() =~= views(ex@).take(i as int));
        i += 1;
    }
    assert(views(ex@).take(ex@.len() as int) =~= views(ex@));
    assert(report_view(out@) =~= spec_precon_detail(*d));
    out
}

/// A page of precons: the table, or that none match; then where the page sits.
pub open spec fn spec_precon_list(page: Page<PreconDeck>) -> Seq<BlockView> {
    seq![
        if page.data@.len() == 0 {
            BlockView::Line("No preconstructed decks match."@)
        } else {
            BlockView::Table(
                seq!["Slug"@, "Name"@, "Set"@, "Type"@, "Colours"@, "Cards"@, "Side"@],
                page.data@.map_values(|d: PreconDeck| spec_precon_row(d)),
            )
        },
        BlockView::Note(spec_page_note(page.page, page.total, "decks"@, page.has_more)),
    ]
}

pub fn precon_list(page: &Page<PreconDeck>) -> (out: Vec<Block>)
    ensures
        report_view(out@) == spec_precon_list(*page),
{
    let mut out: Vec<Block> = Vec::new();
    if page.data.len() == 0 {
        push_block(&mut out, Block::Line(String::from_str("No preconstructed decks match.")));
    } else {
        push_block(&mut out, precons_table(&page.data));
    }
    push_block(&mut out, Block::Note(page_note(page.page, page.total, "decks", page.has_more)));
    assert(report_view(out@) =~= spec_precon_list(*page));
    out
}

/// The heading over one group: its title, how many decks (singular for one), and
/// its release date when it has one.
pub open spec fn spec_group_heading(g: PreconGroup) -> Seq<char> {
    "\n== "@ + g.title@ + " ("@ + dec_int(g.deck_count as int) + " deck"@ + (if g.deck_count == 1 {
        Seq::<char>::empty()
    } else {
        "s"@
    }) + match g.released_at {
        Some(d) => ", "@ + d@,
        None => Seq::empty(),
    } + ") =="@
}

fn group_heading(g: &PreconGroup) -> (r: String)
    ensures
        r@ == spec_group_heading(*g),
{
    let mut out = String::from_str("\n== ");
    out.append(g.title.as_str());
    out.append(" (");
    push_i64(&mut out, g.deck_count);
    out.append(" deck");
    if g.deck_count != 1 {
        out.append("s");
    }
    if let Some(d) = &g.released_at {
        out.append(", ");
        out.append(d.as_str());
    }
    out.append(") ==");
    out
}

/// Each group under its heading with its decks.
pub open spec fn spec_groups(groups: Seq<PreconGroup>) -> Seq<BlockView>
    decreases groups.len(),
{
    if groups.len() == 0 {
        Seq::empty()
    } else {
        spec_groups(groups.drop_last()) + seq![
            BlockView::Line(spec_group_heading(groups.last())),
            BlockView::Table(
                seq!["Slug"@, "Name"@, "Set"@, "Type"@, "Colours"@, "Cards"@, "Side"@],
                groups.last().decks@.map_values(|d: PreconDeck| spec_precon_row(d)),
            ),
        ]
    }
}

/// A page of precon groups: that none match when it is empty, each group, then
/// where the page sits.
pub open spec fn spec_precon_groups(page: Page<PreconGroup>) -> Seq<BlockView> {
    (if page.data@.len() == 0 {
        seq![BlockView::Line("No preconstructed decks match."@)]
    } else {
        Seq::empty()
    }) + spec_groups(page.data@) + seq![
        BlockView::Note(spec_page_note(page.page, page.total, "groups"@, page.has_more)),
    ]
}

pub fn precon_groups(page: &Page<PreconGroup>) -> (out: Vec<Block>)
    ensures
        report_view(out@) == spec_precon_groups(*page),
{
    let mut out: Vec<Block> = Vec::new();
    if page.data.len() == 0 {
        push_block(&mut out, Block::Line(String::from_str("No preconstructed decks match.")));
    }
    let ghost head = report_view(out@);
    let mut i: usize = 0;
    while i < page.data.len()
        invariant
            i <= page.data@.len(),
            report_view(out@) == head + spec_groups(page.data@.take(i as int)),
        decreases page.data.len() - i,
    {
        let g = &page.data[i];
        push_block(&mut out, Block::Line(group_heading(g)));
        push_block(&mut out, precons_table(&g.decks));
        assert(page.data@.take(i + 1).drop_last() =~= page.data@.take(i as int));
        i += 1;
    }
    assert(page.data@.take(page.data@.len() as int) =~= page.data@);
    push_block(&mut out, Block::Note(page_note(page.page, page.total, "groups", page.has_more)));
    assert(report_view(out@) =~= spec_precon_groups(*page));
    out
}

} // verus!
