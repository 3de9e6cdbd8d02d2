//! What the public, handle-keyed surfaces print: another user's profile, their
//! public decks, one public deck, and the copy of one into your own decks.
use crate::models::{Deck, DeckCardEntry, DeckDetail, PublicGameSummary, PublicProfile};
use crate::output::{
    block_view, decks_table, header_view, opt_view, price, push_block, push_cell, report_view, spec_decks_row, spec_dash,
    spec_price, str_upper, table_rows, to_upper, truncate, Block, BlockView,
};
use crate::text::{dec_int, fmt_i64, push_i64, spec_truncate, views};
use vstd::prelude::*;

verus! {

broadcast use vstd::string::group_string_axioms;

/// Where another user's pages live: `/api/u/{handle}`, then `rest`.
pub fn user_path(handle: &str, rest: &str) -> (r: String)
    ensures
        r@ == "/api/u/"@ + handle@ + rest@,
{
    let mut out = String::from_str("/api/u/");
    out.append(handle);
    out.append(rest);
    out
}

/// One public deck: `/api/u/{handle}/decks/{deck_id}`, then `rest`.
pub fn deck_path(handle: &str, deck_id: i64, rest: &str) -> (r: String)
    ensures
        r@ == "/api/u/"@ + handle@ + "/decks/"@ + dec_int(deck_id as int) + rest@,
{
    let mut out = String::from_str("/api/u/");
    out.append(handle);
    out.append("/decks/");
    push_i64(&mut out, deck_id);
    out.append(rest);
    out
}

pub open spec fn spec_game_row(g: PublicGameSummary) -> Seq<Seq<char>> {
    seq![
        g.game@,
        dec_int(g.summary.unique_cards as int),
        dec_int(g.summary.total_cards as int),
        spec_price(opt_view(g.summary.total_value_usd)),
    ]
}

fn game_row(g: &PublicGameSummary) -> (r: Vec<String>)
    ensures
        views(r@) == spec_game_row(*g),
{
    let mut row: Vec<String> = Vec::new();
    push_cell(&mut row, g.game.clone());
    push_cell(&mut row, fmt_i64(g.summary.unique_cards));
    push_cell(&mut row, fmt_i64(g.summary.total_cards));
    push_cell(&mut row, price(&g.summary.total_value_usd));
    assert(views(row@) =~= spec_game_row(*g));
    row
}

/// A profile: who and since when, then per shared collection its cards, copies
/// and value.
pub open spec fn spec_profile(p: PublicProfile) -> Seq<BlockView> {
    seq![
        BlockView::Line(p.handle@ + " (member since "@ + p.member_since@ + ")"@),
        BlockView::Table(
            seq!["Game"@, "Cards"@, "Copies"@, "Value"@],
            p.games@.map_values(|g: PublicGameSummary| spec_game_row(g)),
        ),
    ]
}

pub fn profile(p: &PublicProfile) -> (out: Vec<Block>)
    ensures
        report_view(out@) == spec_profile(*p),
{
    let mut out: Vec<Block> = Vec::new();
    let mut head = p.handle.clone();
    head.append(" (member since ");
    head.append(p.member_since.as_str());
    head.append(")");
    push_block(&mut out, Block::Line(head));
    let header = vec!["Game", "Cards", "Copies", "Value"];
    assert(header_view(header@) =~= seq!["Game"@, "Cards"@, "Copies"@, "Value"@]);
    let rows = table_rows(&p.games, game_row, Ghost(|g: PublicGameSummary| spec_game_row(g)));
    push_block(&mut out, Block::Table { header, rows });
    assert(report_view(out@) =~= spec_profile(*p));
    out
}

/// A user's public decks: the decks table, or `No public decks.`
pub open spec fn spec_decks(decks: Seq<Deck>) -> BlockView {
    if decks.len() == 0 {
        BlockView::Line("No public decks."@)
    } else {
        BlockView::Table(
            seq!["ID"@, "Name"@, "Format"@, "Cards"@, "Public"@, "Updated"@],
            decks.map_values(|x: Deck| spec_decks_row(x)),
        )
    }
}

pub fn decks(list: &Vec<Deck>) -> (b: Block)
    ensures
        block_view(b) == spec_decks(list@),
{
    if list.len() == 0 {
        Block::Line(String::from_str("No public decks."))
    } else {
        decks_table(list)
    }
}

pub open spec fn spec_deck_card_row(c: DeckCardEntry) -> Seq<Seq<char>> {
    seq![
        dec_int(c.quantity as int),
        dec_int(c.foil_quantity as int),
        spec_truncate(c.card.name@, 34),
        str_upper(c.card.set_code@),
    ]
}

fn deck_card_row(c: &DeckCardEntry) -> (r: Vec<String>)
    ensures
        views(r@) == spec_deck_card_row(*c),
{
    let mut row: Vec<String> = Vec::new();
    push_cell(&mut row, fmt_i64(c.quantity));
    push_cell(&mut row, fmt_i64(c.foil_quantity));
    push_cell(&mut row, truncate(c.card.name.as_str(), 34));
    push_cell(&mut row, to_upper(c.card.set_code.as_str()));
    assert(views(row@) =~= spec_deck_card_row(*c));
    row
}

/// One public deck: its name and owner, its format and size, then its cards.
pub open spec fn spec_deck(d: DeckDetail) -> Seq<BlockView> {
    seq![
        BlockView::Line(d.name@ + " by "@ + match d.handle {
            Some(h) => h@,
            None => "?"@,
        }),
        BlockView::Line(
            "  format: "@ + spec_dash(opt_view(d.format)) + "  \u{b7}  cards: "@ + dec_int(
                d.summary.total_cards as int,
            ),
        ),
        BlockView::Table(
            seq!["Qty"@, "Foil"@, "Name"@, "Set"@],
            d.cards@.map_values(|c: DeckCardEntry| spec_deck_card_row(c)),
        ),
    ]
}

pub fn deck(d: &DeckDetail) -> (out: Vec<Block>)
    ensures
        report_view(out@) == spec_deck(*d),
{
    let mut out: Vec<Block> = Vec::new();
    let mut head = d.name.clone();
    head.append(" by ");
    match &d.handle {
        Some(h) => head.append(h.as_str()),
        None => head.append("?"),
    }
    push_block(&mut out, Block::Line(head));
    let mut second = String::from_str("  format: ");
    let f = crate::output::dash(&d.format);
    second.append(f.as_str());
    second.append("  \u{b7}  cards: ");
    push_i64(&mut second, d.summary.total_cards);
    push_block(&mut out, Block::Line(second));
    let header = vec!["Qty", "Foil", "Name", "Set"];
    assert(header_view(header@) =~= seq!["Qty"@, "Foil"@, "Name"@, "Set"@]);
    let rows = table_rows(&d.cards, deck_card_row, Ghost(|c: DeckCardEntry| spec_deck_card_row(c)));
    push_block(&mut out, Block::Table { header, rows });
    assert(report_view(out@) =~= spec_deck(*d));
    out
}

/// The line once a public deck is copied into your own decks.
pub open spec fn spec_copied(d: DeckDetail) -> Seq<char> {
    "Copied '"@ + d.name@ + "' into your decks as deck "@ + dec_int(d.id as int) + " ("@ + dec_int(
        d.summary.total_cards as int,
    ) + " cards, private)."@
}

pub fn copied(d: &DeckDetail) -> (r: String)
    ensures
        r@ == spec_copied(*d),
{
    let mut out = String::from_str("Copied '");
    out.append(d.name.as_str());
    out.append("' into your decks as deck ");
    push_i64(&mut out, d.id);
    out.append(" (");
    push_i64(&mut out, d.summary.total_cards);
    out.append(" cards, private).");
    out
}

} // verus!
