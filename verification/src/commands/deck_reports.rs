//! What the deck analyses print: the Commander bracket estimate, the mana base,
//! the legality verdict, the decks holding a card and what an add-to-collection did.
use super::decks::{
    combo_missing, combo_pieces, commanders, diff_qty, identity, join_ids, opt_views, spec_combo_missing,
    spec_combo_pieces, spec_commanders, spec_diff_qty, spec_identity, spec_join_ids,
};
use crate::models::{
    CardDeckPrintingRef, CardDeckRef, CollectionAdd, DeckBracketCard, DeckBracketCategory, DeckBracketEstimate,
    DeckBracketLevel, DeckLegality, DeckLegalityIssue, DeckManaBase, DeckManaColor, DeckManaDemandCard,
    DeckRuleViolation, DeckSuggestionCard, DeckSuggestionRole, DeckSuggestions, DeckCombo, DeckCombos, DeckDiff,
    DeckDiffEntry, DeckDiffSection, DeckPricing, DeckPricingLine, DeckRoleCard, DeckRoleGroup, DeckRoles, DeckToken,
    DeckTokenSource, DeckTokens, GoldfishHand, NeededCard, NeededCardDeck, NeededList,
};
use crate::models::{DeckCardEntry, DeckDetail, DeckSection, DeckStatItem};
use crate::tui::view::section_cards;
use crate::output::{
    bool_text, push_bool, block_view, cards_table, dash, price, spec_cards_row, spec_price, header_view, opt_view, push_block, push_cell, push_row, report_view, rows_view, spec_dash,
    str_upper, to_upper, truncate, yes_blank, yes_or_blank, Block, BlockView,
};
use crate::text::{dec_int, dec_nat, fmt_i64, push_i128, join, lemma_views_push, push_i64, push_u64, seq_join, spec_truncate, views};
use vstd::prelude::*;

verus! {

broadcast use vstd::string::group_string_axioms;

/// Each line of `items` bulleted and indented: `  · item`.
pub open spec fn bullets(items: Seq<String>) -> Seq<BlockView> {
    items.map_values(|c: String| BlockView::Line("  \u{b7} "@ + c@))
}

fn push_bullets(out: &mut Vec<Block>, items: &Vec<String>)
    ensures
        report_view(final(out)@) == report_view(old(out)@) + bullets(items@),
{
    let ghost start = report_view(out@);
    let mut i: usize = 0;
    while i < items.len()
        invariant
            i <= items@.len(),
            report_view(out@) == start + bullets(items@.take(i as int)),
        decreases items.len() - i,
    {
        let mut line = String::from_str("  \u{b7} ");
        line.append(items[i].as_str());
        push_block(out, Block::Line(line));
        assert(bullets(items@.take(i + 1)) =~= bullets(items@.take(i as int)).push(
            BlockView::Line("  \u{b7} "@ + items@[i as int]@),
        ));
        i += 1;
    }
    assert(items@.take(items@.len() as int) =~= items@);
}

// ---------------------------------------------------------------------------
// Bracket
// ---------------------------------------------------------------------------

/// A bracket example card: `2× Name`, or the bare name for one copy.
pub open spec fn spec_bracket_card(c: DeckBracketCard) -> Seq<char> {
    if c.quantity > 1 {
        dec_int(c.quantity as int) + "\u{d7} "@ + c.name@
    } else {
        c.name@
    }
}

pub open spec fn spec_category_row(c: DeckBracketCategory) -> Seq<Seq<char>> {
    seq![
        c.label@,
        dec_int(c.count as int),
        yes_blank(c.decisive),
        spec_truncate(seq_join(c.cards@.map_values(|x: DeckBracketCard| spec_bracket_card(x)), ", "@), 52),
    ]
}

/// The categories the deck holds any card of, in order.
pub open spec fn held_categories(cs: Seq<DeckBracketCategory>) -> Seq<DeckBracketCategory>
    decreases cs.len(),
{
    if cs.len() == 0 {
        Seq::empty()
    } else if cs.last().count > 0 {
        held_categories(cs.drop_last()).push(cs.last())
    } else {
        held_categories(cs.drop_last())
    }
}

/// One rung of the ladder, arrowed when it is the deck's.
pub open spec fn spec_ladder_line(l: DeckBracketLevel, current: i64) -> Seq<char> {
    "  "@ + (if l.bracket == current {
        "\u{2192}"@
    } else {
        " "@
    }) + " "@ + dec_int(l.bracket as int) + ". "@ + l.label@ + " \u{2014} "@ + l.description@
}

pub open spec fn category_header() -> Seq<Seq<char>> {
    seq!["Category"@, "Cards"@, "Decisive"@, "Examples"@]
}

/// The bracket, its description, and the exhibition note when it applies.
pub open spec fn spec_bracket_head(b: DeckBracketEstimate) -> Seq<BlockView> {
    seq![
        BlockView::Line("Bracket "@ + dec_int(b.bracket as int) + " \u{2014} "@ + b.label@ + "  ["@ + b.format_label@
            + "]"@),
        BlockView::Line("  "@ + b.description@),
    ] + (if b.exhibition_possible {
        seq![BlockView::Line("  Also clears bracket 1's bar: no Game Changers, mass land denial or extra turns."@)]
    } else {
        Seq::empty()
    })
}

/// The reasons, under a heading, when there are any.
pub open spec fn spec_bracket_why(b: DeckBracketEstimate) -> Seq<BlockView> {
    if b.reasons@.len() > 0 {
        seq![BlockView::Line("\nWhy:"@)] + bullets(b.reasons@)
    } else {
        Seq::empty()
    }
}

/// The categories the deck holds cards of, or a line saying it holds none.
pub open spec fn spec_bracket_held(b: DeckBracketEstimate) -> Seq<BlockView> {
    let held = held_categories(b.categories@);
    if held.len() == 0 {
        seq![BlockView::Line("\nNo Game Changers, mass land denial, extra turns or tutors found."@)]
    } else {
        seq![
            BlockView::Line(Seq::empty()),
            BlockView::Table(category_header(), held.map_values(|c: DeckBracketCategory| spec_category_row(c))),
        ]
    }
}

/// What the estimate could not see, when there is anything.
pub open spec fn spec_bracket_caveats(b: DeckBracketEstimate) -> Seq<BlockView> {
    if b.caveats@.len() > 0 {
        seq![BlockView::Line("\nThe estimate is a floor \u{2014} it couldn't see:"@)] + bullets(b.caveats@)
    } else {
        Seq::empty()
    }
}

/// The whole ladder, the deck's rung arrowed.
pub open spec fn spec_bracket_ladder(b: DeckBracketEstimate) -> Seq<BlockView> {
    seq![BlockView::Line("\nLadder:"@)] + b.ladder@.map_values(
        |l: DeckBracketLevel| BlockView::Line(spec_ladder_line(l, b.bracket)),
    )
}

/// The bracket estimate: the bracket and why, the categories held, what the
/// estimate could not see, and the whole ladder with the deck's rung arrowed.
pub open spec fn spec_bracket_report(b: Option<DeckBracketEstimate>) -> Seq<BlockView> {
    match b {
        None => seq![BlockView::Line("No bracket \u{2014} the ladder is only defined for Commander decks."@)],
        Some(b) => spec_bracket_head(b) + spec_bracket_why(b) + spec_bracket_held(b) + spec_bracket_caveats(b)
            + spec_bracket_ladder(b),
    }
}

fn category_row(c: &DeckBracketCategory) -> (r: Vec<String>)
    ensures
        views(r@) == spec_category_row(*c),
{
    let mut names: Vec<String> = Vec::new();
    let mut i: usize = 0;
    while i < c.cards.len()
        invariant
            i <= c.cards@.len(),
            views(names@) == c.cards@.take(i as int).map_values(|x: DeckBracketCard| spec_bracket_card(x)),
        decreases c.cards.len() - i,
    {
        let x = &c.cards[i];
        let name = if x.quantity > 1 {
            let mut n = String::new();
            push_i64(&mut n, x.quantity);
            n.append("\u{d7} ");
            n.append(x.name.as_str());
            n
        } else {
            x.name.clone()
        };
        push_cell(&mut names, name);
        assert(c.cards@.take(i + 1).map_values(|x: DeckBracketCard| spec_bracket_card(x)) =~= c.cards@.take(
            i as int,
        ).map_values(|x: DeckBracketCard| spec_bracket_card(x)).push(spec_bracket_card(c.cards@[i as int])));
        i += 1;
    }
    assert(c.cards@.take(c.cards@.len() as int) =~= c.cards@);
    let mut row: Vec<String> = Vec::new();
    push_cell(&mut row, c.label.clone());
    push_cell(&mut row, fmt_i64(c.count));
    push_cell(&mut row, yes_or_blank(c.decisive));
    let joined = join(names.as_slice(), ", ");
    push_cell(&mut row, truncate(joined.as_str(), 52));
    assert(views(row@) =~= spec_category_row(*c));
    row
}

fn held_rows(cs: &Vec<DeckBracketCategory>) -> (rows: Vec<Vec<String>>)
    ensures
        rows_view(rows@) == held_categories(cs@).map_values(|c: DeckBracketCategory| spec_category_row(c)),
{
    let mut rows: Vec<Vec<String>> = Vec::new();
    let mut i: usize = 0;
    while i < cs.len()
        invariant
            i <= cs@.len(),
            rows_view(rows@) == held_categories(cs@.take(i as int)).map_values(
                |c: DeckBracketCategory| spec_category_row(c),
            ),
        decreases cs.len() - i,
    {
        assert(cs@.take(i + 1).drop_last() =~= cs@.take(i as int));
        if cs[i].count > 0 {
            push_row(&mut rows, category_row(&cs[i]));
            assert(held_categories(cs@.take(i + 1)).map_values(|c: DeckBracketCategory| spec_category_row(c))
                =~= held_categories(cs@.take(i as int)).map_values(|c: DeckBracketCategory| spec_category_row(c)).push(
                spec_category_row(cs@[i as int]),
            ));
        }
        i += 1;
    }
    assert(cs@.take(cs@.len() as int) =~= cs@);
    rows
}

fn ladder_lines(out: &mut Vec<Block>, ladder: &Vec<DeckBracketLevel>, current: i64)
    ensures
        report_view(final(out)@) == report_view(old(out)@) + ladder@.map_values(
            |l: DeckBracketLevel| BlockView::Line(spec_ladder_line(l, current)),
        ),
{
    let ghost start = report_view(out@);
    let mut i: usize = 0;
    while i < ladder.len()
        invariant
            i <= ladder@.len(),
            report_view(out@) == start + ladder@.take(i as int).map_values(
                |l: DeckBracketLevel| BlockView::Line(spec_ladder_line(l, current)),
            ),
        decreases ladder.len() - i,
    {
        let l = &ladder[i];
        let mut line = String::from_str("  ");
        line.append(if l.bracket == current { "\u{2192}" } else { " " });
        line.append(" ");
        push_i64(&mut line, l.bracket);
        line.append(". ");
        line.append(l.label.as_str());
        line.append(" \u{2014} ");
        line.append(l.description.as_str());
        push_block(out, Block::Line(line));
        assert(ladder@.take(i + 1).map_values(|l: DeckBracketLevel| BlockView::Line(spec_ladder_line(l, current)))
            =~= ladder@.take(i as int).map_values(|l: DeckBracketLevel| BlockView::Line(spec_ladder_line(l, current))).push(
            BlockView::Line(spec_ladder_line(ladder@[i as int], current)),
        ));
        i += 1;
    }
    assert(ladder@.take(ladder@.len() as int) =~= ladder@);
}

fn bracket_head(out: &mut Vec<Block>, e: &DeckBracketEstimate)
    ensures
        report_view(final(out)@) == report_view(old(out)@) + spec_bracket_head(*e),
{
    let mut head = String::from_str("Bracket ");
    push_i64(&mut head, e.bracket);
    head.append(" \u{2014} ");
    head.append(e.label.as_str());
    head.append("  [");
    head.append(e.format_label.as_str());
    head.append("]");
    push_block(out, Block::Line(head));
    let mut desc = String::from_str("  ");
    desc.append(e.description.as_str());
    push_block(out, Block::Line(desc));
    if e.exhibition_possible {
        push_block(
            out,
            Block::Line(String::from_str("  Also clears bracket 1's bar: no Game Changers, mass land denial or extra turns.")),
        );
    }
    assert(report_view(final(out)@) =~= report_view(old(out)@) + spec_bracket_head(*e));
}

fn bracket_why(out: &mut Vec<Block>, e: &DeckBracketEstimate)
    ensures
        report_view(final(out)@) == report_view(old(out)@) + spec_bracket_why(*e),
{
    if e.reasons.len() > 0 {
        push_block(out, Block::Line(String::from_str("\nWhy:")));
        push_bullets(out, &e.reasons);
    }
    assert(report_view(final(out)@) =~= report_view(old(out)@) + spec_bracket_why(*e));
}

fn bracket_held(out: &mut Vec<Block>, e: &DeckBracketEstimate)
    ensures
        report_view(final(out)@) == report_view(old(out)@) + spec_bracket_held(*e),
{
    let rows = held_rows(&e.categories);
    assert(rows_view(rows@).len() == rows@.len());
    assert(rows@.len() == held_categories(e.categories@).len());
    if rows.len() == 0 {
        push_block(out, Block::Line(String::from_str("\nNo Game Changers, mass land denial, extra turns or tutors found.")));
    } else {
        push_block(out, Block::Line(String::new()));
        let header = vec!["Category", "Cards", "Decisive", "Examples"];
        assert(header_view(header@) =~= category_header());
        push_block(out, Block::Table { header, rows });
    }
    assert(report_view(final(out)@) =~= report_view(old(out)@) + spec_bracket_held(*e));
}

fn bracket_caveats(out: &mut Vec<Block>, e: &DeckBracketEstimate)
    ensures
        report_view(final(out)@) == report_view(old(out)@) + spec_bracket_caveats(*e),
{
    if e.caveats.len() > 0 {
        push_block(out, Block::Line(String::from_str("\nThe estimate is a floor \u{2014} it couldn't see:")));
        push_bullets(out, &e.caveats);
    }
    assert(report_view(final(out)@) =~= report_view(old(out)@) + spec_bracket_caveats(*e));
}

pub fn bracket_report(b: &Option<DeckBracketEstimate>) -> (out: Vec<Block>)
    ensures
        report_view(out@) == spec_bracket_report(*b),
{
    let mut out: Vec<Block> = Vec::new();
    match b {
        None => {
            push_block(
                &mut out,
                Block::Line(String::from_str("No bracket \u{2014} the ladder is only defined for Commander decks.")),
            );
            assert(report_view(out@) =~= spec_bracket_report(*b));
        },
        Some(e) => {
            bracket_head(&mut out, e);
            bracket_why(&mut out, e);
            bracket_held(&mut out, e);
            bracket_caveats(&mut out, e);
            push_block(&mut out, Block::Line(String::from_str("\nLadder:")));
            ladder_lines(&mut out, &e.ladder, e.bracket);
            assert(report_view(out@) =~= spec_bracket_report(*b));
        },
    }
    out
}

// ---------------------------------------------------------------------------
// Mana base
// ---------------------------------------------------------------------------

/// One colour's row: label, pips, sources (lands + the rest), sources needed,
/// shortfall (blank when none) and the verdict.
pub open spec fn spec_mana_row(c: DeckManaColor) -> Seq<Seq<char>> {
    seq![
        c.label@,
        dec_int(c.pips as int),
        dec_int(c.sources as int) + " ("@ + dec_int(c.land_sources as int) + "+"@ + dec_int(c.nonland_sources as int)
            + ")"@,
        match c.sources_needed {
            Some(n) => dec_int(n as int),
            None => "\u{2014}"@,
        },
        if c.shortfall > 0 {
            dec_int(c.shortfall as int)
        } else {
            Seq::empty()
        },
        spec_truncate(c.verdict@, 34),
    ]
}

/// One demanding card: `Name {cost} (needs n)`.
pub open spec fn spec_demand(d: DeckManaDemandCard) -> Seq<char> {
    d.name@ + " "@ + d.mana_cost@ + " (needs "@ + dec_int(d.sources_needed as int) + ")"@
}

/// The line naming what a colour's most demanding cards want, at most four of them,
/// with a count of the rest.
pub open spec fn spec_wants_line(c: DeckManaColor) -> Seq<char> {
    let shown = c.demand@.take(if c.demand@.len() < 4 { c.demand@.len() as int } else { 4 });
    let more = c.demand_count - shown.len();
    "  "@ + c.label@ + " wants: "@ + seq_join(shown.map_values(|d: DeckManaDemandCard| spec_demand(d)), " \u{b7} "@) + (
    if more > 0 {
        " \u{b7} +"@ + dec_int(more) + " more"@
    } else {
        Seq::empty()
    })
}

/// The wants lines of every colour with demand, in order.
pub open spec fn spec_wants(cs: Seq<DeckManaColor>) -> Seq<BlockView>
    decreases cs.len(),
{
    if cs.len() == 0 {
        Seq::empty()
    } else if cs.last().demand@.len() == 0 {
        spec_wants(cs.drop_last())
    } else {
        spec_wants(cs.drop_last()).push(BlockView::Line(spec_wants_line(cs.last())))
    }
}

pub open spec fn mana_header() -> Seq<Seq<char>> {
    seq!["Colour"@, "Pips"@, "Sources"@, "Needed"@, "Shortfall"@, "Verdict"@]
}

/// The mana base: the sizes it was judged at, a row per colour, what the hungriest
/// cards want, what the numbers assume, and where the thresholds come from.
pub open spec fn spec_mana_report(m: DeckManaBase) -> Seq<BlockView> {
    seq![
        BlockView::Line(dec_int(m.deck_size as int) + " cards cast from \u{b7} "@ + dec_int(m.library_size as int)
            + " in the library \u{b7} "@ + dec_int(m.land_count as int) + " lands \u{b7} judged against the "@ + dec_int(
            m.table_size as int,
        ) + "-card column"@),
        BlockView::Table(mana_header(), m.colors@.map_values(|c: DeckManaColor| spec_mana_row(c))),
    ] + spec_wants(m.colors@) + seq![BlockView::Line("\nWhat the numbers assume:"@)] + bullets(m.caveats@) + (if m.unchecked_count
        > 0 {
        seq![
            BlockView::Note(dec_int(m.unchecked_count as int)
                + " library card(s) haven't been checked for what they produce \u{2014} every source count is a floor."@),
        ]
    } else {
        Seq::empty()
    }) + seq![BlockView::Note("Thresholds from "@ + m.source@ + "."@)]
}

fn mana_row(c: &DeckManaColor) -> (r: Vec<String>)
    ensures
        views(r@) == spec_mana_row(*c),
{
    let mut row: Vec<String> = Vec::new();
    push_cell(&mut row, c.label.clone());
    push_cell(&mut row, fmt_i64(c.pips));
    let mut src = String::new();
    push_i64(&mut src, c.sources);
    src.append(" (");
    push_i64(&mut src, c.land_sources);
    src.append("+");
    push_i64(&mut src, c.nonland_sources);
    src.append(")");
    push_cell(&mut row, src);
    match c.sources_needed {
        Some(n) => push_cell(&mut row, fmt_i64(n)),
        None => push_cell(&mut row, String::from_str("\u{2014}")),
    }
    if c.shortfall > 0 {
        push_cell(&mut row, fmt_i64(c.shortfall));
    } else {
        push_cell(&mut row, String::new());
    }
    push_cell(&mut row, truncate(c.verdict.as_str(), 34));
    assert(views(row@) =~= spec_mana_row(*c));
    row
}

fn wants_line(c: &DeckManaColor) -> (r: String)
    ensures
        r@ == spec_wants_line(*c),
{
    let n: usize = if c.demand.len() < 4 { c.demand.len() } else { 4 };
    let ghost shown = c.demand@.take(n as int);
    let mut parts: Vec<String> = Vec::new();
    let mut i: usize = 0;
    while i < n
        invariant
            n <= c.demand@.len(),
            shown == c.demand@.take(n as int),
            i <= n,
            views(parts@) == shown.take(i as int).map_values(|d: DeckManaDemandCard| spec_demand(d)),
        decreases n - i,
    {
        let d = &c.demand[i];
        let mut s = d.name.clone();
        s.append(" ");
        s.append(d.mana_cost.as_str());
        s.append(" (needs ");
        push_i64(&mut s, d.sources_needed);
        s.append(")");
        push_cell(&mut parts, s);
        assert(shown.take(i + 1).map_values(|d: DeckManaDemandCard| spec_demand(d)) =~= shown.take(i as int).map_values(
            |d: DeckManaDemandCard| spec_demand(d),
        ).push(spec_demand(shown[i as int])));
        i += 1;
    }
    assert(shown.take(n as int) =~= shown);
    let mut out = String::from_str("  ");
    out.append(c.label.as_str());
    out.append(" wants: ");
    out.append(join(parts.as_slice(), " \u{b7} ").as_str());
    let more: i128 = c.demand_count as i128 - n as i128;
    if more > 0 {
        out.append(" \u{b7} +");
        push_i64(&mut out, more as i64);
        out.append(" more");
    }
    assert(out@ =~= spec_wants_line(*c));
    out
}

pub fn mana_report(m: &DeckManaBase) -> (out: Vec<Block>)
    ensures
        report_view(out@) == spec_mana_report(*m),
{
    let mut out: Vec<Block> = Vec::new();
    let mut head = String::new();
    push_i64(&mut head, m.deck_size);
    head.append(" cards cast from \u{b7} ");
    push_i64(&mut head, m.library_size);
    head.append(" in the library \u{b7} ");
    push_i64(&mut head, m.land_count);
    head.append(" lands \u{b7} judged against the ");
    push_i64(&mut head, m.table_size);
    head.append("-card column");
    push_block(&mut out, Block::Line(head));
    let header = vec!["Colour", "Pips", "Sources", "Needed", "Shortfall", "Verdict"];
    assert(header_view(header@) =~= mana_header());
    let mut rows: Vec<Vec<String>> = Vec::new();
    let mut i: usize = 0;
    while i < m.colors.len()
        invariant
            i <= m.colors@.len(),
            rows_view(rows@) == m.colors@.take(i as int).map_values(|c: DeckManaColor| spec_mana_row(c)),
        decreases m.colors.len() - i,
    {
        push_row(&mut rows, mana_row(&m.colors[i]));
        assert(m.colors@.take(i + 1).map_values(|c: DeckManaColor| spec_mana_row(c)) =~= m.colors@.take(
            i as int,
        ).map_values(|c: DeckManaColor| spec_mana_row(c)).push(spec_mana_row(m.colors@[i as int])));
        i += 1;
    }
    assert(m.colors@.take(m.colors@.len() as int) =~= m.colors@);
    push_block(&mut out, Block::Table { header, rows });
    let ghost base = report_view(out@);
    let mut j: usize = 0;
    while j < m.colors.len()
        invariant
            j <= m.colors@.len(),
            report_view(out@) == base + spec_wants(m.colors@.take(j as int)),
        decreases m.colors.len() - j,
    {
        assert(m.colors@.take(j + 1).drop_last() =~= m.colors@.take(j as int));
        if m.colors[j].demand.len() > 0 {
            push_block(&mut out, Block::Line(wants_line(&m.colors[j])));
        }
        j += 1;
    }
    assert(m.colors@.take(m.colors@.len() as int) =~= m.colors@);
    push_block(&mut out, Block::Line(String::from_str("\nWhat the numbers assume:")));
    push_bullets(&mut out, &m.caveats);
    if m.unchecked_count > 0 {
        let mut note = String::new();
        push_i64(&mut note, m.unchecked_count);
        note.append(" library card(s) haven't been checked for what they produce \u{2014} every source count is a floor.");
        push_block(&mut out, Block::Note(note));
    }
    let mut src = String::from_str("Thresholds from ");
    src.append(m.source.as_str());
    src.append(".");
    push_block(&mut out, Block::Note(src));
    assert(report_view(out@) =~= spec_mana_report(*m));
    out
}

// ---------------------------------------------------------------------------
// Suggestions
// ---------------------------------------------------------------------------

/// The card an id names in the suggestion pool (the last one listed under it).
pub open spec fn last_card(cards: Seq<DeckSuggestionCard>, id: Seq<char>) -> Option<DeckSuggestionCard>
    decreases cards.len(),
{
    if cards.len() == 0 {
        None
    } else if cards.last().card.id@ == id {
        Some(cards.last())
    } else {
        last_card(cards.drop_last(), id)
    }
}

fn find_suggestion(cards: &Vec<DeckSuggestionCard>, id: &String) -> (r: Option<usize>)
    ensures
        match r {
            Some(i) => i < cards@.len() && last_card(cards@, id@) == Some(cards@[i as int]),
            None => last_card(cards@, id@) is None,
        },
{
    let mut i: usize = cards.len();
    assert(cards@.take(i as int) =~= cards@);
    while i > 0
        invariant
            i <= cards@.len(),
            last_card(cards@, id@) == last_card(cards@.take(i as int), id@),
        decreases i,
    {
        assert(cards@.take(i as int).drop_last() =~= cards@.take(i - 1));
        assert(cards@.take(i as int).last() == cards@[i - 1]);
        if cards[i - 1].card.id == *id {
            return Some(i - 1);
        }
        i -= 1;
    }
    None
}

pub open spec fn spec_suggestion_row(c: DeckSuggestionCard) -> Seq<Seq<char>> {
    seq![
        dec_int(c.edhrec_rank as int),
        spec_truncate(c.card.name@, 32),
        str_upper(c.card.set_code@),
        c.card.collector_number@,
        dec_int(c.owned as int),
        spec_truncate(seq_join(views(c.roles@), ", "@), 30),
    ]
}

/// The rows of the most-played table: each listed id that names a pool card.
pub open spec fn spec_top_rows(top: Seq<String>, cards: Seq<DeckSuggestionCard>) -> Seq<Seq<Seq<char>>>
    decreases top.len(),
{
    if top.len() == 0 {
        Seq::empty()
    } else {
        let rest = spec_top_rows(top.drop_last(), cards);
        match last_card(cards, top.last()@) {
            Some(c) => rest.push(spec_suggestion_row(c)),
            None => rest,
        }
    }
}

/// The names of the pool cards some ids name, in order.
pub open spec fn found_names(ids: Seq<String>, cards: Seq<DeckSuggestionCard>) -> Seq<Seq<char>>
    decreases ids.len(),
{
    if ids.len() == 0 {
        Seq::empty()
    } else {
        let rest = found_names(ids.drop_last(), cards);
        match last_card(cards, ids.last()@) {
            Some(c) => rest.push(c.card.name@),
            None => rest,
        }
    }
}

/// One role's line: what the deck has, what the collection adds, and the first
/// five of those cards.
pub open spec fn spec_role_line(r: DeckSuggestionRole, cards: Seq<DeckSuggestionCard>) -> Seq<char> {
    let names = found_names(r.card_ids@, cards);
    r.label@ + ": you have "@ + dec_int(r.in_deck as int) + " \u{b7} you own "@ + dec_int(r.count as int) + " more \u{2014} "@
        + spec_truncate(seq_join(names.take(if names.len() < 5 { names.len() as int } else { 5 }), ", "@), 60)
}

/// The lines of every role the collection adds to.
pub open spec fn spec_role_lines(roles: Seq<DeckSuggestionRole>, cards: Seq<DeckSuggestionCard>) -> Seq<BlockView>
    decreases roles.len(),
{
    if roles.len() == 0 {
        Seq::empty()
    } else if roles.last().count == 0 {
        spec_role_lines(roles.drop_last(), cards)
    } else {
        spec_role_lines(roles.drop_last(), cards).push(BlockView::Line(spec_role_line(roles.last(), cards)))
    }
}

pub open spec fn suggestion_header() -> Seq<Seq<char>> {
    seq!["Rank"@, "Name"@, "Set"@, "#"@, "Own"@, "Roles"@]
}

/// The suggestions' first line: format, colours and how many candidates there were.
pub open spec fn spec_suggestions_head(s: DeckSuggestions) -> Seq<BlockView> {
    seq![
        BlockView::Line(match s.format_label {
            Some(f) => f@,
            None => "no tracked format"@,
        } + "  \u{b7}  colours "@ + spec_identity(opt_views(s.color_identity)) + "  \u{b7}  "@ + dec_int(
            s.candidate_count as int,
        ) + " owned candidate(s), "@ + dec_int(s.scanned_count as int) + " scanned"@),
    ] + if s.commanders@.len() > 0 {
        seq![
            BlockView::Line("  commanders: "@ + seq_join(
                s.commanders@.map_values(|c: crate::models::DeckCommander| c.name@),
                " & "@,
            )),
        ]
    } else {
        Seq::empty()
    }
}

/// The ranked tail: the most played candidates, every role the collection adds to,
/// the unplaced count and what the ranking is.
pub open spec fn spec_suggestions_body(s: DeckSuggestions) -> Seq<BlockView> {
    (if s.top@.len() > 0 {
        seq![
            BlockView::Line("\nMost played overall:"@),
            BlockView::Table(suggestion_header(), spec_top_rows(s.top@, s.cards@)),
        ]
    } else {
        Seq::empty()
    }) + seq![BlockView::Line(Seq::empty())] + spec_role_lines(s.roles@, s.cards@) + (if s.unclassified_count > 0 {
        seq![BlockView::Line("\n"@ + dec_int(s.unclassified_count as int) + " scanned candidate(s) fill no role at all."@)]
    } else {
        Seq::empty()
    }) + seq![BlockView::Line("\nWhat this ranking is:"@)] + bullets(s.caveats@)
}

/// What the collection could add to a deck.
pub open spec fn spec_suggestions_report(s: DeckSuggestions) -> Seq<BlockView> {
    spec_suggestions_head(s) + if s.cards@.len() == 0 {
        seq![BlockView::Line("\nNothing in your collection fits this deck."@)]
    } else {
        spec_suggestions_body(s)
    }
}

fn suggestion_row(c: &DeckSuggestionCard) -> (r: Vec<String>)
    ensures
        views(r@) == spec_suggestion_row(*c),
{
    let mut row: Vec<String> = Vec::new();
    push_cell(&mut row, fmt_i64(c.edhrec_rank));
    push_cell(&mut row, truncate(c.card.name.as_str(), 32));
    push_cell(&mut row, to_upper(c.card.set_code.as_str()));
    push_cell(&mut row, c.card.collector_number.clone());
    push_cell(&mut row, fmt_i64(c.owned));
    let roles = join(c.roles.as_slice(), ", ");
    push_cell(&mut row, truncate(roles.as_str(), 30));
    assert(views(row@) =~= spec_suggestion_row(*c));
    row
}

fn role_line(r: &DeckSuggestionRole, cards: &Vec<DeckSuggestionCard>) -> (line: String)
    ensures
        line@ == spec_role_line(*r, cards@),
{
    let mut names: Vec<String> = Vec::new();
    let mut i: usize = 0;
    while i < r.card_ids.len()
        invariant
            i <= r.card_ids@.len(),
            views(names@) == found_names(r.card_ids@.take(i as int), cards@),
        decreases r.card_ids.len() - i,
    {
        assert(r.card_ids@.take(i + 1).drop_last() =~= r.card_ids@.take(i as int));
        match find_suggestion(cards, &r.card_ids[i]) {
            Some(k) => push_cell(&mut names, cards[k].card.name.clone()),
            None => {},
        }
        i += 1;
    }
    assert(r.card_ids@.take(r.card_ids@.len() as int) =~= r.card_ids@);
    let n: usize = if names.len() < 5 { names.len() } else { 5 };
    let mut first: Vec<String> = Vec::new();
    let mut k: usize = 0;
    while k < n
        invariant
            n <= names@.len(),
            k <= n,
            views(first@) == views(names@).take(k as int),
        decreases n - k,
    {
        push_cell(&mut first, names[k].clone());
        assert(views(names@).take(k + 1) =~= views(names@).take(k as int).push(names@[k as int]@));
        k += 1;
    }
    let mut out = r.label.clone();
    out.append(": you have ");
    push_i64(&mut out, r.in_deck);
    out.append(" \u{b7} you own ");
    push_i64(&mut out, r.count);
    out.append(" more \u{2014} ");
    let joined = join(first.as_slice(), ", ");
    out.append(truncate(joined.as_str(), 60).as_str());
    assert(out@ =~= spec_role_line(*r, cards@));
    out
}

fn suggestions_head(out: &mut Vec<Block>, s: &DeckSuggestions)
    ensures
        report_view(final(out)@) == report_view(old(out)@) + spec_suggestions_head(*s),
{
    let mut head = match &s.format_label {
        Some(f) => f.clone(),
        None => String::from_str("no tracked format"),
    };
    head.append("  \u{b7}  colours ");
    head.append(identity(&s.color_identity).as_str());
    head.append("  \u{b7}  ");
    push_i64(&mut head, s.candidate_count);
    head.append(" owned candidate(s), ");
    push_i64(&mut head, s.scanned_count);
    head.append(" scanned");
    push_block(out, Block::Line(head));
    if s.commanders.len() > 0 {
        let mut names: Vec<String> = Vec::new();
        let mut i: usize = 0;
        while i < s.commanders.len()
            invariant
                i <= s.commanders@.len(),
                views(names@) == s.commanders@.take(i as int).map_values(|c: crate::models::DeckCommander| c.name@),
            decreases s.commanders.len() - i,
        {
            push_cell(&mut names, s.commanders[i].name.clone());
            assert(s.commanders@.take(i + 1).map_values(|c: crate::models::DeckCommander| c.name@) =~= s.commanders@.take(
                i as int,
            ).map_values(|c: crate::models::DeckCommander| c.name@).push(s.commanders@[i as int].name@));
            i += 1;
        }
        assert(s.commanders@.take(s.commanders@.len() as int) =~= s.commanders@);
        let mut line = String::from_str("  commanders: ");
        line.append(join(names.as_slice(), " & ").as_str());
        push_block(out, Block::Line(line));
    }
    assert(report_view(final(out)@) =~= report_view(old(out)@) + spec_suggestions_head(*s));
}

fn suggestions_top(out: &mut Vec<Block>, s: &DeckSuggestions)
    ensures
        report_view(final(out)@) == report_view(old(out)@) + (if s.top@.len() > 0 {
            seq![
                BlockView::Line("\nMost played overall:"@),
                BlockView::Table(suggestion_header(), spec_top_rows(s.top@, s.cards@)),
            ]
        } else {
            Seq::empty()
        }),
{
    if s.top.len() > 0 {
        push_block(out, Block::Line(String::from_str("\nMost played overall:")));
        let header = vec!["Rank", "Name", "Set", "#", "Own", "Roles"];
        assert(header_view(header@) =~= suggestion_header());
        let mut rows: Vec<Vec<String>> = Vec::new();
        let mut i: usize = 0;
        while i < s.top.len()
            invariant
                i <= s.top@.len(),
                rows_view(rows@) == spec_top_rows(s.top@.take(i as int), s.cards@),
            decreases s.top.len() - i,
        {
            assert(s.top@.take(i + 1).drop_last() =~= s.top@.take(i as int));
            match find_suggestion(&s.cards, &s.top[i]) {
                Some(k) => push_row(&mut rows, suggestion_row(&s.cards[k])),
                None => {},
            }
            i += 1;
        }
        assert(s.top@.take(s.top@.len() as int) =~= s.top@);
        push_block(out, Block::Table { header, rows });
    }
    assert(report_view(final(out)@) =~= report_view(old(out)@) + (if s.top@.len() > 0 {
        seq![
            BlockView::Line("\nMost played overall:"@),
            BlockView::Table(suggestion_header(), spec_top_rows(s.top@, s.cards@)),
        ]
    } else {
        Seq::empty()
    }));
}

fn suggestions_roles(out: &mut Vec<Block>, s: &DeckSuggestions)
    ensures
        report_view(final(out)@) == report_view(old(out)@) + spec_role_lines(s.roles@, s.cards@),
{
    let ghost start = report_view(out@);
    let mut i: usize = 0;
    while i < s.roles.len()
        invariant
            i <= s.roles@.len(),
            report_view(out@) == start + spec_role_lines(s.roles@.take(i as int), s.cards@),
        decreases s.roles.len() - i,
    {
        assert(s.roles@.take(i + 1).drop_last() =~= s.roles@.take(i as int));
        if s.roles[i].count != 0 {
            push_block(out, Block::Line(role_line(&s.roles[i], &s.cards)));
        }
        i += 1;
    }
    assert(s.roles@.take(s.roles@.len() as int) =~= s.roles@);
}

pub fn suggestions_report(s: &DeckSuggestions) -> (out: Vec<Block>)
    ensures
        report_view(out@) == spec_suggestions_report(*s),
{
    let mut out: Vec<Block> = Vec::new();
    suggestions_head(&mut out, s);
    if s.cards.len() == 0 {
        push_block(&mut out, Block::Line(String::from_str("\nNothing in your collection fits this deck.")));
        assert(report_view(out@) =~= spec_suggestions_report(*s));
        return out;
    }
    let ghost head = report_view(out@);
    suggestions_top(&mut out, s);
    push_block(&mut out, Block::Line(String::new()));
    suggestions_roles(&mut out, s);
    if s.unclassified_count > 0 {
        let mut line = String::from_str("\n");
        push_i64(&mut line, s.unclassified_count);
        line.append(" scanned candidate(s) fill no role at all.");
        push_block(&mut out, Block::Line(line));
    }
    push_block(&mut out, Block::Line(String::from_str("\nWhat this ranking is:")));
    push_bullets(&mut out, &s.caveats);
    assert(report_view(out@) =~= head + spec_suggestions_body(*s));
    out
}

// ---------------------------------------------------------------------------
// Legality, decks holding a card, adding a deck to the collection
// ---------------------------------------------------------------------------

pub open spec fn spec_issue_row(i: DeckLegalityIssue) -> Seq<Seq<char>> {
    seq![i.status@, dec_int(i.quantity as int), spec_truncate(i.name@, 40), spec_truncate(i.card_id@, 12)]
}

pub open spec fn spec_violation_line(v: DeckRuleViolation) -> BlockView {
    BlockView::Line("  ["@ + v.severity@ + "] "@ + v.rule@ + ": "@ + v.message@)
}

/// A deck's verdict against its own format.
pub open spec fn spec_legality_report(l: Option<DeckLegality>) -> Seq<BlockView> {
    match l {
        None => seq![BlockView::Line("This deck's format isn't one legality is tracked for."@)],
        Some(l) => seq![
            BlockView::Line(l.format_label@ + " ["@ + l.format_key@ + "] \u{2014} "@ + if l.legal {
                "LEGAL"@
            } else {
                "NOT LEGAL"@
            }),
        ] + (if l.unknown_count > 0 {
            seq![
                BlockView::Line("  "@ + dec_int(l.unknown_count as int)
                    + " card(s) carry no legality data (not counted against the deck)."@),
            ]
        } else {
            Seq::empty()
        }) + (if l.violations@.len() > 0 {
            seq![BlockView::Line(Seq::empty())] + l.violations@.map_values(|v: DeckRuleViolation| spec_violation_line(v))
        } else {
            Seq::empty()
        }) + (if l.issues@.len() > 0 {
            seq![
                BlockView::Line(Seq::empty()),
                BlockView::Table(
                    seq!["Status"@, "Qty"@, "Card"@, "ID"@],
                    l.issues@.map_values(|i: DeckLegalityIssue| spec_issue_row(i)),
                ),
            ]
        } else {
            Seq::empty()
        }) + (if l.legal && l.issues@.len() == 0 && l.violations@.len() == 0 {
            seq![BlockView::Line("  No issues."@)]
        } else {
            Seq::empty()
        }),
    }
}

fn violation_lines(out: &mut Vec<Block>, vs: &Vec<DeckRuleViolation>)
    ensures
        report_view(final(out)@) == report_view(old(out)@) + vs@.map_values(|v: DeckRuleViolation| spec_violation_line(v)),
{
    let ghost start = report_view(out@);
    let mut i: usize = 0;
    while i < vs.len()
        invariant
            i <= vs@.len(),
            report_view(out@) == start + vs@.take(i as int).map_values(|v: DeckRuleViolation| spec_violation_line(v)),
        decreases vs.len() - i,
    {
        let v = &vs[i];
        let mut line = String::from_str("  [");
        line.append(v.severity.as_str());
        line.append("] ");
        line.append(v.rule.as_str());
        line.append(": ");
        line.append(v.message.as_str());
        push_block(out, Block::Line(line));
        assert(vs@.take(i + 1).map_values(|v: DeckRuleViolation| spec_violation_line(v)) =~= vs@.take(i as int).map_values(
            |v: DeckRuleViolation| spec_violation_line(v),
        ).push(spec_violation_line(vs@[i as int])));
        i += 1;
    }
    assert(vs@.take(vs@.len() as int) =~= vs@);
}

fn issues_table(issues: &Vec<DeckLegalityIssue>) -> (b: Block)
    ensures
        block_view(b) == BlockView::Table(
            seq!["Status"@, "Qty"@, "Card"@, "ID"@],
            issues@.map_values(|i: DeckLegalityIssue| spec_issue_row(i)),
        ),
{
    let header = vec!["Status", "Qty", "Card", "ID"];
    assert(header_view(header@) =~= seq!["Status"@, "Qty"@, "Card"@, "ID"@]);
    let mut rows: Vec<Vec<String>> = Vec::new();
    let mut i: usize = 0;
    while i < issues.len()
        invariant
            i <= issues@.len(),
            rows_view(rows@) == issues@.take(i as int).map_values(|i: DeckLegalityIssue| spec_issue_row(i)),
        decreases issues.len() - i,
    {
        let x = &issues[i];
        let mut row: Vec<String> = Vec::new();
        push_cell(&mut row, x.status.clone());
        push_cell(&mut row, fmt_i64(x.quantity));
        push_cell(&mut row, truncate(x.name.as_str(), 40));
        push_cell(&mut row, truncate(x.card_id.as_str(), 12));
        assert(views(row@) =~= spec_issue_row(issues@[i as int]));
        push_row(&mut rows, row);
        assert(issues@.take(i + 1).map_values(|i: DeckLegalityIssue| spec_issue_row(i)) =~= issues@.take(i as int).map_values(
            |i: DeckLegalityIssue| spec_issue_row(i),
        ).push(spec_issue_row(issues@[i as int])));
        i += 1;
    }
    assert(issues@.take(issues@.len() as int) =~= issues@);
    Block::Table { header, rows }
}

pub fn legality_report(l: &Option<DeckLegality>) -> (out: Vec<Block>)
    ensures
        report_view(out@) == spec_legality_report(*l),
{
    let mut out: Vec<Block> = Vec::new();
    match l {
        None => {
            push_block(&mut out, Block::Line(String::from_str("This deck's format isn't one legality is tracked for.")));
        },
        Some(l) => {
            let mut head = l.format_label.clone();
            head.append(" [");
            head.append(l.format_key.as_str());
            head.append("] \u{2014} ");
            head.append(if l.legal { "LEGAL" } else { "NOT LEGAL" });
            push_block(&mut out, Block::Line(head));
            if l.unknown_count > 0 {
                let mut line = String::from_str("  ");
                push_i64(&mut line, l.unknown_count);
                line.append(" card(s) carry no legality data (not counted against the deck).");
                push_block(&mut out, Block::Line(line));
            }
            if l.violations.len() > 0 {
                push_block(&mut out, Block::Line(String::new()));
                violation_lines(&mut out, &l.violations);
            }
            if l.issues.len() > 0 {
                push_block(&mut out, Block::Line(String::new()));
                push_block(&mut out, issues_table(&l.issues));
            }
            if l.legal && l.issues.len() == 0 && l.violations.len() == 0 {
                push_block(&mut out, Block::Line(String::from_str("  No issues.")));
            }
        },
    }
    assert(report_view(out@) =~= spec_legality_report(*l));
    out
}

/// One printing a deck holds: `2× SET 123`.
pub open spec fn spec_printing(p: CardDeckPrintingRef) -> Seq<char> {
    dec_int(p.quantity as int) + "\u{d7} "@ + str_upper(p.set_code@) + " "@ + p.collector_number@
}

pub open spec fn spec_containing_row(r: CardDeckRef) -> Seq<Seq<char>> {
    seq![
        dec_int(r.deck.id as int),
        spec_truncate(r.deck.name@, 30),
        spec_truncate(spec_commanders(r.deck), 24),
        spec_dash(opt_view(r.deck.format)),
        dec_int(r.quantity as int),
        dec_int(r.maybeboard_quantity as int),
        spec_truncate(seq_join(r.printings@.map_values(|p: CardDeckPrintingRef| spec_printing(p)), ", "@), 36),
    ]
}

pub open spec fn containing_header() -> Seq<Seq<char>> {
    seq!["ID"@, "Deck"@, "Commander"@, "Format"@, "Qty"@, "Maybeboard"@, "Printings (all boards)"@]
}

/// The caller's decks holding a card, with a count.
pub open spec fn spec_containing_report(rs: Seq<CardDeckRef>) -> Seq<BlockView> {
    if rs.len() == 0 {
        seq![BlockView::Line("None of your decks contain this card."@)]
    } else {
        seq![
            BlockView::Table(containing_header(), rs.map_values(|r: CardDeckRef| spec_containing_row(r))),
            BlockView::Note(dec_nat(rs.len()) + " deck(s)."@),
        ]
    }
}

fn containing_row(r: &CardDeckRef) -> (row: Vec<String>)
    ensures
        views(row@) == spec_containing_row(*r),
{
    let mut ps: Vec<String> = Vec::new();
    let mut i: usize = 0;
    while i < r.printings.len()
        invariant
            i <= r.printings@.len(),
            views(ps@) == r.printings@.take(i as int).map_values(|p: CardDeckPrintingRef| spec_printing(p)),
        decreases r.printings.len() - i,
    {
        let p = &r.printings[i];
        let mut s = String::new();
        push_i64(&mut s, p.quantity);
        s.append("\u{d7} ");
        s.append(to_upper(p.set_code.as_str()).as_str());
        s.append(" ");
        s.append(p.collector_number.as_str());
        push_cell(&mut ps, s);
        assert(r.printings@.take(i + 1).map_values(|p: CardDeckPrintingRef| spec_printing(p)) =~= r.printings@.take(
            i as int,
        ).map_values(|p: CardDeckPrintingRef| spec_printing(p)).push(spec_printing(r.printings@[i as int])));
        i += 1;
    }
    assert(r.printings@.take(r.printings@.len() as int) =~= r.printings@);
    let mut row: Vec<String> = Vec::new();
    push_cell(&mut row, fmt_i64(r.deck.id));
    push_cell(&mut row, truncate(r.deck.name.as_str(), 30));
    let cmd = commanders(&r.deck);
    push_cell(&mut row, truncate(cmd.as_str(), 24));
    push_cell(&mut row, dash(&r.deck.format));
    push_cell(&mut row, fmt_i64(r.quantity));
    push_cell(&mut row, fmt_i64(r.maybeboard_quantity));
    let joined = join(ps.as_slice(), ", ");
    push_cell(&mut row, truncate(joined.as_str(), 36));
    assert(views(row@) =~= spec_containing_row(*r));
    row
}

pub fn containing_report(rs: &Vec<CardDeckRef>) -> (out: Vec<Block>)
    ensures
        report_view(out@) == spec_containing_report(rs@),
{
    let mut out: Vec<Block> = Vec::new();
    if rs.len() == 0 {
        push_block(&mut out, Block::Line(String::from_str("None of your decks contain this card.")));
        assert(report_view(out@) =~= spec_containing_report(rs@));
        return out;
    }
    let header = vec!["ID", "Deck", "Commander", "Format", "Qty", "Maybeboard", "Printings (all boards)"];
    assert(header_view(header@) =~= containing_header());
    let mut rows: Vec<Vec<String>> = Vec::new();
    let mut i: usize = 0;
    while i < rs.len()
        invariant
            i <= rs@.len(),
            rows_view(rows@) == rs@.take(i as int).map_values(|r: CardDeckRef| spec_containing_row(r)),
        decreases rs.len() - i,
    {
        push_row(&mut rows, containing_row(&rs[i]));
        assert(rs@.take(i + 1).map_values(|r: CardDeckRef| spec_containing_row(r)) =~= rs@.take(i as int).map_values(
            |r: CardDeckRef| spec_containing_row(r),
        ).push(spec_containing_row(rs@[i as int])));
        i += 1;
    }
    assert(rs@.take(rs@.len() as int) =~= rs@);
    push_block(&mut out, Block::Table { header, rows });
    let mut note = String::new();
    push_u64(&mut note, rs.len() as u64);
    note.append(" deck(s).");
    push_block(&mut out, Block::Note(note));
    assert(report_view(out@) =~= spec_containing_report(rs@));
    out
}

/// What adding a deck to the collection did.
pub open spec fn spec_added_lines(a: CollectionAdd) -> Seq<Seq<char>> {
    seq![
        "Added "@ + dec_int(a.cards as int) + " printing(s) ("@ + dec_int(a.regular_copies as int) + " regular, "@ + dec_int(
            a.foil_copies as int,
        ) + " foil) to your collection."@,
    ] + if a.skipped_cards > 0 {
        seq!["  "@ + dec_int(a.skipped_cards as int) + " card(s) skipped \u{2014} no longer in the catalog."@]
    } else {
        Seq::empty()
    }
}

pub fn added_lines(a: &CollectionAdd) -> (r: Vec<String>)
    ensures
        views(r@) == spec_added_lines(*a),
{
    let mut out: Vec<String> = Vec::new();
    let mut l = String::from_str("Added ");
    push_i64(&mut l, a.cards);
    l.append(" printing(s) (");
    push_i64(&mut l, a.regular_copies);
    l.append(" regular, ");
    push_i64(&mut l, a.foil_copies);
    l.append(" foil) to your collection.");
    push_cell(&mut out, l);
    if a.skipped_cards > 0 {
        let mut s = String::from_str("  ");
        push_i64(&mut s, a.skipped_cards);
        s.append(" card(s) skipped \u{2014} no longer in the catalog.");
        push_cell(&mut out, s);
    }
    assert(views(out@) =~= spec_added_lines(*a));
    out
}

// ---------------------------------------------------------------------------
// The shortfall
// ---------------------------------------------------------------------------

pub open spec fn spec_needed_row(n: NeededCard) -> Seq<Seq<char>> {
    seq![
        dec_int(n.needed as int),
        dec_int(n.owned as int),
        dec_int(n.required as int),
        spec_truncate(n.card.name@, 32),
        str_upper(n.card.set_code@),
        n.card.collector_number@,
        spec_price(opt_view(n.held_usd)),
        spec_price(opt_view(n.cheapest_usd)),
        spec_truncate(seq_join(n.decks@.map_values(|d: NeededCardDeck| d.name@), ", "@), 24),
    ]
}

/// A shortfall row leads with what is still needed, then what is owned, then what
/// the decks require, each as a decimal; the needed cell does not follow the
/// required count: two cards that need the same number show the same first cell,
/// whatever they require.
pub proof fn needed_row_leads_with_the_shortfall(n: NeededCard, m: NeededCard)
    ensures
        spec_needed_row(n)[0] == dec_int(n.needed as int),
        spec_needed_row(n)[1] == dec_int(n.owned as int),
        spec_needed_row(n)[2] == dec_int(n.required as int),
        n.needed == m.needed ==> spec_needed_row(n)[0] == spec_needed_row(m)[0],
{
}

pub open spec fn needed_header() -> Seq<Seq<char>> {
    seq!["Need"@, "Own"@, "Want"@, "Name"@, "Set"@, "#"@, "Held"@, "Cheapest"@, "Decks"@]
}

/// The shortfall: the deck it is scoped to, the cards needed, and the totals
/// (flagged as floors while anything is unpriced).
pub open spec fn spec_needed_report(b: NeededList) -> Seq<BlockView> {
    (match b.deck {
        Some(d) => seq![
            BlockView::Line("Scoped to '"@ + d.name@ + "' ["@ + dec_int(d.id as int)
                + "] \u{2014} its share of the shortfall across every deck."@),
        ],
        None => Seq::empty(),
    }) + if b.data@.len() == 0 {
        seq![BlockView::Line("Nothing needed \u{2014} your collection covers every deck."@)]
    } else {
        seq![
            BlockView::Table(needed_header(), b.data@.map_values(|n: NeededCard| spec_needed_row(n))),
            BlockView::Note(dec_int(b.totals.cards as int) + " card(s) \u{b7} "@ + dec_int(b.totals.copies as int)
                + " copies \u{b7} "@ + spec_price(opt_view(b.totals.held_usd)) + " at the printings your decks run \u{b7} "@
                + spec_price(opt_view(b.totals.cheapest_usd)) + " at each card's cheapest."@),
        ] + if b.totals.held_unpriced_cards > 0 || b.totals.cheapest_unpriced_cards > 0 {
            seq![
                BlockView::Note("  "@ + dec_int(b.totals.held_unpriced_cards as int) + " unpriced as held \u{b7} "@ + dec_int(
                    b.totals.cheapest_unpriced_cards as int,
                ) + " with no priced printing at all \u{2014} the totals are floors."@),
            ]
        } else {
            Seq::empty()
        }
    }
}

fn needed_row(n: &NeededCard) -> (r: Vec<String>)
    ensures
        views(r@) == spec_needed_row(*n),
{
    let mut decks: Vec<String> = Vec::new();
    let mut i: usize = 0;
    while i < n.decks.len()
        invariant
            i <= n.decks@.len(),
            views(decks@) == n.decks@.take(i as int).map_values(|d: NeededCardDeck| d.name@),
        decreases n.decks.len() - i,
    {
        push_cell(&mut decks, n.decks[i].name.clone());
        assert(n.decks@.take(i + 1).map_values(|d: NeededCardDeck| d.name@) =~= n.decks@.take(i as int).map_values(
            |d: NeededCardDeck| d.name@,
        ).push(n.decks@[i as int].name@));
        i += 1;
    }
    assert(n.decks@.take(n.decks@.len() as int) =~= n.decks@);
    let mut row: Vec<String> = Vec::new();
    push_cell(&mut row, fmt_i64(n.needed));
    push_cell(&mut row, fmt_i64(n.owned));
    push_cell(&mut row, fmt_i64(n.required));
    push_cell(&mut row, truncate(n.card.name.as_str(), 32));
    push_cell(&mut row, to_upper(n.card.set_code.as_str()));
    push_cell(&mut row, n.card.collector_number.clone());
    push_cell(&mut row, price(&n.held_usd));
    push_cell(&mut row, price(&n.cheapest_usd));
    let joined = join(decks.as_slice(), ", ");
    push_cell(&mut row, truncate(joined.as_str(), 24));
    assert(views(row@) =~= spec_needed_row(*n));
    row
}

pub fn needed_report(b: &NeededList) -> (out: Vec<Block>)
    ensures
        report_view(out@) == spec_needed_report(*b),
{
    let mut out: Vec<Block> = Vec::new();
    if let Some(d) = &b.deck {
        let mut line = String::from_str("Scoped to '");
        line.append(d.name.as_str());
        line.append("' [");
        push_i64(&mut line, d.id);
        line.append("] \u{2014} its share of the shortfall across every deck.");
        push_block(&mut out, Block::Line(line));
    }
    let ghost head = report_view(out@);
    if b.data.len() == 0 {
        push_block(&mut out, Block::Line(String::from_str("Nothing needed \u{2014} your collection covers every deck.")));
        assert(report_view(out@) =~= spec_needed_report(*b));
        return out;
    }
    let header = vec!["Need", "Own", "Want", "Name", "Set", "#", "Held", "Cheapest", "Decks"];
    assert(header_view(header@) =~= needed_header());
    let mut rows: Vec<Vec<String>> = Vec::new();
    let mut i: usize = 0;
    while i < b.data.len()
        invariant
            i <= b.data@.len(),
            rows_view(rows@) == b.data@.take(i as int).map_values(|n: NeededCard| spec_needed_row(n)),
        decreases b.data.len() - i,
    {
        push_row(&mut rows, needed_row(&b.data[i]));
        assert(b.data@.take(i + 1).map_values(|n: NeededCard| spec_needed_row(n)) =~= b.data@.take(i as int).map_values(
            |n: NeededCard| spec_needed_row(n),
        ).push(spec_needed_row(b.data@[i as int])));
        i += 1;
    }
    assert(b.data@.take(b.data@.len() as int) =~= b.data@);
    push_block(&mut out, Block::Table { header, rows });
    let t = &b.totals;
    let mut note = String::new();
    push_i64(&mut note, t.cards);
    note.append(" card(s) \u{b7} ");
    push_i64(&mut note, t.copies);
    note.append(" copies \u{b7} ");
    note.append(price(&t.held_usd).as_str());
    note.append(" at the printings your decks run \u{b7} ");
    note.append(price(&t.cheapest_usd).as_str());
    note.append(" at each card's cheapest.");
    push_block(&mut out, Block::Note(note));
    if t.held_unpriced_cards > 0 || t.cheapest_unpriced_cards > 0 {
        let mut floor = String::from_str("  ");
        push_i64(&mut floor, t.held_unpriced_cards);
        floor.append(" unpriced as held \u{b7} ");
        push_i64(&mut floor, t.cheapest_unpriced_cards);
        floor.append(" with no priced printing at all \u{2014} the totals are floors.");
        push_block(&mut out, Block::Note(floor));
    }
    assert(report_view(out@) =~= spec_needed_report(*b));
    out
}

// ---------------------------------------------------------------------------
// Tokens
// ---------------------------------------------------------------------------

/// A token maker: `2× Name`, or the bare name.
pub open spec fn spec_maker(s: DeckTokenSource) -> Seq<char> {
    if s.quantity > 1 {
        dec_int(s.quantity as int) + "\u{d7} "@ + s.name@
    } else {
        s.name@
    }
}

/// The makers listed, with an ellipsis when the list was capped.
pub open spec fn spec_makers(t: DeckToken) -> Seq<Seq<char>> {
    t.sources@.map_values(|s: DeckTokenSource| spec_maker(s)) + if t.source_count > t.sources@.len() {
        seq!["\u{2026}"@]
    } else {
        Seq::empty()
    }
}

pub open spec fn spec_token_row(t: DeckToken) -> Seq<Seq<char>> {
    seq![
        spec_truncate(t.name@, 26),
        spec_truncate(spec_dash(opt_view(t.type_line)), 28),
        match t.card {
            Some(c) => str_upper(c.set_code@),
            None => "\u{2014}"@,
        },
        match t.card {
            Some(c) => c.collector_number@,
            None => "\u{2014}"@,
        },
        dec_int(t.source_count as int),
        spec_truncate(seq_join(spec_makers(t), ", "@), 40),
    ]
}

/// The tokens a deck makes, and how complete that list is.
pub open spec fn spec_tokens_report(b: DeckTokens) -> Seq<BlockView> {
    (if b.tokens@.len() == 0 {
        seq![
            BlockView::Line(if b.unchecked_count > 0 {
                "No tokens found yet."@
            } else {
                "This deck makes no tokens."@
            }),
        ]
    } else {
        seq![
            BlockView::Table(
                seq!["Token"@, "Type"@, "Set"@, "#"@, "Makers"@, "Made by"@],
                b.tokens@.map_values(|t: DeckToken| spec_token_row(t)),
            ),
        ]
    }) + if b.unchecked_count > 0 {
        seq![
            BlockView::Note(dec_int(b.unchecked_count as int)
                + " card(s) haven't been checked for tokens yet \u{2014} the list is a floor, not the whole answer."@),
        ]
    } else {
        Seq::empty()
    }
}

fn token_row(t: &DeckToken) -> (r: Vec<String>)
    ensures
        views(r@) == spec_token_row(*t),
{
    let mut makers: Vec<String> = Vec::new();
    let mut i: usize = 0;
    while i < t.sources.len()
        invariant
            i <= t.sources@.len(),
            views(makers@) == t.sources@.take(i as int).map_values(|s: DeckTokenSource| spec_maker(s)),
        decreases t.sources.len() - i,
    {
        let x = &t.sources[i];
        let m = if x.quantity > 1 {
            let mut n = String::new();
            push_i64(&mut n, x.quantity);
            n.append("\u{d7} ");
            n.append(x.name.as_str());
            n
        } else {
            x.name.clone()
        };
        push_cell(&mut makers, m);
        assert(t.sources@.take(i + 1).map_values(|s: DeckTokenSource| spec_maker(s)) =~= t.sources@.take(i as int).map_values(
            |s: DeckTokenSource| spec_maker(s),
        ).push(spec_maker(t.sources@[i as int])));
        i += 1;
    }
    assert(t.sources@.take(t.sources@.len() as int) =~= t.sources@);
    let listed = t.sources.len();
    let capped: bool = if (listed as u64) < 0x8000_0000_0000_0000u64 {
        t.source_count > listed as i64
    } else {
        false
    };
    if capped {
        push_cell(&mut makers, String::from_str("\u{2026}"));
    }
    assert(views(makers@) =~= spec_makers(*t));
    let mut row: Vec<String> = Vec::new();
    push_cell(&mut row, truncate(t.name.as_str(), 26));
    let ty = dash(&t.type_line);
    push_cell(&mut row, truncate(ty.as_str(), 28));
    match &t.card {
        Some(c) => {
            push_cell(&mut row, to_upper(c.set_code.as_str()));
            push_cell(&mut row, c.collector_number.clone());
        },
        None => {
            push_cell(&mut row, String::from_str("\u{2014}"));
            push_cell(&mut row, String::from_str("\u{2014}"));
        },
    }
    push_cell(&mut row, fmt_i64(t.source_count));
    let joined = join(makers.as_slice(), ", ");
    push_cell(&mut row, truncate(joined.as_str(), 40));
    assert(views(row@) =~= spec_token_row(*t));
    row
}

pub fn tokens_report(b: &DeckTokens) -> (out: Vec<Block>)
    ensures
        report_view(out@) == spec_tokens_report(*b),
{
    let mut out: Vec<Block> = Vec::new();
    if b.tokens.len() == 0 {
        let line = if b.unchecked_count > 0 { "No tokens found yet." } else { "This deck makes no tokens." };
        push_block(&mut out, Block::Line(String::from_str(line)));
    } else {
        let header = vec!["Token", "Type", "Set", "#", "Makers", "Made by"];
        assert(header_view(header@) =~= seq!["Token"@, "Type"@, "Set"@, "#"@, "Makers"@, "Made by"@]);
        let mut rows: Vec<Vec<String>> = Vec::new();
        let mut i: usize = 0;
        while i < b.tokens.len()
            invariant
                i <= b.tokens@.len(),
                rows_view(rows@) == b.tokens@.take(i as int).map_values(|t: DeckToken| spec_token_row(t)),
            decreases b.tokens.len() - i,
        {
            push_row(&mut rows, token_row(&b.tokens[i]));
            assert(b.tokens@.take(i + 1).map_values(|t: DeckToken| spec_token_row(t)) =~= b.tokens@.take(i as int).map_values(
                |t: DeckToken| spec_token_row(t),
            ).push(spec_token_row(b.tokens@[i as int])));
            i += 1;
        }
        assert(b.tokens@.take(b.tokens@.len() as int) =~= b.tokens@);
        push_block(&mut out, Block::Table { header, rows });
    }
    if b.unchecked_count > 0 {
        let mut note = String::new();
        push_i64(&mut note, b.unchecked_count);
        note.append(" card(s) haven't been checked for tokens yet \u{2014} the list is a floor, not the whole answer.");
        push_block(&mut out, Block::Note(note));
    }
    assert(report_view(out@) =~= spec_tokens_report(*b));
    out
}

// ---------------------------------------------------------------------------
// Combos, roles, pricing, goldfish
// ---------------------------------------------------------------------------

pub open spec fn spec_assembled_row(c: DeckCombo) -> Seq<Seq<char>> {
    seq![
        spec_truncate(spec_combo_pieces(c), 44),
        spec_truncate(seq_join(views(c.produces@), ", "@), 30),
        dec_int(c.popularity as int),
        spec_dash(opt_view(c.bracket_tag)),
        c.url@,
    ]
}

pub open spec fn spec_almost_row(c: DeckCombo) -> Seq<Seq<char>> {
    seq![
        spec_truncate(spec_combo_missing(c), 28),
        spec_truncate(spec_combo_pieces(c), 38),
        spec_truncate(seq_join(views(c.produces@), ", "@), 26),
        dec_int(c.popularity as int),
        c.url@,
    ]
}

/// The combos a deck assembles and the ones it is one card away from, with the
/// attribution the data's terms ask for. Without synced data it says nothing either
/// way.
pub open spec fn spec_deck_combos_report(c: DeckCombos) -> Seq<BlockView> {
    if !c.available {
        seq![
            BlockView::Line("No combo data has been synced for this game \u{2014} nothing to say either way."@),
            BlockView::Line("Data from "@ + c.source@ + " ("@ + c.source_url@ + ")."@),
        ]
    } else {
        (if c.combos@.len() == 0 {
            seq![BlockView::Line("This deck can't assemble any known combo."@)]
        } else {
            seq![
                BlockView::Line("Assembled:"@),
                BlockView::Table(
                    seq!["Pieces"@, "Produces"@, "Played"@, "Bracket"@, "URL"@],
                    c.combos@.map_values(|x: DeckCombo| spec_assembled_row(x)),
                ),
            ]
        }) + (if c.almost@.len() > 0 {
            seq![
                BlockView::Line("\nOne card away:"@),
                BlockView::Table(
                    seq!["Missing"@, "Combo"@, "Produces"@, "Played"@, "URL"@],
                    c.almost@.map_values(|x: DeckCombo| spec_almost_row(x)),
                ),
            ]
        } else {
            Seq::empty()
        }) + seq![
            BlockView::Note(dec_int(c.combo_count as int) + " assembled \u{b7} "@ + dec_int(c.almost_count as int)
                + " one card away."@),
            BlockView::Note("Data from "@ + c.source@ + " ("@ + c.source_url@ + ")."@),
        ]
    }
}

fn assembled_table(cs: &Vec<DeckCombo>) -> (b: Block)
    ensures
        block_view(b) == BlockView::Table(
            seq!["Pieces"@, "Produces"@, "Played"@, "Bracket"@, "URL"@],
            cs@.map_values(|x: DeckCombo| spec_assembled_row(x)),
        ),
{
    let header = vec!["Pieces", "Produces", "Played", "Bracket", "URL"];
    assert(header_view(header@) =~= seq!["Pieces"@, "Produces"@, "Played"@, "Bracket"@, "URL"@]);
    let mut rows: Vec<Vec<String>> = Vec::new();
    let mut i: usize = 0;
    while i < cs.len()
        invariant
            i <= cs@.len(),
            rows_view(rows@) == cs@.take(i as int).map_values(|x: DeckCombo| spec_assembled_row(x)),
        decreases cs.len() - i,
    {
        let c = &cs[i];
        let mut row: Vec<String> = Vec::new();
        push_cell(&mut row, truncate(combo_pieces(c).as_str(), 44));
        push_cell(&mut row, truncate(join(c.produces.as_slice(), ", ").as_str(), 30));
        push_cell(&mut row, fmt_i64(c.popularity));
        push_cell(&mut row, dash(&c.bracket_tag));
        push_cell(&mut row, c.url.clone());
        assert(views(row@) =~= spec_assembled_row(cs@[i as int]));
        push_row(&mut rows, row);
        assert(cs@.take(i + 1).map_values(|x: DeckCombo| spec_assembled_row(x)) =~= cs@.take(i as int).map_values(
            |x: DeckCombo| spec_assembled_row(x),
        ).push(spec_assembled_row(cs@[i as int])));
        i += 1;
    }
    assert(cs@.take(cs@.len() as int) =~= cs@);
    Block::Table { header, rows }
}

fn almost_table(cs: &Vec<DeckCombo>) -> (b: Block)
    ensures
        block_view(b) == BlockView::Table(
            seq!["Missing"@, "Combo"@, "Produces"@, "Played"@, "URL"@],
            cs@.map_values(|x: DeckCombo| spec_almost_row(x)),
        ),
{
    let header = vec!["Missing", "Combo", "Produces", "Played", "URL"];
    assert(header_view(header@) =~= seq!["Missing"@, "Combo"@, "Produces"@, "Played"@, "URL"@]);
    let mut rows: Vec<Vec<String>> = Vec::new();
    let mut i: usize = 0;
    while i < cs.len()
        invariant
            i <= cs@.len(),
            rows_view(rows@) == cs@.take(i as int).map_values(|x: DeckCombo| spec_almost_row(x)),
        decreases cs.len() - i,
    {
        let c = &cs[i];
        let mut row: Vec<String> = Vec::new();
        push_cell(&mut row, truncate(combo_missing(c).as_str(), 28));
        push_cell(&mut row, truncate(combo_pieces(c).as_str(), 38));
        push_cell(&mut row, truncate(join(c.produces.as_slice(), ", ").as_str(), 26));
        push_cell(&mut row, fmt_i64(c.popularity));
        push_cell(&mut row, c.url.clone());
        assert(views(row@) =~= spec_almost_row(cs@[i as int]));
        push_row(&mut rows, row);
        assert(cs@.take(i + 1).map_values(|x: DeckCombo| spec_almost_row(x)) =~= cs@.take(i as int).map_values(
            |x: DeckCombo| spec_almost_row(x),
        ).push(spec_almost_row(cs@[i as int])));
        i += 1;
    }
    assert(cs@.take(cs@.len() as int) =~= cs@);
    Block::Table { header, rows }
}

pub fn deck_combos_report(c: &DeckCombos) -> (out: Vec<Block>)
    ensures
        report_view(out@) == spec_deck_combos_report(*c),
{
    let mut out: Vec<Block> = Vec::new();
    let mut attribution = String::from_str("Data from ");
    attribution.append(c.source.as_str());
    attribution.append(" (");
    attribution.append(c.source_url.as_str());
    attribution.append(").");
    if !c.available {
        push_block(
            &mut out,
            Block::Line(String::from_str("No combo data has been synced for this game \u{2014} nothing to say either way.")),
        );
        push_block(&mut out, Block::Line(attribution));
        assert(report_view(out@) =~= spec_deck_combos_report(*c));
        return out;
    }
    if c.combos.len() == 0 {
        push_block(&mut out, Block::Line(String::from_str("This deck can't assemble any known combo.")));
    } else {
        push_block(&mut out, Block::Line(String::from_str("Assembled:")));
        push_block(&mut out, assembled_table(&c.combos));
    }
    if c.almost.len() > 0 {
        push_block(&mut out, Block::Line(String::from_str("\nOne card away:")));
        push_block(&mut out, almost_table(&c.almost));
    }
    let mut counts = String::new();
    push_i64(&mut counts, c.combo_count);
    counts.append(" assembled \u{b7} ");
    push_i64(&mut counts, c.almost_count);
    counts.append(" one card away.");
    push_block(&mut out, Block::Note(counts));
    push_block(&mut out, Block::Note(attribution));
    assert(report_view(out@) =~= spec_deck_combos_report(*c));
    out
}

/// A role example card: `2× Name`, or the bare name.
pub open spec fn spec_role_card(c: DeckRoleCard) -> Seq<char> {
    if c.quantity > 1 {
        dec_int(c.quantity as int) + "\u{d7} "@ + c.name@
    } else {
        c.name@
    }
}

pub open spec fn spec_role_row(g: DeckRoleGroup) -> Seq<Seq<char>> {
    seq![
        g.label@,
        dec_int(g.count as int),
        dec_int(g.copies as int),
        spec_truncate(seq_join(g.cards@.map_values(|c: DeckRoleCard| spec_role_card(c)), ", "@), 52),
    ]
}

/// How many pieces of each role the deck holds, and how much fills none.
pub open spec fn spec_roles_report(r: DeckRoles) -> Seq<BlockView> {
    seq![
        BlockView::Table(
            seq!["Role"@, "Cards"@, "Copies"@, "Examples"@],
            r.roles@.map_values(|g: DeckRoleGroup| spec_role_row(g)),
        ),
        BlockView::Note(dec_int(r.card_count as int) + " card(s) in the deck \u{b7} "@ + dec_int(r.unclassified_count as int)
            + " fill no role (the roles aren't a partition)."@),
    ]
}

fn role_row(g: &DeckRoleGroup) -> (r: Vec<String>)
    ensures
        views(r@) == spec_role_row(*g),
{
    let mut names: Vec<String> = Vec::new();
    let mut i: usize = 0;
    while i < g.cards.len()
        invariant
            i <= g.cards@.len(),
            views(names@) == g.cards@.take(i as int).map_values(|c: DeckRoleCard| spec_role_card(c)),
        decreases g.cards.len() - i,
    {
        let c = &g.cards[i];
        let n = if c.quantity > 1 {
            let mut n = String::new();
            push_i64(&mut n, c.quantity);
            n.append("\u{d7} ");
            n.append(c.name.as_str());
            n
        } else {
            c.name.clone()
        };
        push_cell(&mut names, n);
        assert(g.cards@.take(i + 1).map_values(|c: DeckRoleCard| spec_role_card(c)) =~= g.cards@.take(i as int).map_values(
            |c: DeckRoleCard| spec_role_card(c),
        ).push(spec_role_card(g.cards@[i as int])));
        i += 1;
    }
    assert(g.cards@.take(g.cards@.len() as int) =~= g.cards@);
    let mut row: Vec<String> = Vec::new();
    push_cell(&mut row, g.label.clone());
    push_cell(&mut row, fmt_i64(g.count));
    push_cell(&mut row, fmt_i64(g.copies));
    push_cell(&mut row, truncate(join(names.as_slice(), ", ").as_str(), 52));
    assert(views(row@) =~= spec_role_row(*g));
    row
}

pub fn roles_report(r: &DeckRoles) -> (out: Vec<Block>)
    ensures
        report_view(out@) == spec_roles_report(*r),
{
    let header = vec!["Role", "Cards", "Copies", "Examples"];
    assert(header_view(header@) =~= seq!["Role"@, "Cards"@, "Copies"@, "Examples"@]);
    let mut rows: Vec<Vec<String>> = Vec::new();
    let mut i: usize = 0;
    while i < r.roles.len()
        invariant
            i <= r.roles@.len(),
            rows_view(rows@) == r.roles@.take(i as int).map_values(|g: DeckRoleGroup| spec_role_row(g)),
        decreases r.roles.len() - i,
    {
        push_row(&mut rows, role_row(&r.roles[i]));
        assert(r.roles@.take(i + 1).map_values(|g: DeckRoleGroup| spec_role_row(g)) =~= r.roles@.take(i as int).map_values(
            |g: DeckRoleGroup| spec_role_row(g),
        ).push(spec_role_row(r.roles@[i as int])));
        i += 1;
    }
    assert(r.roles@.take(r.roles@.len() as int) =~= r.roles@);
    let mut out: Vec<Block> = Vec::new();
    push_block(&mut out, Block::Table { header, rows });
    let mut note = String::new();
    push_i64(&mut note, r.card_count);
    note.append(" card(s) in the deck \u{b7} ");
    push_i64(&mut note, r.unclassified_count);
    note.append(" fill no role (the roles aren't a partition).");
    push_block(&mut out, Block::Note(note));
    assert(report_view(out@) =~= spec_roles_report(*r));
    out
}

pub open spec fn spec_pricing_row(l: DeckPricingLine) -> Seq<Seq<char>> {
    seq![
        dec_int(l.quantity as int),
        dec_int(l.foil_quantity as int),
        spec_truncate(l.card.name@, 32),
        str_upper(l.card.set_code@),
        l.card.collector_number@,
        spec_price(opt_view(l.price_usd)),
        spec_price(match l.cheapest {
            Some(c) => Some(c.price_usd@),
            None => None,
        }),
        spec_price(opt_view(l.saving_usd)),
    ]
}

pub open spec fn pricing_header() -> Seq<Seq<char>> {
    seq!["Qty"@, "Foil"@, "Name"@, "Set"@, "#"@, "Held"@, "Cheapest"@, "Saving"@]
}

/// A deck priced as held beside its cheapest printings, with the totals and how
/// much of it could save money or is unpriced.
pub open spec fn spec_pricing_report(p: DeckPricing) -> Seq<BlockView> {
    if p.lines@.len() == 0 {
        seq![BlockView::Line("This deck has no cards to price."@)]
    } else {
        seq![
            BlockView::Table(pricing_header(), p.lines@.map_values(|l: DeckPricingLine| spec_pricing_row(l))),
            BlockView::Line("\nTotal "@ + spec_price(opt_view(p.total_usd)) + "  \u{b7}  at the cheapest printings "@
                + spec_price(opt_view(p.cheapest_total_usd)) + "  \u{b7}  saving "@ + spec_price(opt_view(p.saving_usd))),
        ] + (if p.swappable_count > 0 {
            seq![BlockView::Note(dec_int(p.swappable_count as int) + " row(s) would save money on a printing swap."@)]
        } else {
            Seq::empty()
        }) + if p.unpriced_count > 0 {
            seq![
                BlockView::Note(dec_int(p.unpriced_count as int)
                    + " row(s) unpriced in every finish they hold \u{2014} the total is a floor."@),
            ]
        } else {
            Seq::empty()
        }
    }
}

fn pricing_row(l: &DeckPricingLine) -> (r: Vec<String>)
    ensures
        views(r@) == spec_pricing_row(*l),
{
    let mut row: Vec<String> = Vec::new();
    push_cell(&mut row, fmt_i64(l.quantity));
    push_cell(&mut row, fmt_i64(l.foil_quantity));
    push_cell(&mut row, truncate(l.card.name.as_str(), 32));
    push_cell(&mut row, to_upper(l.card.set_code.as_str()));
    push_cell(&mut row, l.card.collector_number.clone());
    push_cell(&mut row, price(&l.price_usd));
    let cheapest = match &l.cheapest {
        Some(c) => Some(c.price_usd.clone()),
        None => None,
    };
    push_cell(&mut row, price(&cheapest));
    push_cell(&mut row, price(&l.saving_usd));
    assert(views(row@) =~= spec_pricing_row(*l));
    row
}

pub fn pricing_report(p: &DeckPricing) -> (out: Vec<Block>)
    ensures
        report_view(out@) == spec_pricing_report(*p),
{
    let mut out: Vec<Block> = Vec::new();
    if p.lines.len() == 0 {
        push_block(&mut out, Block::Line(String::from_str("This deck has no cards to price.")));
        assert(report_view(out@) =~= spec_pricing_report(*p));
        return out;
    }
    let header = vec!["Qty", "Foil", "Name", "Set", "#", "Held", "Cheapest", "Saving"];
    assert(header_view(header@) =~= pricing_header());
    let mut rows: Vec<Vec<String>> = Vec::new();
    let mut i: usize = 0;
    while i < p.lines.len()
        invariant
            i <= p.lines@.len(),
            rows_view(rows@) == p.lines@.take(i as int).map_values(|l: DeckPricingLine| spec_pricing_row(l)),
        decreases p.lines.len() - i,
    {
        push_row(&mut rows, pricing_row(&p.lines[i]));
        assert(p.lines@.take(i + 1).map_values(|l: DeckPricingLine| spec_pricing_row(l)) =~= p.lines@.take(
            i as int,
        ).map_values(|l: DeckPricingLine| spec_pricing_row(l)).push(spec_pricing_row(p.lines@[i as int])));
        i += 1;
    }
    assert(p.lines@.take(p.lines@.len() as int) =~= p.lines@);
    push_block(&mut out, Block::Table { header, rows });
    let mut total = String::from_str("\nTotal ");
    total.append(price(&p.total_usd).as_str());
    total.append("  \u{b7}  at the cheapest printings ");
    total.append(price(&p.cheapest_total_usd).as_str());
    total.append("  \u{b7}  saving ");
    total.append(price(&p.saving_usd).as_str());
    push_block(&mut out, Block::Line(total));
    if p.swappable_count > 0 {
        let mut n = String::new();
        push_i64(&mut n, p.swappable_count);
        n.append(" row(s) would save money on a printing swap.");
        push_block(&mut out, Block::Note(n));
    }
    if p.unpriced_count > 0 {
        let mut n = String::new();
        push_i64(&mut n, p.unpriced_count);
        n.append(" row(s) unpriced in every finish they hold \u{2014} the total is a floor.");
        push_block(&mut out, Block::Note(n));
    }
    assert(report_view(out@) =~= spec_pricing_report(*p));
    out
}

pub open spec fn card_header() -> Seq<Seq<char>> {
    seq!["ID"@, "Name"@, "Set"@, "#"@, "Rarity"@, "USD"@, "Foil"@]
}

/// A dealt sample hand: the deal's parameters, the hand, what went to the bottom,
/// and how to replay it.
pub open spec fn spec_goldfish_report(h: GoldfishHand) -> Seq<BlockView> {
    seq![
        BlockView::Line("seed "@ + dec_int(h.seed as int) + " \u{b7} opening "@ + dec_int(h.opening as int) + " \u{b7} mulligans "@
            + dec_int(h.mulligans as int) + " \u{b7} draws "@ + dec_int(h.draws as int) + " \u{b7} "@ + dec_int(
            h.library_size as int,
        ) + " of "@ + dec_int(h.library_total as int) + " left in the library"@),
        BlockView::Line("sections: "@ + spec_join_ids(h.section_ids@, "(none)"@)),
    ] + (if h.hand@.len() == 0 {
        seq![BlockView::Line("\n(no cards \u{2014} the library is empty)"@)]
    } else {
        seq![
            BlockView::Line(Seq::empty()),
            BlockView::Table(card_header(), h.hand@.map_values(|c: crate::models::Card| spec_cards_row(c))),
        ]
    }) + (if h.bottomed@.len() > 0 {
        seq![
            BlockView::Line("\nBottomed:"@),
            BlockView::Table(card_header(), h.bottomed@.map_values(|c: crate::models::Card| spec_cards_row(c))),
        ]
    } else {
        Seq::empty()
    }) + (if h.to_bottom > 0 {
        seq![
            BlockView::Note("\n"@ + dec_int(h.to_bottom as int)
                + " more card(s) still to go to the bottom \u{2014} name them with --bottom <card-ids>."@),
        ]
    } else {
        Seq::empty()
    }) + seq![BlockView::Note("Replay this hand with --seed "@ + dec_int(h.seed as int) + " (plus the same options)."@)]
}

pub fn goldfish_report(h: &GoldfishHand) -> (out: Vec<Block>)
    ensures
        report_view(out@) == spec_goldfish_report(*h),
{
    let mut out: Vec<Block> = Vec::new();
    let mut head = String::from_str("seed ");
    push_i64(&mut head, h.seed);
    head.append(" \u{b7} opening ");
    push_i64(&mut head, h.opening);
    head.append(" \u{b7} mulligans ");
    push_i64(&mut head, h.mulligans);
    head.append(" \u{b7} draws ");
    push_i64(&mut head, h.draws);
    head.append(" \u{b7} ");
    push_i64(&mut head, h.library_size);
    head.append(" of ");
    push_i64(&mut head, h.library_total);
    head.append(" left in the library");
    push_block(&mut out, Block::Line(head));
    let mut sections = String::from_str("sections: ");
    sections.append(join_ids(h.section_ids.as_slice(), "(none)").as_str());
    push_block(&mut out, Block::Line(sections));
    if h.hand.len() == 0 {
        push_block(&mut out, Block::Line(String::from_str("\n(no cards \u{2014} the library is empty)")));
    } else {
        push_block(&mut out, Block::Line(String::new()));
        push_block(&mut out, cards_table(&h.hand));
    }
    if h.bottomed.len() > 0 {
        push_block(&mut out, Block::Line(String::from_str("\nBottomed:")));
        push_block(&mut out, cards_table(&h.bottomed));
    }
    if h.to_bottom > 0 {
        let mut n = String::from_str("\n");
        push_i64(&mut n, h.to_bottom);
        n.append(" more card(s) still to go to the bottom \u{2014} name them with --bottom <card-ids>.");
        push_block(&mut out, Block::Note(n));
    }
    let mut replay = String::from_str("Replay this hand with --seed ");
    push_i64(&mut replay, h.seed);
    replay.append(" (plus the same options).");
    push_block(&mut out, Block::Note(replay));
    assert(report_view(out@) =~= spec_goldfish_report(*h));
    out
}

// ---------------------------------------------------------------------------
// Diff
// ---------------------------------------------------------------------------

/// `{:+}` of an integer.
pub open spec fn signed(i: int) -> Seq<char> {
    if i >= 0 {
        "+"@ + dec_int(i)
    } else {
        dec_int(i)
    }
}

pub open spec fn spec_diff_row(e: DeckDiffEntry) -> Seq<Seq<char>> {
    let split = e.change@ == "finish"@;
    seq![
        e.change@,
        spec_truncate(e.name@, 34),
        spec_diff_qty(e.base_quantity, e.base_foil_quantity, split),
        spec_diff_qty(e.other_quantity, e.other_foil_quantity, split),
        signed(e.delta as int),
    ]
}

pub open spec fn diff_header() -> Seq<Seq<char>> {
    seq!["Change"@, "Name"@, "Base"@, "Other"@, "\u{394}"@]
}

/// One section's block of a diff.
pub open spec fn spec_diff_section(s: DeckDiffSection) -> Seq<BlockView> {
    seq![
        BlockView::Line("\n== "@ + s.name@ + (if s.is_maybeboard {
            "  [maybeboard]"@
        } else {
            Seq::empty()
        }) + " ==  ("@ + dec_int(s.unchanged as int) + " card(s) held identically)"@),
        BlockView::Table(diff_header(), s.entries@.map_values(|e: DeckDiffEntry| spec_diff_row(e))),
    ]
}

pub open spec fn spec_diff_sections(ss: Seq<DeckDiffSection>) -> Seq<BlockView>
    decreases ss.len(),
{
    if ss.len() == 0 {
        Seq::empty()
    } else {
        spec_diff_sections(ss.drop_last()) + spec_diff_section(ss.last())
    }
}

/// What changed between two decks: the two sides, the summary counts, the card
/// changes (or that there are none), then each section with something to report.
pub open spec fn spec_diff_report(d: DeckDiff) -> Seq<BlockView> {
    seq![
        BlockView::Line(d.base.name@ + " ["@ + dec_int(d.base.id as int) + "] vs "@ + d.other.name@ + " ["@ + dec_int(
            d.other.id as int,
        ) + "]"@),
        BlockView::Line("  "@ + dec_int(d.base.total_cards as int) + " cards vs "@ + dec_int(d.other.total_cards as int)
            + " cards"@),
        BlockView::Line("  "@ + dec_int(d.summary.added as int) + " added \u{b7} "@ + dec_int(d.summary.removed as int)
            + " removed \u{b7} "@ + dec_int(d.summary.changed as int) + " changed \u{b7} "@ + dec_int(
            d.summary.finish_changed as int,
        ) + " finish-only \u{b7} "@ + dec_int(d.summary.unchanged as int) + " unchanged"@),
    ] + (if d.cards@.len() == 0 {
        seq![BlockView::Line("\nThe two decks hold the same cards."@)]
    } else {
        seq![
            BlockView::Line(Seq::empty()),
            BlockView::Table(diff_header(), d.cards@.map_values(|e: DeckDiffEntry| spec_diff_row(e))),
        ]
    }) + spec_diff_sections(d.sections@)
}

fn diff_table(entries: &Vec<DeckDiffEntry>) -> (b: Block)
    ensures
        block_view(b) == BlockView::Table(diff_header(), entries@.map_values(|e: DeckDiffEntry| spec_diff_row(e))),
{
    let header = vec!["Change", "Name", "Base", "Other", "\u{394}"];
    assert(header_view(header@) =~= diff_header());
    let mut rows: Vec<Vec<String>> = Vec::new();
    let mut i: usize = 0;
    while i < entries.len()
        invariant
            i <= entries@.len(),
            rows_view(rows@) == entries@.take(i as int).map_values(|e: DeckDiffEntry| spec_diff_row(e)),
        decreases entries.len() - i,
    {
        let e = &entries[i];
        let cc = crate::text::chars_of(e.change.as_str());
        let split = crate::text::chars_equal(cc.as_slice(), "finish");
        let mut row: Vec<String> = Vec::new();
        push_cell(&mut row, e.change.clone());
        push_cell(&mut row, truncate(e.name.as_str(), 34));
        push_cell(&mut row, diff_qty(e.base_quantity, e.base_foil_quantity, split));
        push_cell(&mut row, diff_qty(e.other_quantity, e.other_foil_quantity, split));
        let mut d = String::new();
        if e.delta >= 0 {
            d.append("+");
        }
        push_i64(&mut d, e.delta);
        push_cell(&mut row, d);
        assert(views(row@) =~= spec_diff_row(entries@[i as int]));
        push_row(&mut rows, row);
        assert(entries@.take(i + 1).map_values(|e: DeckDiffEntry| spec_diff_row(e)) =~= entries@.take(i as int).map_values(
            |e: DeckDiffEntry| spec_diff_row(e),
        ).push(spec_diff_row(entries@[i as int])));
        i += 1;
    }
    assert(entries@.take(entries@.len() as int) =~= entries@);
    Block::Table { header, rows }
}

pub fn diff_report(d: &DeckDiff) -> (out: Vec<Block>)
    ensures
        report_view(out@) == spec_diff_report(*d),
{
    let mut out: Vec<Block> = Vec::new();
    let mut l1 = d.base.name.clone();
    l1.append(" [");
    push_i64(&mut l1, d.base.id);
    l1.append("] vs ");
    l1.append(d.other.name.as_str());
    l1.append(" [");
    push_i64(&mut l1, d.other.id);
    l1.append("]");
    push_block(&mut out, Block::Line(l1));
    let mut l2 = String::from_str("  ");
    push_i64(&mut l2, d.base.total_cards);
    l2.append(" cards vs ");
    push_i64(&mut l2, d.other.total_cards);
    l2.append(" cards");
    push_block(&mut out, Block::Line(l2));
    let mut l3 = String::from_str("  ");
    push_i64(&mut l3, d.summary.added);
    l3.append(" added \u{b7} ");
    push_i64(&mut l3, d.summary.removed);
    l3.append(" removed \u{b7} ");
    push_i64(&mut l3, d.summary.changed);
    l3.append(" changed \u{b7} ");
    push_i64(&mut l3, d.summary.finish_changed);
    l3.append(" finish-only \u{b7} ");
    push_i64(&mut l3, d.summary.unchanged);
    l3.append(" unchanged");
    push_block(&mut out, Block::Line(l3));
    if d.cards.len() == 0 {
        push_block(&mut out, Block::Line(String::from_str("\nThe two decks hold the same cards.")));
    } else {
        push_block(&mut out, Block::Line(String::new()));
        push_block(&mut out, diff_table(&d.cards));
    }
    let ghost base = report_view(out@);
    let mut i: usize = 0;
    while i < d.sections.len()
        invariant
            i <= d.sections@.len(),
            report_view(out@) == base + spec_diff_sections(d.sections@.take(i as int)),
        decreases d.sections.len() - i,
    {
        let s = &d.sections[i];
        let mut head = String::from_str("\n== ");
        head.append(s.name.as_str());
        if s.is_maybeboard {
            head.append("  [maybeboard]");
        }
        head.append(" ==  (");
        push_i64(&mut head, s.unchanged);
        head.append(" card(s) held identically)");
        push_block(&mut out, Block::Line(head));
        push_block(&mut out, diff_table(&s.entries));
        assert(d.sections@.take(i + 1).drop_last() =~= d.sections@.take(i as int));
        i += 1;
    }
    assert(d.sections@.take(d.sections@.len() as int) =~= d.sections@);
    assert(report_view(out@) =~= spec_diff_report(*d));
    out
}

// ---------------------------------------------------------------------------
// One deck in full
// ---------------------------------------------------------------------------

/// The copies (regular and foil) a list of deck cards holds.
pub open spec fn deck_copies(cards: Seq<DeckCardEntry>) -> int
    decreases cards.len(),
{
    if cards.len() == 0 {
        0
    } else {
        deck_copies(cards.drop_last()) + cards.last().quantity + cards.last().foil_quantity
    }
}

pub open spec fn spec_deck_row(c: DeckCardEntry) -> Seq<Seq<char>> {
    seq![
        dec_int(c.quantity as int),
        dec_int(c.foil_quantity as int),
        spec_truncate(c.card.name@, 34),
        str_upper(c.card.set_code@),
        c.card.collector_number@,
    ]
}

fn deck_row(c: &DeckCardEntry) -> (r: Vec<String>)
    ensures
        views(r@) == spec_deck_row(*c),
{
    let mut row: Vec<String> = Vec::new();
    push_cell(&mut row, fmt_i64(c.quantity));
    push_cell(&mut row, fmt_i64(c.foil_quantity));
    push_cell(&mut row, truncate(c.card.name.as_str(), 34));
    push_cell(&mut row, to_upper(c.card.set_code.as_str()));
    push_cell(&mut row, c.card.collector_number.clone());
    assert(views(row@) =~= spec_deck_row(*c));
    row
}

/// One section of a deck: its heading with its copies (and a maybeboard mark),
/// then its cards; nothing when it holds no copies.
pub open spec fn spec_deck_section(s: DeckSection, cards: Seq<DeckCardEntry>) -> Seq<BlockView> {
    let cs = section_cards(cards, s.id);
    let n = deck_copies(cs);
    if n == 0 {
        Seq::empty()
    } else {
        seq![
            BlockView::Line(
                "\n== "@ + s.name@ + " ("@ + dec_int(n) + ")"@ + (if s.is_maybeboard {
                    "  [maybeboard]"@
                } else {
                    Seq::empty()
                }) + " =="@,
            ),
            BlockView::Table(
                seq!["Qty"@, "Foil"@, "Name"@, "Set"@, "#"@],
                cs.map_values(|c: DeckCardEntry| spec_deck_row(c)),
            ),
        ]
    }
}

pub open spec fn spec_deck_sections(sections: Seq<DeckSection>, cards: Seq<DeckCardEntry>) -> Seq<BlockView>
    decreases sections.len(),
{
    if sections.len() == 0 {
        Seq::empty()
    } else {
        spec_deck_sections(sections.drop_last(), cards) + spec_deck_section(sections.last(), cards)
    }
}

/// A card list too long to hold in memory is left out; below this bound the
/// copies of a section cannot overflow the wide sum.
pub open spec fn cards_fit(n: nat) -> bool {
    n <= 0x3fff_ffff_ffff_ffff
}

fn deck_section(out: &mut Vec<Block>, s: &DeckSection, cards: &Vec<DeckCardEntry>)
    requires
        cards_fit(cards@.len()),
    ensures
        report_view(final(out)@) == report_view(old(out)@) + spec_deck_section(*s, cards@),
{
    let mut rows: Vec<Vec<String>> = Vec::new();
    let mut total: i128 = 0;
    let mut i: usize = 0;
    while i < cards.len()
        invariant
            i <= cards@.len(),
            cards_fit(cards@.len()),
            rows_view(rows@) == section_cards(cards@.take(i as int), s.id).map_values(
                |c: DeckCardEntry| spec_deck_row(c),
            ),
            total == deck_copies(section_cards(cards@.take(i as int), s.id)),
            -(i as int) * 0x1_0000_0000_0000_0000 <= total <= (i as int) * 0x1_0000_0000_0000_0000,
        decreases cards.len() - i,
    {
        let c = &cards[i];
        let ghost prev = section_cards(cards@.take(i as int), s.id);
        assert(cards@.take(i + 1).drop_last() =~= cards@.take(i as int));
        assert(cards@.take(i + 1).last() == cards@[i as int]);
        if c.section_id == s.id {
            assert(prev.push(*c).drop_last() =~= prev);
            push_row(&mut rows, deck_row(c));
            total = total + c.quantity as i128 + c.foil_quantity as i128;
            assert(prev.push(*c).map_values(|c: DeckCardEntry| spec_deck_row(c)) =~= prev.map_values(
                |c: DeckCardEntry| spec_deck_row(c),
            ).push(spec_deck_row(*c)));
        }
        i += 1;
    }
    assert(cards@.take(cards@.len() as int) =~= cards@);
    if total == 0 {
        assert(report_view(out@) =~= report_view(old(out)@) + spec_deck_section(*s, cards@));
        return ;
    }
    let mut head = String::from_str("\n== ");
    head.append(s.name.as_str());
    head.append(" (");
    push_i128(&mut head, total);
    head.append(")");
    if s.is_maybeboard {
        head.append("  [maybeboard]");
    }
    head.append(" ==");
    push_block(out, Block::Line(head));
    let header = vec!["Qty", "Foil", "Name", "Set", "#"];
    assert(header_view(header@) =~= seq!["Qty"@, "Foil"@, "Name"@, "Set"@, "#"@]);
    push_block(out, Block::Table { header, rows });
    assert(report_view(out@) =~= report_view(old(out)@) + spec_deck_section(*s, cards@));
}

/// A deck's header: name and id; format, size, value and sharing; the maybeboard
/// when it holds cards (its cards stay out of the deck's totals); the description
/// when there is one.
pub open spec fn spec_deck_head(d: DeckDetail) -> Seq<Seq<char>> {
    seq![
        d.name@ + "  [id "@ + dec_int(d.id as int) + "]"@,
        "  format: "@ + spec_dash(opt_view(d.format)) + "  \u{b7}  cards: "@ + dec_int(d.summary.total_cards as int)
            + "  \u{b7}  value: "@ + spec_price(opt_view(d.summary.total_value_usd)) + "  \u{b7}  public: "@
            + bool_text(d.is_public),
    ] + match d.maybeboard_summary {
        Some(m) => if m.total_cards > 0 {
            seq!["  maybeboard: "@ + dec_int(m.total_cards as int) + " cards \u{b7} "@ + spec_price(opt_view(m.total_value_usd))]
        } else {
            Seq::empty()
        },
        None => Seq::empty(),
    } + match d.description {
        Some(desc) => if desc@.len() > 0 {
            seq!["  "@ + desc@]
        } else {
            Seq::empty()
        },
        None => Seq::empty(),
    }
}

/// One deck in full: the header lines, then each section that holds copies, in
/// section order, with its cards in deck order.
pub open spec fn spec_print_deck_detail(d: DeckDetail) -> Seq<BlockView> {
    spec_deck_head(d).map_values(|l: Seq<char>| BlockView::Line(l)) + spec_deck_sections(d.sections@, d.cards@)
}

fn push_line(out: &mut Vec<Block>, l: String)
    ensures
        report_view(final(out)@) == report_view(old(out)@).push(BlockView::Line(l@)),
{
    push_block(out, Block::Line(l));
}

pub fn print_deck_detail(d: &DeckDetail) -> (out: Vec<Block>)
    requires
        cards_fit(d.cards@.len()),
    ensures
        report_view(out@) == spec_print_deck_detail(*d),
{
    let mut out: Vec<Block> = Vec::new();
    let mut a = d.name.clone();
    a.append("  [id ");
    push_i64(&mut a, d.id);
    a.append("]");
    push_line(&mut out, a);
    let mut b = String::from_str("  format: ");
    let f = dash(&d.format);
    b.append(f.as_str());
    b.append("  \u{b7}  cards: ");
    push_i64(&mut b, d.summary.total_cards);
    b.append("  \u{b7}  value: ");
    let v = price(&d.summary.total_value_usd);
    b.append(v.as_str());
    b.append("  \u{b7}  public: ");
    push_bool(&mut b, d.is_public);
    push_line(&mut out, b);
    let ghost two = report_view(out@);
    if let Some(m) = &d.maybeboard_summary {
        if m.total_cards > 0 {
            let mut l = String::from_str("  maybeboard: ");
            push_i64(&mut l, m.total_cards);
            l.append(" cards \u{b7} ");
            let mv = price(&m.total_value_usd);
            l.append(mv.as_str());
            push_line(&mut out, l);
        }
    }
    let ghost three = report_view(out@);
    if let Some(desc) = &d.description {
        if desc.unicode_len() > 0 {
            let mut l = String::from_str("  ");
            l.append(desc.as_str());
            push_line(&mut out, l);
        }
    }
    assert(report_view(out@) =~= spec_deck_head(*d).map_values(|l: Seq<char>| BlockView::Line(l)));
    let ghost head = report_view(out@);
    let mut i: usize = 0;
    while i < d.sections.len()
        invariant
            i <= d.sections@.len(),
            cards_fit(d.cards@.len()),
            report_view(out@) == head + spec_deck_sections(d.sections@.take(i as int), d.cards@),
        decreases d.sections.len() - i,
    {
        deck_section(&mut out, &d.sections[i], &d.cards);
        assert(d.sections@.take(i + 1).drop_last() =~= d.sections@.take(i as int));
        i += 1;
    }
    assert(d.sections@.take(d.sections@.len() as int) =~= d.sections@);
    out
}

// ---------------------------------------------------------------------------
// Deck statistics (the parts without a float)
// ---------------------------------------------------------------------------

/// The buckets of a distribution that hold copies, each as `label count`.
pub open spec fn shown_buckets(items: Seq<DeckStatItem>) -> Seq<Seq<char>>
    decreases items.len(),
{
    if items.len() == 0 {
        Seq::empty()
    } else if items.last().count > 0 {
        shown_buckets(items.drop_last()).push(items.last().label@ + " "@ + dec_int(items.last().count as int))
    } else {
        shown_buckets(items.drop_last())
    }
}

/// One distribution on a line, `  Curve   : 1 4 · 2 9`, or nothing when no bucket
/// holds a copy.
pub open spec fn spec_distribution(label: Seq<char>, items: Seq<DeckStatItem>) -> Option<Seq<char>> {
    let shown = shown_buckets(items);
    if shown.len() == 0 {
        None
    } else {
        Some("  "@ + crate::text::pad_right(label, 8) + ": "@ + seq_join(shown, " \u{b7} "@))
    }
}

pub fn print_distribution(label: &str, items: &Vec<DeckStatItem>) -> (r: Option<String>)
    ensures
        match r {
            Some(l) => spec_distribution(label@, items@) == Some(l@),
            None => spec_distribution(label@, items@) is None,
        },
{
    let mut shown: Vec<String> = Vec::new();
    let mut i: usize = 0;
    while i < items.len()
        invariant
            i <= items@.len(),
            views(shown@) == shown_buckets(items@.take(i as int)),
        decreases items.len() - i,
    {
        let it = &items[i];
        assert(items@.take(i + 1).drop_last() =~= items@.take(i as int));
        if it.count > 0 {
            let mut cell = it.label.clone();
            cell.append(" ");
            push_i64(&mut cell, it.count);
            push_cell(&mut shown, cell);
        }
        i += 1;
    }
    assert(items@.take(items@.len() as int) =~= items@);
    if shown.len() == 0 {
        return None;
    }
    let mut line = String::from_str("  ");
    let padded = crate::text::left_aligned(label, 8);
    line.append(padded.as_str());
    line.append(": ");
    let joined = join(shown.as_slice(), " \u{b7} ");
    line.append(joined.as_str());
    Some(line)
}

/// The library line: which sections the draw odds read from.
pub fn library_line(section_ids: &Vec<i64>) -> (r: String)
    ensures
        r@ == "\nLibrary sections: "@ + spec_join_ids(section_ids@, "(none)"@),
{
    let mut out = String::from_str("\nLibrary sections: ");
    let ids = join_ids(section_ids.as_slice(), "(none)");
    out.append(ids.as_str());
    out
}

/// What the heading over the draw odds reads of them: the card, its copies and
/// the library's size (the odds themselves are fractions, printed by the caller).
pub struct OddsHead {
    pub name: String,
    pub copies: i64,
    pub library_size: i64,
}

/// The heading over the draw odds, or why there are none.
pub open spec fn spec_odds_heading(odds: Option<OddsHead>) -> Seq<char> {
    match odds {
        None => "\nNo draw odds \u{2014} the library pool is empty."@,
        Some(o) => "\nDraw odds for "@ + o.name@ + " \u{2014} "@ + dec_int(o.copies as int) + " cop"@ + (if o.copies == 1 {
            "y"@
        } else {
            "ies"@
        }) + " in "@ + dec_int(o.library_size as int) + " cards:"@,
    }
}

pub fn odds_heading(odds: &Option<OddsHead>) -> (r: String)
    ensures
        r@ == spec_odds_heading(*odds),
{
    match odds {
        None => String::from_str("\nNo draw odds \u{2014} the library pool is empty."),
        Some(o) => {
            let mut out = String::from_str("\nDraw odds for ");
            out.append(o.name.as_str());
            out.append(" \u{2014} ");
            push_i64(&mut out, o.copies);
            out.append(" cop");
            out.append(if o.copies == 1 { "y" } else { "ies" });
            out.append(" in ");
            push_i64(&mut out, o.library_size);
            out.append(" cards:");
            out
        },
    }
}

/// The checkpoints of the odds curve a terminal shows: how many cards seen, among
/// 1, 7, 10, 15, 20 and 30, the curve reaches.
pub open spec fn spec_checkpoints(curve_len: nat) -> Seq<usize> {
    within(seq![1usize, 7usize, 10usize, 15usize, 20usize, 30usize], curve_len)
}

/// The members of `s` no greater than `n`, in order.
pub open spec fn within(s: Seq<usize>, n: nat) -> Seq<usize>
    decreases s.len(),
{
    if s.len() == 0 {
        Seq::empty()
    } else if s.last() <= n {
        within(s.drop_last(), n).push(s.last())
    } else {
        within(s.drop_last(), n)
    }
}

pub fn checkpoints(curve_len: usize) -> (r: Vec<usize>)
    ensures
        r@ == spec_checkpoints(curve_len as nat),
        forall|k: int| 0 <= k < r@.len() ==> 1 <= #[trigger] r@[k] <= curve_len,
{
    let all: Vec<usize> = vec![1, 7, 10, 15, 20, 30];
    let mut out: Vec<usize> = Vec::new();
    let mut i: usize = 0;
    while i < all.len()
        invariant
            i <= all@.len(),
            all@ == seq![1usize, 7usize, 10usize, 15usize, 20usize, 30usize],
            out@ == within(all@.take(i as int), curve_len as nat),
            forall|k: int| 0 <= k < out@.len() ==> 1 <= #[trigger] out@[k] <= curve_len,
        decreases all.len() - i,
    {
        assert(all@.take(i + 1).drop_last() =~= all@.take(i as int));
        if all[i] <= curve_len {
            out.push(all[i]);
        }
        i += 1;
    }
    assert(all@.take(all@.len() as int) =~= all@);
    out
}

} // verus!
