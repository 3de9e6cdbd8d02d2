//! What the browser draws, as text: each list row's spans, the detail panes' lines
//! with their emphasis, the block titles, the breadcrumb, the footer and the
//! Account screen. The terminal side only applies colours.
use super::app::{Screen, Tui};
use super::{foil_label, footer, paging, spec_footer, spec_foil_label, spec_paging, HoldSurface};
use crate::models::{Card, CardFace, CardSet, CollectionEntry, Deck, DeckCardEntry, DeckDetail, DeckSection, Game};
use crate::output::{
    bool_text, dash, em_dash, opt_view, price, push_cell, spec_dash, spec_price, str_upper, to_upper, truncate,
};
use crate::text::{
    dec_int, lemma_views_push, left_aligned, lines, pad_left, pad_right, push_i64, right_aligned, seq_join,
    spec_lines, spec_truncate, views,
};
use vstd::prelude::*;

verus! {

broadcast use vstd::string::group_string_axioms;

/// How a line of a detail pane is emphasised.
#[derive(Debug, Clone, Copy, PartialEq, Eq, Structural)]
pub enum Tone {
    Plain,
    Bold,
    /// Section headings.
    Accent,
    /// Prices.
    Price,
    /// Identifiers.
    Dim,
}

/// One line of a detail pane.
pub struct TextLine {
    pub text: String,
    pub tone: Tone,
}

/// The lines as plain values.
pub open spec fn line_views(v: Seq<TextLine>) -> Seq<(Seq<char>, Tone)> {
    v.map_values(|l: TextLine| (l.text@, l.tone))
}

fn push_text(out: &mut Vec<TextLine>, text: String, tone: Tone)
    ensures
        line_views(final(out)@) == line_views(old(out)@).push((text@, tone)),
{
    out.push(TextLine { text, tone });
    assert(line_views(final(out)@) =~= line_views(old(out)@).push((text@, tone)));
}

/// Every line of `text`, plain.
pub open spec fn plain_lines(text: Seq<char>) -> Seq<(Seq<char>, Tone)> {
    spec_lines(text).map_values(|l: Seq<char>| (l, Tone::Plain))
}

fn push_plain_lines(out: &mut Vec<TextLine>, text: &str)
    ensures
        line_views(final(out)@) == line_views(old(out)@) + plain_lines(text@),
{
    let ls = lines(text);
    let mut i: usize = 0;
    while i < ls.len()
        invariant
            i <= ls@.len(),
            views(ls@) == spec_lines(text@),
            line_views(out@) == line_views(old(out)@) + plain_lines(text@).take(i as int),
        decreases ls.len() - i,
    {
        assert(ls[i as int]@ == views(ls@)[i as int]);
        push_text(out, ls[i].clone(), Tone::Plain);
        assert(plain_lines(text@).take(i + 1) =~= plain_lines(text@).take(i as int).push((ls[i as int]@, Tone::Plain)));
        i += 1;
    }
    assert(plain_lines(text@).take(ls@.len() as int) =~= plain_lines(text@));
}

/// A line per present value, with the given tone.
pub open spec fn opt_text(v: Option<String>, tone: Tone) -> Seq<(Seq<char>, Tone)> {
    match v {
        Some(x) => seq![(x@, tone)],
        None => Seq::empty(),
    }
}

fn push_opt_text(out: &mut Vec<TextLine>, v: &Option<String>, tone: Tone)
    ensures
        line_views(final(out)@) == line_views(old(out)@) + opt_text(*v, tone),
{
    if let Some(x) = v {
        push_text(out, x.clone(), tone);
    }
    assert(line_views(final(out)@) =~= line_views(old(out)@) + opt_text(*v, tone));
}

// ---------------------------------------------------------------------------
// List rows
// ---------------------------------------------------------------------------

/// A game row: the id in a six-wide column, the name, the publisher in brackets.
pub open spec fn spec_game_spans(g: Game) -> Seq<Seq<char>> {
    seq![pad_right(g.id@, 6), g.name@ + "  "@, "("@ + g.publisher@ + ")"@]
}

pub fn game_spans(g: &Game) -> (r: Vec<String>)
    ensures
        views(r@) == spec_game_spans(*g),
{
    let mut row: Vec<String> = Vec::new();
    push_cell(&mut row, left_aligned(g.id.as_str(), 6));
    let mut name = g.name.clone();
    name.append("  ");
    push_cell(&mut row, name);
    let mut publisher = String::from_str("(");
    publisher.append(g.publisher.as_str());
    publisher.append(")");
    push_cell(&mut row, publisher);
    assert(views(row@) =~= spec_game_spans(*g));
    row
}

/// A set row: the code, the name clipped to 40, then its card count and release date.
pub open spec fn spec_set_spans(s: CardSet) -> Seq<Seq<char>> {
    seq![
        pad_right(str_upper(s.code@), 8),
        spec_truncate(s.name@, 40),
        "  "@ + dec_int(s.card_count as int) + " cards  "@ + match s.released_at {
            Some(d) => d@,
            None => Seq::empty(),
        },
    ]
}

pub fn set_spans(s: &CardSet) -> (r: Vec<String>)
    ensures
        views(r@) == spec_set_spans(*s),
{
    let mut row: Vec<String> = Vec::new();
    let up = to_upper(s.code.as_str());
    push_cell(&mut row, left_aligned(up.as_str(), 8));
    push_cell(&mut row, truncate(s.name.as_str(), 40));
    let mut tail = String::from_str("  ");
    push_i64(&mut tail, s.card_count);
    tail.append(" cards  ");
    if let Some(d) = &s.released_at {
        tail.append(d.as_str());
    }
    push_cell(&mut row, tail);
    assert(views(row@) =~= spec_set_spans(*s));
    row
}

/// A card row: name, set, collector number, rarity, price.
pub open spec fn spec_card_spans(c: Card) -> Seq<Seq<char>> {
    seq![
        pad_right(spec_truncate(c.name@, 31), 32),
        pad_right(str_upper(c.set_code@), 6),
        "#"@ + pad_right(spec_truncate(c.collector_number@, 5), 6),
        pad_right(match c.rarity {
            Some(r) => r@,
            None => Seq::empty(),
        }, 9),
        spec_price(opt_view(c.prices.usd)),
    ]
}

pub fn card_spans(c: &Card) -> (r: Vec<String>)
    ensures
        views(r@) == spec_card_spans(*c),
{
    let mut row: Vec<String> = Vec::new();
    let name = truncate(c.name.as_str(), 31);
    push_cell(&mut row, left_aligned(name.as_str(), 32));
    let up = to_upper(c.set_code.as_str());
    push_cell(&mut row, left_aligned(up.as_str(), 6));
    let num = truncate(c.collector_number.as_str(), 5);
    let mut hash = String::from_str("#");
    hash.append(left_aligned(num.as_str(), 6).as_str());
    push_cell(&mut row, hash);
    let rarity = match &c.rarity {
        Some(r) => left_aligned(r.as_str(), 9),
        None => {
            let empty = String::new();
            left_aligned(empty.as_str(), 9)
        },
    };
    push_cell(&mut row, rarity);
    push_cell(&mut row, price(&c.prices.usd));
    assert(views(row@) =~= spec_card_spans(*c));
    row
}

/// A holdings row: `qty×foil`, name, set, price.
pub open spec fn spec_holding_spans(e: CollectionEntry) -> Seq<Seq<char>> {
    seq![
        pad_left(dec_int(e.quantity as int), 3) + "\u{d7}"@ + pad_right(spec_foil_label(e.foil_quantity), 3),
        " "@ + pad_right(spec_truncate(e.card.name@, 31), 32),
        pad_right(str_upper(e.card.set_code@), 6),
        spec_price(opt_view(e.card.prices.usd)),
    ]
}

pub fn holding_spans(e: &CollectionEntry) -> (r: Vec<String>)
    ensures
        views(r@) == spec_holding_spans(*e),
{
    let mut row: Vec<String> = Vec::new();
    let qty = crate::text::fmt_i64(e.quantity);
    let mut counts = right_aligned(qty.as_str(), 3);
    counts.append("\u{d7}");
    let foil = foil_label(e.foil_quantity);
    counts.append(left_aligned(foil.as_str(), 3).as_str());
    push_cell(&mut row, counts);
    let name = truncate(e.card.name.as_str(), 31);
    let mut name_cell = String::from_str(" ");
    name_cell.append(left_aligned(name.as_str(), 32).as_str());
    push_cell(&mut row, name_cell);
    let up = to_upper(e.card.set_code.as_str());
    push_cell(&mut row, left_aligned(up.as_str(), 6));
    push_cell(&mut row, price(&e.card.prices.usd));
    assert(views(row@) =~= spec_holding_spans(*e));
    row
}

/// A deck row: id, name, then format, card count and whether it is public.
pub open spec fn spec_deck_spans(d: Deck) -> Seq<Seq<char>> {
    seq![
        pad_right(dec_int(d.id as int), 5),
        spec_truncate(d.name@, 36),
        "  "@ + spec_dash(opt_view(d.format)) + "  "@ + dec_int(d.card_count as int) + " cards"@ + (if d.is_public {
            "  [public]"@
        } else {
            Seq::empty()
        }),
    ]
}

pub fn deck_spans(d: &Deck) -> (r: Vec<String>)
    ensures
        views(r@) == spec_deck_spans(*d),
{
    let mut row: Vec<String> = Vec::new();
    let id = crate::text::fmt_i64(d.id);
    push_cell(&mut row, left_aligned(id.as_str(), 5));
    push_cell(&mut row, truncate(d.name.as_str(), 36));
    let mut tail = String::from_str("  ");
    tail.append(dash(&d.format).as_str());
    tail.append("  ");
    push_i64(&mut tail, d.card_count);
    tail.append(" cards");
    if d.is_public {
        tail.append("  [public]");
    }
    push_cell(&mut row, tail);
    assert(views(row@) =~= spec_deck_spans(*d));
    row
}

// ---------------------------------------------------------------------------
// Detail panes
// ---------------------------------------------------------------------------

/// What the card pane shows of one face: a gap, its name, type and rules text.
pub open spec fn spec_face_text(f: CardFace) -> Seq<(Seq<char>, Tone)> {
    seq![(Seq::<char>::empty(), Tone::Plain)] + opt_text(f.name, Tone::Bold) + opt_text(f.type_line, Tone::Plain)
        + match f.oracle_text {
        Some(ot) => plain_lines(ot@),
        None => Seq::empty(),
    }
}

pub open spec fn spec_faces_text(faces: Seq<CardFace>) -> Seq<(Seq<char>, Tone)>
    decreases faces.len(),
{
    if faces.len() == 0 {
        Seq::empty()
    } else {
        spec_faces_text(faces.drop_last()) + spec_face_text(faces.last())
    }
}

/// The top of the card pane: name, printing, mana, type, power/toughness, a gap
/// and the rules text.
pub open spec fn spec_card_head(c: Card) -> Seq<(Seq<char>, Tone)> {
    seq![
        (c.name@, Tone::Bold),
        (c.set_name@ + " \u{b7} "@ + str_upper(c.set_code@) + " #"@ + c.collector_number@ + " \u{b7} "@ + spec_dash(
            opt_view(c.rarity),
        ), Tone::Plain),
    ] + match c.mana_cost {
        Some(mc) => if mc@.len() > 0 {
            seq![("Mana "@ + mc@ + "  \u{b7}  CMC "@ + crate::output::spec_cmc(c), Tone::Plain)]
        } else {
            Seq::empty()
        },
        None => Seq::empty(),
    } + opt_text(c.type_line, Tone::Plain) + match (c.power, c.toughness) {
        (Some(p), Some(t)) => seq![(p@ + "/"@ + t@, Tone::Plain)],
        _ => Seq::empty(),
    } + seq![(Seq::<char>::empty(), Tone::Plain)] + match c.oracle_text {
        Some(ot) => plain_lines(ot@),
        None => Seq::empty(),
    }
}

/// The foot of the card pane: a gap, the prices and the id.
pub open spec fn spec_card_foot(c: Card) -> Seq<(Seq<char>, Tone)> {
    seq![
        (Seq::<char>::empty(), Tone::Plain),
        ("USD "@ + spec_price(opt_view(c.prices.usd)) + " \u{b7} Foil "@ + spec_price(opt_view(c.prices.usd_foil))
            + " \u{b7} EUR "@ + spec_dash(opt_view(c.prices.eur)) + " \u{b7} TIX "@ + spec_dash(opt_view(c.prices.tix)), Tone::Price),
        ("id "@ + c.id@, Tone::Dim),
    ]
}

/// The card pane: the head, each face, the foot.
pub open spec fn spec_card_detail_text(c: Card) -> Seq<(Seq<char>, Tone)> {
    spec_card_head(c) + spec_faces_text(c.faces@) + spec_card_foot(c)
}

fn face_text(out: &mut Vec<TextLine>, f: &CardFace)
    ensures
        line_views(final(out)@) == line_views(old(out)@) + spec_face_text(*f),
{
    push_text(out, String::new(), Tone::Plain);
    push_opt_text(out, &f.name, Tone::Bold);
    push_opt_text(out, &f.type_line, Tone::Plain);
    if let Some(ot) = &f.oracle_text {
        push_plain_lines(out, ot.as_str());
    }
    assert(line_views(final(out)@) =~= line_views(old(out)@) + spec_face_text(*f));
}

fn card_head(out: &mut Vec<TextLine>, c: &Card)
    ensures
        line_views(final(out)@) == line_views(old(out)@) + spec_card_head(*c),
{
    push_text(out, c.name.clone(), Tone::Bold);
    let mut set_line = c.set_name.clone();
    set_line.append(" \u{b7} ");
    set_line.append(to_upper(c.set_code.as_str()).as_str());
    set_line.append(" #");
    set_line.append(c.collector_number.as_str());
    set_line.append(" \u{b7} ");
    set_line.append(dash(&c.rarity).as_str());
    push_text(out, set_line, Tone::Plain);
    let ghost top = line_views(out@);
    if let Some(mc) = &c.mana_cost {
        if mc.unicode_len() > 0 {
            let mut line = String::from_str("Mana ");
            line.append(mc.as_str());
            line.append("  \u{b7}  CMC ");
            match &c.cmc {
                Some(v) => line.append(v.as_str()),
                None => line.append("0"),
            }
            push_text(out, line, Tone::Plain);
        }
    }
    let ghost mana = line_views(out@);
    push_opt_text(out, &c.type_line, Tone::Plain);
    if let (Some(p), Some(t)) = (&c.power, &c.toughness) {
        let mut line = p.clone();
        line.append("/");
        line.append(t.as_str());
        push_text(out, line, Tone::Plain);
    }
    push_text(out, String::new(), Tone::Plain);
    if let Some(ot) = &c.oracle_text {
        push_plain_lines(out, ot.as_str());
    }
    assert(line_views(out@) =~= line_views(old(out)@) + spec_card_head(*c));
}

fn card_foot(out: &mut Vec<TextLine>, c: &Card)
    ensures
        line_views(final(out)@) == line_views(old(out)@) + spec_card_foot(*c),
{
    push_text(out, String::new(), Tone::Plain);
    let mut prices = String::from_str("USD ");
    prices.append(price(&c.prices.usd).as_str());
    prices.append(" \u{b7} Foil ");
    prices.append(price(&c.prices.usd_foil).as_str());
    prices.append(" \u{b7} EUR ");
    prices.append(dash(&c.prices.eur).as_str());
    prices.append(" \u{b7} TIX ");
    prices.append(dash(&c.prices.tix).as_str());
    push_text(out, prices, Tone::Price);
    let mut id = String::from_str("id ");
    id.append(c.id.as_str());
    push_text(out, id, Tone::Dim);
    assert(line_views(out@) =~= line_views(old(out)@) + spec_card_foot(*c));
}

pub fn card_detail_text(c: &Card) -> (r: Vec<TextLine>)
    ensures
        line_views(r@) == spec_card_detail_text(*c),
{
    let mut out: Vec<TextLine> = Vec::new();
    card_head(&mut out, c);
    let ghost before = line_views(out@);
    let mut i: usize = 0;
    while i < c.faces.len()
        invariant
            i <= c.faces@.len(),
            line_views(out@) == before + spec_faces_text(c.faces@.take(i as int)),
        decreases c.faces.len() - i,
    {
        face_text(&mut out, &c.faces[i]);
        assert(c.faces@.take(i + 1).drop_last() =~= c.faces@.take(i as int));
        i += 1;
    }
    assert(c.faces@.take(c.faces@.len() as int) =~= c.faces@);
    card_foot(&mut out, c);
    assert(line_views(out@) =~= spec_card_detail_text(*c));
    out
}

/// The cards of a deck that sit in section `id`, in deck order.
pub open spec fn section_cards(cards: Seq<DeckCardEntry>, id: i64) -> Seq<DeckCardEntry>
    decreases cards.len(),
{
    if cards.len() == 0 {
        Seq::empty()
    } else if cards.last().section_id == id {
        section_cards(cards.drop_last(), id).push(cards.last())
    } else {
        section_cards(cards.drop_last(), id)
    }
}

/// One card row of the deck pane: `  4× Name (+1 foil)`.
pub open spec fn spec_deck_card_line(c: DeckCardEntry) -> Seq<char> {
    "  "@ + dec_int(c.quantity as int) + "\u{d7} "@ + c.card.name@ + (if c.foil_quantity > 0 {
        " (+"@ + dec_int(c.foil_quantity as int) + " foil)"@
    } else {
        Seq::empty()
    })
}

/// One section of the deck pane: nothing for an empty section, else a gap, the
/// heading and its cards.
pub open spec fn spec_section_text(s: DeckSection, cards: Seq<DeckCardEntry>) -> Seq<(Seq<char>, Tone)> {
    let cs = section_cards(cards, s.id);
    if cs.len() == 0 {
        Seq::empty()
    } else {
        seq![(Seq::<char>::empty(), Tone::Plain), ("== "@ + s.name@ + " =="@, Tone::Accent)] + cs.map_values(
            |c: DeckCardEntry| (spec_deck_card_line(c), Tone::Plain),
        )
    }
}

pub open spec fn spec_sections_text(sections: Seq<DeckSection>, cards: Seq<DeckCardEntry>) -> Seq<(Seq<char>, Tone)>
    decreases sections.len(),
{
    if sections.len() == 0 {
        Seq::empty()
    } else {
        spec_sections_text(sections.drop_last(), cards) + spec_section_text(sections.last(), cards)
    }
}

/// The deck pane: a summary line, then each non-empty section with its cards.
pub open spec fn spec_deck_detail_text(d: DeckDetail) -> Seq<(Seq<char>, Tone)> {
    seq![
        ("format "@ + spec_dash(opt_view(d.format)) + " \u{b7} "@ + dec_int(d.summary.total_cards as int) + " cards \u{b7} value "@
            + spec_price(opt_view(d.summary.total_value_usd)) + " \u{b7} public "@ + bool_text(d.is_public), Tone::Plain),
    ] + spec_sections_text(d.sections@, d.cards@)
}

fn deck_card_line(c: &DeckCardEntry) -> (r: String)
    ensures
        r@ == spec_deck_card_line(*c),
{
    let mut out = String::from_str("  ");
    push_i64(&mut out, c.quantity);
    out.append("\u{d7} ");
    out.append(c.card.name.as_str());
    if c.foil_quantity > 0 {
        out.append(" (+");
        push_i64(&mut out, c.foil_quantity);
        out.append(" foil)");
    }
    out
}

fn section_text(out: &mut Vec<TextLine>, s: &DeckSection, cards: &Vec<DeckCardEntry>)
    ensures
        line_views(final(out)@) == line_views(old(out)@) + spec_section_text(*s, cards@),
{
    let mut picked: Vec<usize> = Vec::new();
    let mut i: usize = 0;
    while i < cards.len()
        invariant
            i <= cards@.len(),
            picked@.len() == section_cards(cards@.take(i as int), s.id).len(),
            forall|k: int| 0 <= k < picked@.len() ==> #[trigger] picked@[k] < cards@.len() && cards@[picked@[k] as int]
                == section_cards(cards@.take(i as int), s.id)[k],
        decreases cards.len() - i,
    {
        assert(cards@.take(i + 1).drop_last() =~= cards@.take(i as int));
        if cards[i].section_id == s.id {
            picked.push(i);
        }
        i += 1;
    }
    assert(cards@.take(cards@.len() as int) =~= cards@);
    let ghost cs = section_cards(cards@, s.id);
    if picked.len() == 0 {
        assert(line_views(old(out)@) + spec_section_text(*s, cards@) =~= line_views(old(out)@));
        return;
    }
    push_text(out, String::new(), Tone::Plain);
    let mut head = String::from_str("== ");
    head.append(s.name.as_str());
    head.append(" ==");
    push_text(out, head, Tone::Accent);
    let ghost base = line_views(out@);
    let mut k: usize = 0;
    while k < picked.len()
        invariant
            k <= picked@.len(),
            picked@.len() == cs.len(),
            forall|j: int| 0 <= j < picked@.len() ==> #[trigger] picked@[j] < cards@.len() && cards@[picked@[j] as int]
                == cs[j],
            line_views(out@) == base + cs.take(k as int).map_values(|c: DeckCardEntry| (spec_deck_card_line(c), Tone::Plain)),
        decreases picked.len() - k,
    {
        let j = picked[k];
        assert(cards@[j as int] == cs[k as int]);
        let line = deck_card_line(&cards[j]);
        push_text(out, line, Tone::Plain);
        assert(cs.take(k + 1).map_values(|c: DeckCardEntry| (spec_deck_card_line(c), Tone::Plain)) =~= cs.take(
            k as int,
        ).map_values(|c: DeckCardEntry| (spec_deck_card_line(c), Tone::Plain)).push((spec_deck_card_line(cs[k as int]), Tone::Plain)));
        k += 1;
    }
    assert(cs.take(cs.len() as int) =~= cs);
    assert(line_views(out@) =~= line_views(old(out)@) + spec_section_text(*s, cards@));
}

pub fn deck_detail_text(d: &DeckDetail) -> (r: Vec<TextLine>)
    ensures
        line_views(r@) == spec_deck_detail_text(*d),
{
    let mut out: Vec<TextLine> = Vec::new();
    let mut head = String::from_str("format ");
    head.append(dash(&d.format).as_str());
    head.append(" \u{b7} ");
    push_i64(&mut head, d.summary.total_cards);
    head.append(" cards \u{b7} value ");
    head.append(price(&d.summary.total_value_usd).as_str());
    head.append(" \u{b7} public ");
    if d.is_public {
        head.append("true");
    } else {
        head.append("false");
    }
    push_text(&mut out, head, Tone::Plain);
    let ghost first = line_views(out@);
    let mut i: usize = 0;
    while i < d.sections.len()
        invariant
            i <= d.sections@.len(),
            line_views(out@) == first + spec_sections_text(d.sections@.take(i as int), d.cards@),
        decreases d.sections.len() - i,
    {
        section_text(&mut out, &d.sections[i], &d.cards);
        assert(d.sections@.take(i + 1).drop_last() =~= d.sections@.take(i as int));
        i += 1;
    }
    assert(d.sections@.take(d.sections@.len() as int) =~= d.sections@);
    out
}

// ---------------------------------------------------------------------------
// Titles, breadcrumb, footer
// ---------------------------------------------------------------------------

/// What a screen is called in its border.
pub open spec fn spec_screen_title(s: Screen) -> Seq<char> {
    match s {
        Screen::Games { .. } => "Games"@,
        Screen::GameMenu { game, .. } => "Game: "@ + str_upper(game@),
        Screen::Sets { .. } => "Sets"@,
        Screen::Cards { title, .. } => title@,
        Screen::CardDetail { card } => card.name@,
        Screen::Holdings { surface, .. } => surface.spec_label(),
        Screen::Decks { .. } => "Decks"@,
        Screen::DeckDetail { deck } => deck.name@,
        Screen::Account { .. } => "Account"@,
        Screen::Message { title, .. } => title@,
    }
}

/// The border title, padded with a space each side.
pub fn block_title(s: &Screen) -> (r: String)
    ensures
        r@ == " "@ + spec_screen_title(*s) + " "@,
{
    let mut out = String::from_str(" ");
    match s {
        Screen::Games { .. } => out.append("Games"),
        Screen::GameMenu { game, .. } => {
            out.append("Game: ");
            out.append(to_upper(game.as_str()).as_str());
        },
        Screen::Sets { .. } => out.append("Sets"),
        Screen::Cards { title, .. } => out.append(title.as_str()),
        Screen::CardDetail { card } => out.append(card.name.as_str()),
        Screen::Holdings { surface, .. } => out.append(surface.label()),
        Screen::Decks { .. } => out.append("Decks"),
        Screen::DeckDetail { deck } => out.append(deck.name.as_str()),
        Screen::Account { .. } => out.append("Account"),
        Screen::Message { title, .. } => out.append(title.as_str()),
    }
    out.append(" ");
    out
}

/// A screen's crumb in the header.
pub open spec fn spec_crumb(s: Screen) -> Seq<char> {
    match s {
        Screen::Games { .. } => "Games"@,
        Screen::GameMenu { game, .. } => str_upper(game@),
        Screen::Sets { .. } => "Sets"@,
        Screen::Cards { title, .. } => spec_truncate(title@, 30),
        Screen::CardDetail { card } => spec_truncate(card.name@, 24),
        Screen::Holdings { surface, .. } => surface.spec_label(),
        Screen::Decks { .. } => "Decks"@,
        Screen::DeckDetail { deck } => spec_truncate(deck.name@, 24),
        Screen::Account { .. } => "Account"@,
        Screen::Message { title, .. } => title@,
    }
}

pub fn crumb(s: &Screen) -> (r: String)
    ensures
        r@ == spec_crumb(*s),
{
    match s {
        Screen::Games { .. } => String::from_str("Games"),
        Screen::GameMenu { game, .. } => to_upper(game.as_str()),
        Screen::Sets { .. } => String::from_str("Sets"),
        Screen::Cards { title, .. } => truncate(title.as_str(), 30),
        Screen::CardDetail { card } => truncate(card.name.as_str(), 24),
        Screen::Holdings { surface, .. } => String::from_str(surface.label()),
        Screen::Decks { .. } => String::from_str("Decks"),
        Screen::DeckDetail { deck } => truncate(deck.name.as_str(), 24),
        Screen::Account { .. } => String::from_str("Account"),
        Screen::Message { title, .. } => title.clone(),
    }
}

/// The header breadcrumb: every screen's crumb, bottom first.
pub open spec fn spec_breadcrumb(screens: Seq<Screen>) -> Seq<char> {
    seq_join(screens.map_values(|s: Screen| spec_crumb(s)), " \u{203a} "@)
}

pub fn breadcrumb_text(t: &Tui) -> (r: String)
    ensures
        r@ == spec_breadcrumb(t.screens()),
{
    let mut crumbs: Vec<String> = Vec::new();
    let depth = t.stack.depth();
    let first = crumb(t.stack.get(0));
    proof {
        lemma_views_push(crumbs@, first);
        crate::text::lemma_map_take_push(t.screens(), |s: Screen| spec_crumb(s), 0);
    }
    crumbs.push(first);
    let mut j: usize = 0;
    while j < depth
        invariant
            depth + 1 == t.screens().len(),
            j <= depth,
            views(crumbs@) == t.screens().take(j + 1).map_values(|s: Screen| spec_crumb(s)),
        decreases depth - j,
    {
        let c = crumb(t.stack.get(j + 1));
        proof {
            lemma_views_push(crumbs@, c);
            crate::text::lemma_map_take_push(t.screens(), |s: Screen| spec_crumb(s), j + 1);
        }
        crumbs.push(c);
        j += 1;
    }
    assert(t.screens().take(t.screens().len() as int) =~= t.screens());
    super::breadcrumb(crumbs.as_slice())
}

/// The header's sign-in indicator.
pub open spec fn spec_auth_label(authed: bool) -> Seq<char> {
    if authed {
        "\u{25cf} signed in"@
    } else {
        "\u{25cb} anonymous"@
    }
}

pub fn auth_label(authed: bool) -> (r: &'static str)
    ensures
        r@ == spec_auth_label(authed),
{
    if authed {
        "\u{25cf} signed in"
    } else {
        "\u{25cb} anonymous"
    }
}

/// The key hints the footer shows for a screen.
pub open spec fn spec_hints(s: Screen) -> Seq<char> {
    match s {
        Screen::Cards { .. } => "Enter detail \u{b7} n/p page \u{b7} +/- own \u{b7} f/F foil \u{b7} w wish \u{b7} Esc back"@,
        Screen::Holdings { .. } => "Enter detail \u{b7} +/- \u{b7} f/F \u{b7} r remove \u{b7} n/p page \u{b7} Esc back"@,
        Screen::Decks { .. } => "Enter open \u{b7} Esc back"@,
        Screen::CardDetail { .. } => "Esc back \u{b7} q quit"@,
        Screen::DeckDetail { .. } => "Esc back \u{b7} q quit"@,
        Screen::Account { .. } => "Esc back \u{b7} q quit"@,
        _ => "\u{2191}/\u{2193} move \u{b7} Enter open \u{b7} Esc back \u{b7} q quit \u{b7} ? help"@,
    }
}

/// The page position the footer shows for a screen.
pub open spec fn spec_screen_paging(s: Screen) -> Seq<char> {
    match s {
        Screen::Cards { page, total, .. } => spec_paging(page, total, "cards"@),
        Screen::Holdings { page, total, .. } => spec_paging(page, total, "held"@),
        _ => Seq::empty(),
    }
}

/// The footer line: the status (when there is one), the page position, the hints.
pub fn footer_text(t: &Tui) -> (r: String)
    ensures
        r@ == spec_footer(t.status@, spec_screen_paging(t.spec_top()), spec_hints(t.spec_top())),
{
    let top = t.top();
    let (hints, pages) = match top {
        Screen::Cards { page, total, .. } => (
            "Enter detail \u{b7} n/p page \u{b7} +/- own \u{b7} f/F foil \u{b7} w wish \u{b7} Esc back",
            paging(*page, *total, "cards"),
        ),
        Screen::Holdings { page, total, .. } => (
            "Enter detail \u{b7} +/- \u{b7} f/F \u{b7} r remove \u{b7} n/p page \u{b7} Esc back",
            paging(*page, *total, "held"),
        ),
        Screen::Decks { .. } => ("Enter open \u{b7} Esc back", String::new()),
        Screen::CardDetail { .. } | Screen::DeckDetail { .. } | Screen::Account { .. } => (
            "Esc back \u{b7} q quit",
            String::new(),
        ),
        _ => ("\u{2191}/\u{2193} move \u{b7} Enter open \u{b7} Esc back \u{b7} q quit \u{b7} ? help", String::new()),
    };
    footer(t.status.as_str(), pages.as_str(), hints)
}

// ---------------------------------------------------------------------------
// The Account screen
// ---------------------------------------------------------------------------

/// The signed-in user as the `me` endpoint describes them (each field present only
/// when it is a string).
pub struct AccountUser {
    pub email: Option<String>,
    pub handle: Option<String>,
    pub currency: Option<String>,
}

/// What reading the account gave.
pub enum AccountRead {
    /// Not signed in: nothing was read.
    SignedOut,
    /// The read failed with this message.
    Failed(String),
    /// The read answered, with or without a `user` object.
    Read(Option<AccountUser>),
}

pub open spec fn or_text(v: Option<String>, fallback: Seq<char>) -> Seq<char> {
    match v {
        Some(x) => x@,
        None => fallback,
    }
}

/// The Account screen's lines.
pub open spec fn spec_account_lines(base_url: Seq<char>, read: AccountRead) -> Seq<Seq<char>> {
    seq!["Base URL : "@ + base_url] + match read {
        AccountRead::SignedOut => seq!["Not signed in \u{2014} run `tcglense login` first."@],
        AccountRead::Failed(e) => seq!["(/me failed: "@ + e@ + ")"@],
        AccountRead::Read(None) => Seq::empty(),
        AccountRead::Read(Some(u)) => seq![
            "Email    : "@ + or_text(u.email, "?"@),
            "Handle   : "@ + or_text(u.handle, "(none)"@),
            "Currency : "@ + or_text(u.currency, "?"@),
        ],
    }
}

fn labelled(label: &str, v: &Option<String>, fallback: &str) -> (r: String)
    ensures
        r@ == label@ + or_text(*v, fallback@),
{
    let mut out = String::from_str(label);
    match v {
        Some(x) => out.append(x.as_str()),
        None => out.append(fallback),
    }
    out
}

pub fn account_lines(base_url: &str, read: &AccountRead) -> (r: Vec<String>)
    ensures
        views(r@) == spec_account_lines(base_url@, *read),
{
    let mut out: Vec<String> = Vec::new();
    let mut head = String::from_str("Base URL : ");
    head.append(base_url);
    push_cell(&mut out, head);
    match read {
        AccountRead::SignedOut => {
            push_cell(&mut out, String::from_str("Not signed in \u{2014} run `tcglense login` first."));
        },
        AccountRead::Failed(e) => {
            let mut line = String::from_str("(/me failed: ");
            line.append(e.as_str());
            line.append(")");
            push_cell(&mut out, line);
        },
        AccountRead::Read(None) => {},
        AccountRead::Read(Some(u)) => {
            push_cell(&mut out, labelled("Email    : ", &u.email, "?"));
            push_cell(&mut out, labelled("Handle   : ", &u.handle, "(none)"));
            push_cell(&mut out, labelled("Currency : ", &u.currency, "?"));
        },
    }
    assert(views(out@) =~= spec_account_lines(base_url@, *read));
    out
}

/// The Account screen for this browser.
pub fn account_screen(t: &Tui, read: &AccountRead) -> (r: Screen)
    ensures
        r matches Screen::Account { lines } && views(lines@) == spec_account_lines(t.base_url@, *read),
        r.wf(),
{
    Screen::Account { lines: account_lines(t.base_url.as_str(), read) }
}

// ---------------------------------------------------------------------------
// The body
// ---------------------------------------------------------------------------

/// What the body of a screen shows: a list, each row as its spans, or a pane of
/// lines.
pub enum Body {
    List(Vec<Vec<String>>),
    Pane(Vec<TextLine>),
}

/// A body as plain values.
pub enum BodyView {
    List(Seq<Seq<Seq<char>>>),
    Pane(Seq<(Seq<char>, Tone)>),
}

pub open spec fn body_view(b: Body) -> BodyView {
    match b {
        Body::List(rows) => BodyView::List(crate::output::rows_view(rows@)),
        Body::Pane(lines) => BodyView::Pane(line_views(lines@)),
    }
}

/// Each screen's body: the list screens their rows' spans (the game menu its
/// entries), the detail screens their panes, Account and messages their lines.
pub open spec fn spec_body(s: Screen) -> BodyView {
    match s {
        Screen::Games { items, .. } => BodyView::List(items@.map_values(|g: Game| spec_game_spans(g))),
        Screen::GameMenu { .. } => BodyView::List(super::spec_game_menu().map_values(|m: Seq<char>| seq![m])),
        Screen::Sets { items, .. } => BodyView::List(items@.map_values(|x: CardSet| spec_set_spans(x))),
        Screen::Cards { items, .. } => BodyView::List(items@.map_values(|c: Card| spec_card_spans(c))),
        Screen::CardDetail { card } => BodyView::Pane(spec_card_detail_text(card)),
        Screen::Holdings { items, .. } => BodyView::List(
            items@.map_values(|e: CollectionEntry| spec_holding_spans(e)),
        ),
        Screen::Decks { items, .. } => BodyView::List(items@.map_values(|d: Deck| spec_deck_spans(d))),
        Screen::DeckDetail { deck } => BodyView::Pane(spec_deck_detail_text(deck)),
        Screen::Account { lines } => BodyView::Pane(views(lines@).map_values(|l: Seq<char>| (l, Tone::Plain))),
        Screen::Message { lines, .. } => BodyView::Pane(views(lines@).map_values(|l: Seq<char>| (l, Tone::Plain))),
    }
}

fn plain_pane(lines: &Vec<String>) -> (r: Vec<TextLine>)
    ensures
        line_views(r@) == views(lines@).map_values(|l: Seq<char>| (l, Tone::Plain)),
{
    let mut out: Vec<TextLine> = Vec::new();
    let mut i: usize = 0;
    while i < lines.len()
        invariant
            i <= lines@.len(),
            line_views(out@) == views(lines@).take(i as int).map_values(|l: Seq<char>| (l, Tone::Plain)),
        decreases lines.len() - i,
    {
        push_text(&mut out, lines[i].clone(), Tone::Plain);
        assert(views(lines@).take(i + 1).map_values(|l: Seq<char>| (l, Tone::Plain)) =~= views(lines@).take(
            i as int,
        ).map_values(|l: Seq<char>| (l, Tone::Plain)).push((lines@[i as int]@, Tone::Plain)));
        i += 1;
    }
    assert(views(lines@).take(lines@.len() as int) =~= views(lines@));
    out
}

fn menu_rows() -> (r: Vec<Vec<String>>)
    ensures
        crate::output::rows_view(r@) == super::spec_game_menu().map_values(|m: Seq<char>| seq![m]),
{
    let menu = super::game_menu();
    let mut rows: Vec<Vec<String>> = Vec::new();
    let mut i: usize = 0;
    while i < menu.len()
        invariant
            i <= menu@.len(),
            crate::output::header_view(menu@) == super::spec_game_menu(),
            crate::output::rows_view(rows@) == super::spec_game_menu().take(i as int).map_values(
                |m: Seq<char>| seq![m],
            ),
        decreases menu.len() - i,
    {
        let mut row: Vec<String> = Vec::new();
        push_cell(&mut row, String::from_str(menu[i]));
        assert(views(row@) =~= seq![menu@[i as int]@]);
        crate::output::push_row(&mut rows, row);
        assert(super::spec_game_menu().take(i + 1).map_values(|m: Seq<char>| seq![m]) =~= super::spec_game_menu().take(
            i as int,
        ).map_values(|m: Seq<char>| seq![m]).push(seq![super::spec_game_menu()[i as int]]));
        i += 1;
    }
    assert(super::spec_game_menu().take(6) =~= super::spec_game_menu());
    rows
}

pub fn body(s: &Screen) -> (r: Body)
    ensures
        body_view(r) == spec_body(*s),
{
    match s {
        Screen::Games { items, .. } => Body::List(
            crate::output::table_rows(items, game_spans, Ghost(|g: Game| spec_game_spans(g))),
        ),
        Screen::GameMenu { .. } => Body::List(menu_rows()),
        Screen::Sets { items, .. } => Body::List(
            crate::output::table_rows(items, set_spans, Ghost(|x: CardSet| spec_set_spans(x))),
        ),
        Screen::Cards { items, .. } => Body::List(
            crate::output::table_rows(items, card_spans, Ghost(|c: Card| spec_card_spans(c))),
        ),
        Screen::CardDetail { card } => Body::Pane(card_detail_text(card)),
        Screen::Holdings { items, .. } => Body::List(
            crate::output::table_rows(items, holding_spans, Ghost(|e: CollectionEntry| spec_holding_spans(e))),
        ),
        Screen::Decks { items, .. } => Body::List(
            crate::output::table_rows(items, deck_spans, Ghost(|d: Deck| spec_deck_spans(d))),
        ),
        Screen::DeckDetail { deck } => Body::Pane(deck_detail_text(deck)),
        Screen::Account { lines } => Body::Pane(plain_pane(lines)),
        Screen::Message { lines, .. } => Body::Pane(plain_pane(lines)),
    }
}

} // verus!
