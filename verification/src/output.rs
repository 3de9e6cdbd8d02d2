//! Output settings and the cell formatters every table shares: optional values
//! shown with a dash, prices with a dollar sign, and long text clipped to a width.
use crate::models::{
    ApiKeyInfo, Card, CardFace, CardSet, CollectionEntry, CollectionSummary, Deck, Game, PricePoint, Product,
    ProductHoldingEntry,
};
use crate::text::{
    chars_of, dec_int, fmt_i64, lemma_views_push, lines, push_i64, seq_join, spec_lines, spec_truncate, string_from_chars,
    string_push, views,
};
use vstd::prelude::*;

verus! {

broadcast use vstd::string::group_string_axioms;

/// Shared output settings threaded through command handlers.
#[derive(Clone, Copy)]
pub struct Printer {
    pub json: bool,
}

impl Printer {
    pub fn new(json: bool) -> (p: Printer)
        ensures
            p.json == json,
    {
        Printer { json }
    }
}

/// The em dash shown in place of a missing value.
pub open spec fn em_dash() -> Seq<char> {
    seq!['\u{2014}']
}

/// A present value as-is, a missing one as a dash.
pub open spec fn spec_dash(v: Option<Seq<char>>) -> Seq<char> {
    match v {
        Some(s) => s,
        None => em_dash(),
    }
}

/// A present price with a dollar sign in front, a missing one as a dash.
pub open spec fn spec_price(v: Option<Seq<char>>) -> Seq<char> {
    match v {
        Some(p) => seq!['$'] + p,
        None => em_dash(),
    }
}

/// The view of an optional string.
pub open spec fn opt_view(v: Option<String>) -> Option<Seq<char>> {
    match v {
        Some(s) => Some(s@),
        None => None,
    }
}

/// The em dash as a `String`.
pub fn dash_string() -> (r: String)
    ensures
        r@ == em_dash(),
{
    let mut s = String::new();
    string_push(&mut s, '\u{2014}');
    s
}

pub fn dash(v: &Option<String>) -> (r: String)
    ensures
        r@ == spec_dash(opt_view(*v)),
{
    match v {
        Some(s) => s.clone(),
        None => dash_string(),
    }
}

pub fn price(v: &Option<String>) -> (r: String)
    ensures
        r@ == spec_price(opt_view(*v)),
{
    match v {
        Some(p) => {
            let mut s = String::new();
            string_push(&mut s, '$');
            s.append(p.as_str());
            s
        },
        None => dash_string(),
    }
}

pub fn truncate(s: &str, max: usize) -> (r: String)
    ensures
        r@ == spec_truncate(s@, max as nat),
{
    let chars = chars_of(s);
    if chars.len() <= max {
        String::from_str(s)
    } else {
        let keep: usize = if max == 0 { 0 } else { max - 1 };
        let mut out: Vec<char> = Vec::new();
        let mut i: usize = 0;
        while i < keep
            invariant
                i <= keep < chars@.len(),
                out@ == chars@.take(i as int),
            decreases keep - i,
        {
            out.push(chars[i]);
            assert(chars@.take(i as int).push(chars@[i as int]) =~= chars@.take(i + 1));
            i += 1;
        }
        out.push('\u{2026}');
        string_from_chars(out.as_slice())
    }
}

/// The length of a clipped string never exceeds the width asked for (once the width
/// leaves room for the ellipsis), and a string that fits is left untouched.
pub proof fn truncate_fits(s: Seq<char>, max: nat)
    ensures
        max >= 1 ==> spec_truncate(s, max).len() <= max,
        s.len() <= max ==> spec_truncate(s, max) == s,
        s.len() > max ==> spec_truncate(s, max).last() == '\u{2026}',
{
}

/// A clipped string begins with the text it was cut from.
pub proof fn truncate_keeps_prefix(s: Seq<char>, max: nat)
    ensures
        ({
            let t = spec_truncate(s, max);
            s.len() > max ==> t.drop_last() == s.take(t.len() - 1)
        }),
{
    let t = spec_truncate(s, max);
    if s.len() > max {
        assert(t.drop_last() =~= s.take(t.len() - 1));
    }
}

// ---------------------------------------------------------------------------
// Table rows
// ---------------------------------------------------------------------------

/// `s` in upper case as `str::to_uppercase` maps it (a name for the full Unicode
/// mapping std applies).
pub uninterp spec fn str_upper(s: Seq<char>) -> Seq<char>;

/// `str::to_uppercase`.
#[verifier::external_body]
pub(crate) fn to_upper(s: &str) -> (r: String)
    ensures
        r@ == str_upper(s@),
{
    s.to_uppercase()
}

/// Appends one cell to a row.
pub fn push_cell(row: &mut Vec<String>, cell: String)
    ensures
        views(final(row)@) == views(old(row)@).push(cell@),
{
    proof {
        lemma_views_push(row@, cell);
    }
    row.push(cell);
}

pub open spec fn spec_games_row(g: Game) -> Seq<Seq<char>> {
    seq![g.id@, g.name@, g.publisher@, g.data_source@]
}

/// One row of the games table: id, name, publisher, data source.
pub fn games_row(g: &Game) -> (r: Vec<String>)
    ensures
        views(r@) == spec_games_row(*g),
{
    let mut row: Vec<String> = Vec::new();
    push_cell(&mut row, g.id.clone());
    push_cell(&mut row, g.name.clone());
    push_cell(&mut row, g.publisher.clone());
    push_cell(&mut row, g.data_source.clone());
    assert(views(row@) =~= spec_games_row(*g));
    row
}

pub open spec fn spec_sets_row(s: CardSet) -> Seq<Seq<char>> {
    seq![
        s.code@,
        spec_truncate(s.name@, 44),
        spec_dash(opt_view(s.set_type)),
        spec_dash(opt_view(s.released_at)),
        dec_int(s.card_count as int),
    ]
}

/// One row of the sets table: code, name, type, release date, card count.
pub fn sets_row(s: &CardSet) -> (r: Vec<String>)
    ensures
        views(r@) == spec_sets_row(*s),
{
    let mut row: Vec<String> = Vec::new();
    push_cell(&mut row, s.code.clone());
    push_cell(&mut row, truncate(s.name.as_str(), 44));
    push_cell(&mut row, dash(&s.set_type));
    push_cell(&mut row, dash(&s.released_at));
    push_cell(&mut row, fmt_i64(s.card_count));
    assert(views(row@) =~= spec_sets_row(*s));
    row
}

pub open spec fn spec_products_row(p: Product) -> Seq<Seq<char>> {
    seq![
        p.id@,
        spec_truncate(p.name@, 40),
        str_upper(p.set_code@),
        spec_truncate(p.product_type@, 16),
        spec_price(opt_view(p.prices.usd)),
        spec_price(opt_view(p.msrp)),
    ]
}

/// One row of the sealed-products table: id, name, set, type, price, MSRP.
pub fn products_row(p: &Product) -> (r: Vec<String>)
    ensures
        views(r@) == spec_products_row(*p),
{
    let mut row: Vec<String> = Vec::new();
    push_cell(&mut row, p.id.clone());
    push_cell(&mut row, truncate(p.name.as_str(), 40));
    push_cell(&mut row, to_upper(p.set_code.as_str()));
    push_cell(&mut row, truncate(p.product_type.as_str(), 16));
    push_cell(&mut row, price(&p.prices.usd));
    push_cell(&mut row, price(&p.msrp));
    assert(views(row@) =~= spec_products_row(*p));
    row
}

pub open spec fn spec_product_holdings_row(e: ProductHoldingEntry) -> Seq<Seq<char>> {
    seq![
        e.product.id@,
        spec_truncate(e.product.name@, 36),
        str_upper(e.product.set_code@),
        spec_truncate(e.product.product_type@, 14),
        dec_int(e.quantity as int),
        dec_int(e.foil_quantity as int),
        spec_price(opt_view(e.product.prices.usd)),
    ]
}

/// One row of the held-products table.
pub fn product_holdings_row(e: &ProductHoldingEntry) -> (r: Vec<String>)
    ensures
        views(r@) == spec_product_holdings_row(*e),
{
    let mut row: Vec<String> = Vec::new();
    push_cell(&mut row, e.product.id.clone());
    push_cell(&mut row, truncate(e.product.name.as_str(), 36));
    push_cell(&mut row, to_upper(e.product.set_code.as_str()));
    push_cell(&mut row, truncate(e.product.product_type.as_str(), 14));
    push_cell(&mut row, fmt_i64(e.quantity));
    push_cell(&mut row, fmt_i64(e.foil_quantity));
    push_cell(&mut row, price(&e.product.prices.usd));
    assert(views(row@) =~= spec_product_holdings_row(*e));
    row
}

pub open spec fn spec_decks_row(d: Deck) -> Seq<Seq<char>> {
    seq![
        dec_int(d.id as int),
        spec_truncate(d.name@, 36),
        spec_dash(opt_view(d.format)),
        dec_int(d.card_count as int),
        if d.is_public { "yes"@ } else { "no"@ },
        d.updated_at@,
    ]
}

/// A deck row shows the deck's id, its card count and its last update in their
/// columns, and its Public cell says `yes` exactly for a public deck and `no` for
/// a private one.
pub proof fn deck_row_says_public_exactly_when_public(d: Deck)
    ensures
        spec_decks_row(d).len() == 6,
        spec_decks_row(d)[0] == dec_int(d.id as int),
        spec_decks_row(d)[3] == dec_int(d.card_count as int),
        spec_decks_row(d)[5] == d.updated_at@,
        spec_decks_row(d)[4] == "yes"@ <==> d.is_public,
        !d.is_public <==> spec_decks_row(d)[4] == "no"@,
{
    reveal_strlit("yes");
    reveal_strlit("no");
    assert("yes"@.len() != "no"@.len());
}

/// One row of the decks table: id, name, format, cards, public, last update.
pub fn decks_row(d: &Deck) -> (r: Vec<String>)
    ensures
        views(r@) == spec_decks_row(*d),
{
    let mut row: Vec<String> = Vec::new();
    push_cell(&mut row, fmt_i64(d.id));
    push_cell(&mut row, truncate(d.name.as_str(), 36));
    push_cell(&mut row, dash(&d.format));
    push_cell(&mut row, fmt_i64(d.card_count));
    push_cell(&mut row, String::from_str(if d.is_public { "yes" } else { "no" }));
    push_cell(&mut row, d.updated_at.clone());
    assert(views(row@) =~= spec_decks_row(*d));
    row
}

pub open spec fn spec_apikeys_row(k: ApiKeyInfo) -> Seq<Seq<char>> {
    seq![
        dec_int(k.id as int),
        spec_truncate(k.name@, 28),
        k.scope@,
        k.key_prefix@,
        spec_dash(opt_view(k.last_used_at)),
        spec_dash(opt_view(k.expires_at)),
    ]
}

/// One row of the API-keys table.
pub fn apikeys_row(k: &ApiKeyInfo) -> (r: Vec<String>)
    ensures
        views(r@) == spec_apikeys_row(*k),
{
    let mut row: Vec<String> = Vec::new();
    push_cell(&mut row, fmt_i64(k.id));
    push_cell(&mut row, truncate(k.name.as_str(), 28));
    push_cell(&mut row, k.scope.clone());
    push_cell(&mut row, k.key_prefix.clone());
    push_cell(&mut row, dash(&k.last_used_at));
    push_cell(&mut row, dash(&k.expires_at));
    assert(views(row@) =~= spec_apikeys_row(*k));
    row
}

pub open spec fn spec_prices_row(p: PricePoint) -> Seq<Seq<char>> {
    seq![
        p.date@,
        spec_price(opt_view(p.usd)),
        spec_price(opt_view(p.usd_foil)),
        spec_dash(opt_view(p.eur)),
        spec_dash(opt_view(p.tix)),
    ]
}

/// One row of the price-history table.
pub fn prices_row(p: &PricePoint) -> (r: Vec<String>)
    ensures
        views(r@) == spec_prices_row(*p),
{
    let mut row: Vec<String> = Vec::new();
    push_cell(&mut row, p.date.clone());
    push_cell(&mut row, price(&p.usd));
    push_cell(&mut row, price(&p.usd_foil));
    push_cell(&mut row, dash(&p.eur));
    push_cell(&mut row, dash(&p.tix));
    assert(views(row@) =~= spec_prices_row(*p));
    row
}

pub open spec fn spec_summary_lines(s: CollectionSummary) -> Seq<Seq<char>> {
    seq![
        "Unique cards : "@ + dec_int(s.unique_cards as int),
        "Total copies : "@ + dec_int(s.total_cards as int),
        "Total value  : "@ + spec_price(opt_view(s.total_value_usd)),
        "Bulk value   : "@ + spec_price(opt_view(s.bulk_value_usd)),
    ]
}

/// A summary reports, in order, the unique cards, the copies held, the total value
/// and the bulk value; the copies line is `Total copies : ` and `total_cards`, so
/// two summaries with the same number of
/// copies give the same line whatever their unique-card counts.
pub proof fn summary_reports_total_copies(s: CollectionSummary, t: CollectionSummary)
    ensures
        spec_summary_lines(s).len() == 4,
        spec_summary_lines(s)[0] == "Unique cards : "@ + dec_int(s.unique_cards as int),
        spec_summary_lines(s)[1] == "Total copies : "@ + dec_int(s.total_cards as int),
        spec_summary_lines(s)[2] == "Total value  : "@ + spec_price(opt_view(s.total_value_usd)),
        spec_summary_lines(s)[3] == "Bulk value   : "@ + spec_price(opt_view(s.bulk_value_usd)),
        s.total_cards == t.total_cards ==> spec_summary_lines(s)[1] == spec_summary_lines(t)[1],
{
}

/// The four lines of a holdings summary.
pub fn collection_summary(s: &CollectionSummary) -> (r: Vec<String>)
    ensures
        views(r@) == spec_summary_lines(*s),
{
    let mut row: Vec<String> = Vec::new();
    let mut a = String::from_str("Unique cards : ");
    push_i64(&mut a, s.unique_cards);
    push_cell(&mut row, a);
    let mut b = String::from_str("Total copies : ");
    push_i64(&mut b, s.total_cards);
    push_cell(&mut row, b);
    let mut c = String::from_str("Total value  : ");
    let pc = price(&s.total_value_usd);
    c.append(pc.as_str());
    push_cell(&mut row, c);
    let mut d = String::from_str("Bulk value   : ");
    let pd = price(&s.bulk_value_usd);
    d.append(pd.as_str());
    push_cell(&mut row, d);
    assert(views(row@) =~= spec_summary_lines(*s));
    row
}

/// The footer under a paged listing: `page 2 · 120 cards total · more (--page)`.
pub open spec fn spec_page_note(page: i64, total: i64, noun: Seq<char>, has_more: bool) -> Seq<char> {
    "page "@ + dec_int(page as int) + " \u{b7} "@ + dec_int(total as int) + " "@ + noun + " total"@
        + if has_more { " \u{b7} more (--page)"@ } else { Seq::empty() }
}

pub fn page_note(page: i64, total: i64, noun: &str, has_more: bool) -> (r: String)
    ensures
        r@ == spec_page_note(page, total, noun@, has_more),
{
    let mut out = String::from_str("page ");
    push_i64(&mut out, page);
    out.append(" \u{b7} ");
    push_i64(&mut out, total);
    out.append(" ");
    out.append(noun);
    out.append(" total");
    if has_more {
        out.append(" \u{b7} more (--page)");
    }
    assert(out@ =~= spec_page_note(page, total, noun@, has_more));
    out
}

// ---------------------------------------------------------------------------
// Cards
// ---------------------------------------------------------------------------

pub open spec fn spec_cards_row(c: Card) -> Seq<Seq<char>> {
    seq![
        spec_truncate(c.id@, 12),
        spec_truncate(c.name@, 34),
        str_upper(c.set_code@),
        c.collector_number@,
        spec_dash(opt_view(c.rarity)),
        spec_price(opt_view(c.prices.usd)),
        spec_price(opt_view(c.prices.usd_foil)),
    ]
}

/// One row of the cards table: id, name, set, number, rarity, price, foil price.
pub fn cards_row(c: &Card) -> (r: Vec<String>)
    ensures
        views(r@) == spec_cards_row(*c),
{
    let mut row: Vec<String> = Vec::new();
    push_cell(&mut row, truncate(c.id.as_str(), 12));
    push_cell(&mut row, truncate(c.name.as_str(), 34));
    push_cell(&mut row, to_upper(c.set_code.as_str()));
    push_cell(&mut row, c.collector_number.clone());
    push_cell(&mut row, dash(&c.rarity));
    push_cell(&mut row, price(&c.prices.usd));
    push_cell(&mut row, price(&c.prices.usd_foil));
    assert(views(row@) =~= spec_cards_row(*c));
    row
}

pub open spec fn spec_collection_row(e: CollectionEntry) -> Seq<Seq<char>> {
    seq![
        spec_truncate(e.card.id@, 12),
        spec_truncate(e.card.name@, 32),
        str_upper(e.card.set_code@),
        e.card.collector_number@,
        dec_int(e.quantity as int),
        dec_int(e.foil_quantity as int),
        spec_price(opt_view(e.card.prices.usd)),
    ]
}

/// One row of a holdings table: id, name, set, number, copies, foil copies, price.
pub fn collection_row(e: &CollectionEntry) -> (r: Vec<String>)
    ensures
        views(r@) == spec_collection_row(*e),
{
    let mut row: Vec<String> = Vec::new();
    push_cell(&mut row, truncate(e.card.id.as_str(), 12));
    push_cell(&mut row, truncate(e.card.name.as_str(), 32));
    push_cell(&mut row, to_upper(e.card.set_code.as_str()));
    push_cell(&mut row, e.card.collector_number.clone());
    push_cell(&mut row, fmt_i64(e.quantity));
    push_cell(&mut row, fmt_i64(e.foil_quantity));
    push_cell(&mut row, price(&e.card.prices.usd));
    assert(views(row@) =~= spec_collection_row(*e));
    row
}

/// Every line of `text` indented by four spaces, joined by newlines.
pub open spec fn spec_indent(text: Seq<char>) -> Seq<char> {
    seq_join(spec_lines(text).map_values(|l: Seq<char>| "    "@ + l), "\n"@)
}

pub fn indent(text: &str) -> (r: String)
    ensures
        r@ == spec_indent(text@),
{
    let ls = lines(text);
    let mut shifted: Vec<String> = Vec::new();
    let mut i: usize = 0;
    while i < ls.len()
        invariant
            i <= ls@.len(),
            views(ls@) == spec_lines(text@),
            views(shifted@) == views(ls@).take(i as int).map_values(|l: Seq<char>| "    "@ + l),
        decreases ls.len() - i,
    {
        let mut line = String::from_str("    ");
        line.append(ls[i].as_str());
        proof {
            lemma_views_push(shifted@, line);
            crate::text::lemma_map_take_push(views(ls@), |l: Seq<char>| "    "@ + l, i as int);
        }
        shifted.push(line);
        i += 1;
    }
    assert(views(ls@).take(ls@.len() as int) =~= views(ls@));
    assert(views(shifted@) =~= spec_lines(text@).map_values(|l: Seq<char>| "    "@ + l));
    crate::text::join(shifted.as_slice(), "\n")
}

/// The mana value as shown: the card's, or `0` when it has none.
pub open spec fn spec_cmc(c: Card) -> Seq<char> {
    match c.cmc {
        Some(v) => v@,
        None => "0"@,
    }
}

/// A line per present value: `prefix` and the value.
pub open spec fn opt_line(prefix: Seq<char>, v: Option<String>) -> Seq<Seq<char>> {
    match v {
        Some(x) => seq![prefix + x@],
        None => Seq::empty(),
    }
}

/// What the detail block shows of one face, the `n`-th (counting from 1).
pub open spec fn spec_face_block(f: CardFace, n: int) -> Seq<Seq<char>> {
    seq!["  --- face "@ + dec_int(n) + " ---"@] + opt_line("  "@, f.name) + opt_line("  "@, f.type_line)
        + match f.oracle_text {
        Some(ot) => seq![spec_indent(ot@)],
        None => Seq::empty(),
    }
}

/// The blocks of every face, in order.
pub open spec fn spec_faces_block(faces: Seq<CardFace>) -> Seq<Seq<char>>
    decreases faces.len(),
{
    if faces.len() == 0 {
        Seq::empty()
    } else {
        spec_faces_block(faces.drop_last()) + spec_face_block(faces.last(), faces.len() as int)
    }
}

/// The top of the card detail block: header, set line, mana, type, power/toughness,
/// loyalty and rules text.
pub open spec fn spec_card_detail_head(c: Card) -> Seq<Seq<char>> {
    seq![
        c.name@ + "  ["@ + c.id@ + "]"@,
        "  "@ + c.set_name@ + " \u{b7} "@ + str_upper(c.set_code@) + " #"@ + c.collector_number@ + " \u{b7} "@
            + spec_dash(opt_view(c.rarity)),
    ] + match c.mana_cost {
        Some(mc) => if mc@.len() > 0 {
            seq!["  Mana: "@ + mc@ + "   CMC: "@ + spec_cmc(c)]
        } else {
            Seq::empty()
        },
        None => Seq::empty(),
    } + opt_line("  Type: "@, c.type_line) + match (c.power, c.toughness) {
        (Some(p), Some(t)) => seq!["  P/T: "@ + p@ + "/"@ + t@],
        _ => Seq::empty(),
    } + opt_line("  Loyalty: "@, c.loyalty) + match c.oracle_text {
        Some(ot) => if ot@.len() > 0 {
            seq!["  ---\n"@ + spec_indent(ot@)]
        } else {
            Seq::empty()
        },
        None => Seq::empty(),
    }
}

/// The foot of the card detail block: prices and the drop.
pub open spec fn spec_card_detail_foot(c: Card) -> Seq<Seq<char>> {
    seq![
        "  Prices: USD "@ + spec_price(opt_view(c.prices.usd)) + " \u{b7} Foil "@ + spec_price(opt_view(c.prices.usd_foil))
            + " \u{b7} EUR "@ + spec_dash(opt_view(c.prices.eur)) + " \u{b7} TIX "@ + spec_dash(opt_view(c.prices.tix)),
    ] + opt_line("  Secret Lair drop: "@, c.drop_name)
}

/// The card detail block, one entry per printed line group: the head, each face,
/// the foot.
pub open spec fn spec_card_detail(c: Card) -> Seq<Seq<char>> {
    spec_card_detail_head(c) + spec_faces_block(c.faces@) + spec_card_detail_foot(c)
}

fn push_opt_line(out: &mut Vec<String>, prefix: &str, v: &Option<String>)
    ensures
        views(final(out)@) == views(old(out)@) + opt_line(prefix@, *v),
{
    if let Some(x) = v {
        let mut line = String::from_str(prefix);
        line.append(x.as_str());
        proof {
            lemma_views_push(out@, line);
        }
        out.push(line);
    }
    assert(views(final(out)@) =~= views(old(out)@) + opt_line(prefix@, *v));
}

fn push_line(out: &mut Vec<String>, line: String)
    ensures
        views(final(out)@) == views(old(out)@).push(line@),
{
    proof {
        lemma_views_push(out@, line);
    }
    out.push(line);
}

fn face_block(f: &CardFace, n: i64) -> (r: Vec<String>)
    ensures
        views(r@) == spec_face_block(*f, n as int),
{
    let mut out: Vec<String> = Vec::new();
    let mut head = String::from_str("  --- face ");
    push_i64(&mut head, n);
    head.append(" ---");
    push_line(&mut out, head);
    push_opt_line(&mut out, "  ", &f.name);
    push_opt_line(&mut out, "  ", &f.type_line);
    if let Some(ot) = &f.oracle_text {
        push_line(&mut out, indent(ot.as_str()));
    }
    assert(views(out@) =~= spec_face_block(*f, n as int));
    out
}

fn card_detail_head(out: &mut Vec<String>, c: &Card)
    ensures
        views(final(out)@) == views(old(out)@) + spec_card_detail_head(*c),
{
    let mut head = c.name.clone();
    head.append("  [");
    head.append(c.id.as_str());
    head.append("]");
    push_line(out, head);
    let mut set_line = String::from_str("  ");
    set_line.append(c.set_name.as_str());
    set_line.append(" \u{b7} ");
    let up = to_upper(c.set_code.as_str());
    set_line.append(up.as_str());
    set_line.append(" #");
    set_line.append(c.collector_number.as_str());
    set_line.append(" \u{b7} ");
    let r = dash(&c.rarity);
    set_line.append(r.as_str());
    push_line(out, set_line);
    if let Some(mc) = &c.mana_cost {
        if mc.unicode_len() > 0 {
            let mut line = String::from_str("  Mana: ");
            line.append(mc.as_str());
            line.append("   CMC: ");
            match &c.cmc {
                Some(v) => line.append(v.as_str()),
                None => line.append("0"),
            }
            push_line(out, line);
        }
    }
    push_opt_line(out, "  Type: ", &c.type_line);
    if let (Some(p), Some(t)) = (&c.power, &c.toughness) {
        let mut line = String::from_str("  P/T: ");
        line.append(p.as_str());
        line.append("/");
        line.append(t.as_str());
        push_line(out, line);
    }
    push_opt_line(out, "  Loyalty: ", &c.loyalty);
    if let Some(ot) = &c.oracle_text {
        if ot.unicode_len() > 0 {
            let mut line = String::from_str("  ---\n");
            let body = indent(ot.as_str());
            line.append(body.as_str());
            push_line(out, line);
        }
    }
    assert(views(out@) =~= views(old(out)@) + spec_card_detail_head(*c));
}

fn card_detail_foot(out: &mut Vec<String>, c: &Card)
    ensures
        views(final(out)@) == views(old(out)@) + spec_card_detail_foot(*c),
{
    let mut prices = String::from_str("  Prices: USD ");
    prices.append(price(&c.prices.usd).as_str());
    prices.append(" \u{b7} Foil ");
    prices.append(price(&c.prices.usd_foil).as_str());
    prices.append(" \u{b7} EUR ");
    prices.append(dash(&c.prices.eur).as_str());
    prices.append(" \u{b7} TIX ");
    prices.append(dash(&c.prices.tix).as_str());
    push_line(out, prices);
    push_opt_line(out, "  Secret Lair drop: ", &c.drop_name);
    assert(views(out@) =~= views(old(out)@) + spec_card_detail_foot(*c));
}

/// The card detail block.
pub fn card_detail(c: &Card) -> (r: Vec<String>)
    requires
        c.faces@.len() < i64::MAX,
    ensures
        views(r@) == spec_card_detail(*c),
{
    let mut out: Vec<String> = Vec::new();
    card_detail_head(&mut out, c);
    let ghost before_faces = views(out@);
    let mut i: usize = 0;
    while i < c.faces.len()
        invariant
            i <= c.faces@.len() < i64::MAX,
            views(out@) == before_faces + spec_faces_block(c.faces@.take(i as int)),
        decreases c.faces.len() - i,
    {
        let block = face_block(&c.faces[i], (i + 1) as i64);
        let ghost prev = views(out@);
        let mut k: usize = 0;
        while k < block.len()
            invariant
                k <= block@.len(),
                views(out@) == prev + views(block@).take(k as int),
            decreases block.len() - k,
        {
            push_line(&mut out, block[k].clone());
            assert(views(block@).take(k + 1) =~= views(block@).take(k as int).push(block@[k as int]@));
            k += 1;
        }
        assert(views(block@).take(block@.len() as int) =~= views(block@));
        assert(c.faces@.take(i + 1).drop_last() =~= c.faces@.take(i as int));
        i += 1;
    }
    assert(c.faces@.take(c.faces@.len() as int) =~= c.faces@);
    card_detail_foot(&mut out, c);
    assert(views(out@) =~= spec_card_detail(*c));
    out
}

// ---------------------------------------------------------------------------
// Reports
// ---------------------------------------------------------------------------

/// One piece of a command's human-readable output.
pub enum Block {
    /// A line printed as is (it may hold line breaks).
    Line(String),
    /// A table: its column headers and its rows.
    Table { header: Vec<&'static str>, rows: Vec<Vec<String>> },
    /// A status line, left out under `--json`.
    Note(String),
}

/// A block as plain values.
pub enum BlockView {
    Line(Seq<char>),
    Table(Seq<Seq<char>>, Seq<Seq<Seq<char>>>),
    Note(Seq<char>),
}

/// Column headers as plain values.
pub open spec fn header_view(h: Seq<&'static str>) -> Seq<Seq<char>> {
    h.map_values(|s: &'static str| s@)
}

/// Table rows as plain values.
pub open spec fn rows_view(r: Seq<Vec<String>>) -> Seq<Seq<Seq<char>>> {
    r.map_values(|row: Vec<String>| views(row@))
}

pub open spec fn block_view(b: Block) -> BlockView {
    match b {
        Block::Line(s) => BlockView::Line(s@),
        Block::Table { header, rows } => BlockView::Table(header_view(header@), rows_view(rows@)),
        Block::Note(s) => BlockView::Note(s@),
    }
}

/// A report as plain values.
pub open spec fn report_view(r: Seq<Block>) -> Seq<BlockView> {
    r.map_values(|b: Block| block_view(b))
}

/// Appends a block to a report.
pub fn push_block(out: &mut Vec<Block>, b: Block)
    ensures
        report_view(final(out)@) == report_view(old(out)@).push(block_view(b)),
{
    out.push(b);
    assert(report_view(final(out)@) =~= report_view(old(out)@).push(block_view(b)));
}

/// Appends a row to a table's rows.
pub fn push_row(rows: &mut Vec<Vec<String>>, row: Vec<String>)
    ensures
        rows_view(final(rows)@) == rows_view(old(rows)@).push(views(row@)),
{
    rows.push(row);
    assert(rows_view(final(rows)@) =~= rows_view(old(rows)@).push(views(row@)));
}

/// `true` or `false`, as `{}` prints a bool.
pub open spec fn bool_text(b: bool) -> Seq<char> {
    if b {
        "true"@
    } else {
        "false"@
    }
}

/// Appends `true` or `false`.
pub fn push_bool(out: &mut String, b: bool)
    ensures
        final(out)@ == old(out)@ + bool_text(b),
{
    if b {
        out.append("true");
    } else {
        out.append("false");
    }
}

/// `yes` for a set flag, blank otherwise.
pub open spec fn yes_blank(b: bool) -> Seq<char> {
    if b {
        "yes"@
    } else {
        Seq::empty()
    }
}

pub fn yes_or_blank(b: bool) -> (r: String)
    ensures
        r@ == yes_blank(b),
{
    if b {
        String::from_str("yes")
    } else {
        String::new()
    }
}

/// The decimal text of a count.
pub fn fmt_count(n: usize) -> (r: String)
    ensures
        r@ == crate::text::dec_nat(n as nat),
{
    crate::text::fmt_u64(n as u64)
}

/// The cards table: id, name, set, number, rarity, price, foil price.
pub fn cards_table(cards: &Vec<Card>) -> (b: Block)
    ensures
        block_view(b) == BlockView::Table(
            seq!["ID"@, "Name"@, "Set"@, "#"@, "Rarity"@, "USD"@, "Foil"@],
            cards@.map_values(|c: Card| spec_cards_row(c)),
        ),
{
    let header = vec!["ID", "Name", "Set", "#", "Rarity", "USD", "Foil"];
    assert(header_view(header@) =~= seq!["ID"@, "Name"@, "Set"@, "#"@, "Rarity"@, "USD"@, "Foil"@]);
    let mut rows: Vec<Vec<String>> = Vec::new();
    let mut i: usize = 0;
    while i < cards.len()
        invariant
            i <= cards@.len(),
            rows_view(rows@) == cards@.take(i as int).map_values(|c: Card| spec_cards_row(c)),
        decreases cards.len() - i,
    {
        push_row(&mut rows, cards_row(&cards[i]));
        assert(cards@.take(i + 1).map_values(|c: Card| spec_cards_row(c)) =~= cards@.take(i as int).map_values(
            |c: Card| spec_cards_row(c),
        ).push(spec_cards_row(cards@[i as int])));
        i += 1;
    }
    assert(cards@.take(cards@.len() as int) =~= cards@);
    Block::Table { header, rows }
}

/// A page of cards: the table, then where the page sits.
pub open spec fn spec_card_page(page: crate::models::Page<Card>) -> Seq<BlockView> {
    seq![
        BlockView::Table(
            seq!["ID"@, "Name"@, "Set"@, "#"@, "Rarity"@, "USD"@, "Foil"@],
            page.data@.map_values(|c: Card| spec_cards_row(c)),
        ),
        BlockView::Note(spec_page_note(page.page, page.total, "cards"@, page.has_more)),
    ]
}

pub fn card_page_report(page: &crate::models::Page<Card>) -> (out: Vec<Block>)
    ensures
        report_view(out@) == spec_card_page(*page),
{
    let mut out: Vec<Block> = Vec::new();
    push_block(&mut out, cards_table(&page.data));
    push_block(&mut out, Block::Note(page_note(page.page, page.total, "cards", page.has_more)));
    assert(report_view(out@) =~= spec_card_page(*page));
    out
}

/// The rows of a table, one per item, in order, each built by `row`.
pub(crate) fn table_rows<T, F: Fn(&T) -> Vec<String>>(
    items: &Vec<T>,
    row: F,
    Ghost(spec_row): Ghost<spec_fn(T) -> Seq<Seq<char>>>,
) -> (rows: Vec<Vec<String>>)
    requires
        forall|t: &T| #[trigger] row.requires((t,)),
        forall|t: &T, r: Vec<String>| #[trigger] row.ensures((t,), r) ==> views(r@) == spec_row(*t),
    ensures
        rows_view(rows@) == items@.map_values(spec_row),
{
    let mut rows: Vec<Vec<String>> = Vec::new();
    let mut i: usize = 0;
    while i < items.len()
        invariant
            i <= items@.len(),
            forall|t: &T| #[trigger] row.requires((t,)),
            forall|t: &T, r: Vec<String>| #[trigger] row.ensures((t,), r) ==> views(r@) == spec_row(*t),
            rows_view(rows@) == items@.take(i as int).map_values(spec_row),
        decreases items.len() - i,
    {
        let r = row(&items[i]);
        push_row(&mut rows, r);
        assert(items@.take(i + 1).map_values(spec_row) =~= items@.take(i as int).map_values(spec_row).push(
            spec_row(items@[i as int]),
        ));
        i += 1;
    }
    assert(items@.take(items@.len() as int) =~= items@);
    rows
}

/// The games table: id, name, publisher, data source.
pub fn games_table(games: &Vec<Game>) -> (b: Block)
    ensures
        block_view(b) == BlockView::Table(
            seq!["ID"@, "Name"@, "Publisher"@, "Source"@],
            games@.map_values(|g: Game| spec_games_row(g)),
        ),
{
    let header = vec!["ID", "Name", "Publisher", "Source"];
    assert(header_view(header@) =~= seq!["ID"@, "Name"@, "Publisher"@, "Source"@]);
    let rows = table_rows(games, games_row, Ghost(|g: Game| spec_games_row(g)));
    Block::Table { header, rows }
}

/// The sets table: code, name, type, release date, card count.
pub fn sets_table(sets: &Vec<CardSet>) -> (b: Block)
    ensures
        block_view(b) == BlockView::Table(
            seq!["Code"@, "Name"@, "Type"@, "Released"@, "Cards"@],
            sets@.map_values(|x: CardSet| spec_sets_row(x)),
        ),
{
    let header = vec!["Code", "Name", "Type", "Released", "Cards"];
    assert(header_view(header@) =~= seq!["Code"@, "Name"@, "Type"@, "Released"@, "Cards"@]);
    let rows = table_rows(sets, sets_row, Ghost(|x: CardSet| spec_sets_row(x)));
    Block::Table { header, rows }
}

/// The sealed-products table: id, name, set, type, price, MSRP.
pub fn products_table(products: &Vec<Product>) -> (b: Block)
    ensures
        block_view(b) == BlockView::Table(
            seq!["ID"@, "Name"@, "Set"@, "Type"@, "USD"@, "MSRP"@],
            products@.map_values(|x: Product| spec_products_row(x)),
        ),
{
    let header = vec!["ID", "Name", "Set", "Type", "USD", "MSRP"];
    assert(header_view(header@) =~= seq!["ID"@, "Name"@, "Set"@, "Type"@, "USD"@, "MSRP"@]);
    let rows = table_rows(products, products_row, Ghost(|x: Product| spec_products_row(x)));
    Block::Table { header, rows }
}

/// The held-products table: id, name, set, type, copies, foil copies, price.
pub fn product_holdings_table(entries: &Vec<ProductHoldingEntry>) -> (b: Block)
    ensures
        block_view(b) == BlockView::Table(
            seq!["ID"@, "Name"@, "Set"@, "Type"@, "Qty"@, "Foil"@, "USD"@],
            entries@.map_values(|x: ProductHoldingEntry| spec_product_holdings_row(x)),
        ),
{
    let header = vec!["ID", "Name", "Set", "Type", "Qty", "Foil", "USD"];
    assert(header_view(header@) =~= seq!["ID"@, "Name"@, "Set"@, "Type"@, "Qty"@, "Foil"@, "USD"@]);
    let rows = table_rows(entries, product_holdings_row, Ghost(|x: ProductHoldingEntry| spec_product_holdings_row(x)));
    Block::Table { header, rows }
}

/// The decks table: id, name, format, cards, public, last update.
pub fn decks_table(decks: &Vec<Deck>) -> (b: Block)
    ensures
        block_view(b) == BlockView::Table(
            seq!["ID"@, "Name"@, "Format"@, "Cards"@, "Public"@, "Updated"@],
            decks@.map_values(|x: Deck| spec_decks_row(x)),
        ),
{
    let header = vec!["ID", "Name", "Format", "Cards", "Public", "Updated"];
    assert(header_view(header@) =~= seq!["ID"@, "Name"@, "Format"@, "Cards"@, "Public"@, "Updated"@]);
    let rows = table_rows(decks, decks_row, Ghost(|x: Deck| spec_decks_row(x)));
    Block::Table { header, rows }
}

/// The API-keys table: id, name, scope, prefix, last use, expiry.
pub fn apikeys_table(keys: &Vec<ApiKeyInfo>) -> (b: Block)
    ensures
        block_view(b) == BlockView::Table(
            seq!["ID"@, "Name"@, "Scope"@, "Prefix"@, "Last used"@, "Expires"@],
            keys@.map_values(|x: ApiKeyInfo| spec_apikeys_row(x)),
        ),
{
    let header = vec!["ID", "Name", "Scope", "Prefix", "Last used", "Expires"];
    assert(header_view(header@) =~= seq!["ID"@, "Name"@, "Scope"@, "Prefix"@, "Last used"@, "Expires"@]);
    let rows = table_rows(keys, apikeys_row, Ghost(|x: ApiKeyInfo| spec_apikeys_row(x)));
    Block::Table { header, rows }
}

/// The price-history table: date, USD, foil, EUR, TIX.
pub fn prices_table(points: &Vec<PricePoint>) -> (b: Block)
    ensures
        block_view(b) == BlockView::Table(
            seq!["Date"@, "USD"@, "Foil"@, "EUR"@, "TIX"@],
            points@.map_values(|x: PricePoint| spec_prices_row(x)),
        ),
{
    let header = vec!["Date", "USD", "Foil", "EUR", "TIX"];
    assert(header_view(header@) =~= seq!["Date"@, "USD"@, "Foil"@, "EUR"@, "TIX"@]);
    let rows = table_rows(points, prices_row, Ghost(|x: PricePoint| spec_prices_row(x)));
    Block::Table { header, rows }
}

/// The column headers of a holdings table; `noun` names the primary count.
pub open spec fn collection_header(noun: Seq<char>) -> Seq<Seq<char>> {
    seq!["ID"@, "Name"@, "Set"@, "#"@, noun, "Foil"@, "USD"@]
}

/// A holdings table: id, name, set, number, copies (headed `noun`), foil copies, price.
pub fn collection_table(entries: &Vec<CollectionEntry>, noun: &'static str) -> (b: Block)
    ensures
        block_view(b) == BlockView::Table(
            collection_header(noun@),
            entries@.map_values(|e: CollectionEntry| spec_collection_row(e)),
        ),
{
    let header = vec!["ID", "Name", "Set", "#", noun, "Foil", "USD"];
    assert(header_view(header@) =~= collection_header(noun@));
    let rows = table_rows(entries, collection_row, Ghost(|e: CollectionEntry| spec_collection_row(e)));
    Block::Table { header, rows }
}

} // verus!
