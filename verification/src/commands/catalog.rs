//! The catalog side of the client that computes rather than fetches: reading a
//! card-scan fingerprint given as hex text or raw bytes, and what the catalog
//! listings (releases, sets, sealed products, combos, keywords) print.
use crate::models::{
    ArtTag, Card, CardCombo, CardCombos, CardSet, ComboPiece, DeckFormat, DropGroup, IngestStatus, Keyword,
    OpenedCard, OpenedPack, PreconDeck, Product, ProductCardEntry, ProductCardSection, ProductComponent,
    ProductContainer, ProductFacets, ProductOpening, ProductPricePoint, ProductSetRef, Releases, Ruling, ScanMatch,
    SealedProductRef, SecretLairDropRelease, SetRelease, SubtypeGroup,
};
use crate::output::{
    block_view, dash, fmt_count, header_view, opt_view, price, push_block, push_cell, push_row, report_view,
    rows_view, spec_dash, spec_price, str_upper, to_upper, truncate, yes_blank, yes_or_blank, Block, BlockView,
};
use crate::models::{Page, PricePoint, SearchGroup, SearchResults};
use crate::output::{
    cards_table, page_note, prices_table, products_table, sets_row, spec_prices_row, sets_table, spec_cards_row, spec_page_note, spec_products_row,
    spec_sets_row,
};
use super::{flag_pair, opt_pair, push_flag, push_opt, query_view, Query};
use crate::text::{
    chars_of, dec_int, dec_nat, fmt_i64, is_whitespace, join, lemma_views_push, push_i64, push_u64, seq_join,
    spec_is_whitespace, spec_truncate, views,
};
use vstd::prelude::*;

verus! {

broadcast use vstd::string::group_string_axioms;

// ---------------------------------------------------------------------------
// Hex text
// ---------------------------------------------------------------------------

/// The lowercase hex digit for `d` (`0 <= d < 16`).
pub open spec fn hex_lower(d: int) -> char {
    seq!['0', '1', '2', '3', '4', '5', '6', '7', '8', '9', 'a', 'b', 'c', 'd', 'e', 'f'][d]
}

/// `bytes` as lowercase hex, two digits per byte, high nibble first.
pub open spec fn spec_hex_encode(bytes: Seq<u8>) -> Seq<char>
    decreases bytes.len(),
{
    if bytes.len() == 0 {
        Seq::empty()
    } else {
        let b = bytes.last();
        spec_hex_encode(bytes.drop_last()) + seq![hex_lower(b as int / 16), hex_lower(b as int % 16)]
    }
}

/// `hex::encode`: the lowercase hex of `bytes`.
#[verifier::external_body]
pub(crate) fn hex_encode(bytes: &[u8]) -> (r: String)
    ensures
        r@ == spec_hex_encode(bytes@),
{
    hex::encode(bytes)
}

/// The value of a hex digit (either case), as `char::to_digit(16)` reads one.
pub open spec fn hex_value(c: char) -> Option<int> {
    if '0' <= c && c <= '9' {
        Some(c as int - '0' as int)
    } else if 'a' <= c && c <= 'f' {
        Some(c as int - 'a' as int + 10)
    } else if 'A' <= c && c <= 'F' {
        Some(c as int - 'A' as int + 10)
    } else {
        None
    }
}

/// The byte two hex digits spell, high digit first; nothing unless both characters
/// are hex digits.
pub open spec fn spec_hex_pair(a: char, b: char) -> Option<u8> {
    match (hex_value(a), hex_value(b)) {
        (Some(x), Some(y)) => Some((x * 16 + y) as u8),
        _ => None,
    }
}

/// The bytes a run of digit pairs spells, or nothing when one pair is not a byte.
pub open spec fn decode_pairs(c: Seq<char>) -> Option<Seq<u8>>
    decreases c.len(),
{
    if c.len() < 2 {
        Some(Seq::empty())
    } else {
        match decode_pairs(c.take(c.len() - 2)) {
            Some(p) => match spec_hex_pair(c[c.len() - 2], c[c.len() - 1]) {
                Some(b) => Some(p.push(b)),
                None => None,
            },
            None => None,
        }
    }
}

/// `s` without its whitespace.
pub open spec fn strip_ws(s: Seq<char>) -> Seq<char>
    decreases s.len(),
{
    if s.len() == 0 {
        Seq::empty()
    } else if spec_is_whitespace(s.last()) {
        strip_ws(s.drop_last())
    } else {
        strip_ws(s.drop_last()).push(s.last())
    }
}

/// How many bytes UTF-8 spends on `c`.
pub open spec fn utf8_width(c: char) -> nat {
    if (c as u32) < 0x80 {
        1
    } else if (c as u32) < 0x800 {
        2
    } else if (c as u32) < 0x10000 {
        3
    } else {
        4
    }
}

/// How many bytes UTF-8 spends on `s`.
pub open spec fn utf8_len(s: Seq<char>) -> nat
    decreases s.len(),
{
    if s.len() == 0 {
        0
    } else {
        utf8_len(s.drop_last()) + utf8_width(s.last())
    }
}

/// Whether every character of `s` is ASCII.
pub open spec fn all_ascii(s: Seq<char>) -> bool {
    forall|k: int| 0 <= k < s.len() ==> (#[trigger] s[k] as u32) < 0x80
}

/// Why hex text was refused.
#[derive(Debug, Clone, Copy, PartialEq, Eq, Structural)]
pub enum HexError {
    /// The text (whitespace aside) is an odd number of bytes long.
    OddLength,
    /// A pair of digits is not a byte.
    InvalidDigit,
}

impl HexError {
    pub open spec fn spec_message(self) -> Seq<char> {
        match self {
            HexError::OddLength => "hex fingerprint must have an even number of digits"@,
            HexError::InvalidDigit => "invalid hex: invalid digit found in string"@,
        }
    }

    pub fn message(self) -> (r: &'static str)
        ensures
            r@ == self.spec_message(),
    {
        match self {
            HexError::OddLength => "hex fingerprint must have an even number of digits",
            HexError::InvalidDigit => "invalid hex: invalid digit found in string",
        }
    }
}

/// Hex text read as bytes. Whitespace anywhere is ignored; what is left must be an
/// even number of bytes long, then every pair must be a byte. A non-ASCII character
/// left after whitespace removal is never a hex digit: the text is then refused as
/// invalid.
pub open spec fn spec_decode_hex(s: Seq<char>) -> Result<Seq<u8>, HexError> {
    let cleaned = strip_ws(s);
    if utf8_len(cleaned) % 2 != 0 {
        Err(HexError::OddLength)
    } else if !all_ascii(cleaned) {
        Err(HexError::InvalidDigit)
    } else {
        match decode_pairs(cleaned) {
            Some(v) => Ok(v),
            None => Err(HexError::InvalidDigit),
        }
    }
}

fn hex_value_exec(c: char) -> (r: Option<u8>)
    ensures
        match (r, hex_value(c)) {
            (Some(a), Some(b)) => a == b,
            (None, None) => true,
            _ => false,
        },
{
    if '0' <= c && c <= '9' {
        Some((c as u32 - '0' as u32) as u8)
    } else if 'a' <= c && c <= 'f' {
        Some((c as u32 - 'a' as u32 + 10) as u8)
    } else if 'A' <= c && c <= 'F' {
        Some((c as u32 - 'A' as u32 + 10) as u8)
    } else {
        None
    }
}

fn hex_pair(a: char, b: char) -> (r: Option<u8>)
    ensures
        r == spec_hex_pair(a, b),
{
    match (hex_value_exec(a), hex_value_exec(b)) {
        (Some(x), Some(y)) => Some(x * 16 + y),
        _ => None,
    }
}

proof fn lemma_decode_pairs_none_sticks(c: Seq<char>, k: int, j: int)
    requires
        0 <= k <= j,
        2 * j <= c.len(),
        decode_pairs(c.take(2 * k)) is None,
    ensures
        decode_pairs(c.take(2 * j)) is None,
    decreases j - k,
{
    if j > k {
        lemma_decode_pairs_none_sticks(c, k, j - 1);
        assert(c.take(2 * j).take(2 * j - 2) =~= c.take(2 * (j - 1)));
    }
}

/// Decodes hex text into bytes (see [`spec_decode_hex`]).
pub fn decode_hex(s: &str) -> (r: Result<Vec<u8>, HexError>)
    ensures
        match (r, spec_decode_hex(s@)) {
            (Ok(a), Ok(b)) => a@ == b,
            (Err(a), Err(b)) => a == b,
            _ => false,
        },
{
    let cs = chars_of(s);
    let mut cleaned: Vec<char> = Vec::new();
    let mut odd = false;
    let mut ascii = true;
    let mut i: usize = 0;
    while i < cs.len()
        invariant
            i <= cs@.len(),
            cleaned@ == strip_ws(cs@.take(i as int)),
            odd == (utf8_len(cleaned@) % 2 == 1),
            ascii == all_ascii(cleaned@),
        decreases cs.len() - i,
    {
        let c = cs[i];
        assert(cs@.take(i + 1).drop_last() =~= cs@.take(i as int));
        if !is_whitespace(c) {
            let ghost before = cleaned@;
            cleaned.push(c);
            assert(cleaned@.drop_last() =~= before);
            let u = c as u32;
            if u < 0x80 {
                odd = !odd;
            } else {
                ascii = false;
                if u >= 0x800 && u < 0x10000 {
                    odd = !odd;
                }
            }
            proof {
                if all_ascii(before) && (c as u32) < 0x80 {
                    assert forall|k: int| 0 <= k < cleaned@.len() implies (#[trigger] cleaned@[k] as u32) < 0x80 by {
                        if k < before.len() {
                            assert(cleaned@[k] == before[k]);
                        }
                    }
                }
                if !all_ascii(before) {
                    let k = choose|k: int| 0 <= k < before.len() && !((#[trigger] before[k] as u32) < 0x80);
                    assert(cleaned@[k] == before[k]);
                }
                if (c as u32) >= 0x80 {
                    assert(cleaned@[cleaned@.len() - 1] == c);
                }
            }
        }
        i += 1;
    }
    assert(cs@.take(cs.len() as int) =~= cs@);
    if odd {
        return Err(HexError::OddLength);
    }
    if !ascii {
        return Err(HexError::InvalidDigit);
    }
    proof {
        lemma_utf8_len_ascii(cleaned@);
    }
    let mut out: Vec<u8> = Vec::new();
    let n = cleaned.len();
    let mut j: usize = 0;
    while j + 1 < n
        invariant
            n == cleaned@.len(),
            n % 2 == 0,
            cleaned@ == strip_ws(s@),
            utf8_len(cleaned@) % 2 == 0,
            all_ascii(cleaned@),
            j % 2 == 0,
            j <= n,
            decode_pairs(cleaned@.take(j as int)) == Some(out@),
        decreases n - j,
    {
        let ghost t = cleaned@.take(j + 2);
        assert(t.take(t.len() - 2) =~= cleaned@.take(j as int));
        assert(t[t.len() - 2] == cleaned@[j as int]);
        assert(t[t.len() - 1] == cleaned@[j + 1]);
        match hex_pair(cleaned[j], cleaned[j + 1]) {
            Some(b) => {
                out.push(b);
            },
            None => {
                proof {
                    assert(decode_pairs(t) is None);
                    assert(2 * ((j / 2 + 1) as int) == j + 2);
                    assert(2 * ((n / 2) as int) == n);
                    lemma_decode_pairs_none_sticks(cleaned@, (j / 2 + 1) as int, (n / 2) as int);
                    assert(cleaned@.take(n as int) =~= cleaned@);
                }
                return Err(HexError::InvalidDigit);
            },
        }
        j += 2;
    }
    assert(cleaned@.take(n as int) =~= cleaned@);
    Ok(out)
}

proof fn lemma_utf8_len_ascii(s: Seq<char>)
    requires
        all_ascii(s),
    ensures
        utf8_len(s) == s.len(),
    decreases s.len(),
{
    if s.len() > 0 {
        assert((s[s.len() - 1] as u32) < 0x80);
        let d = s.drop_last();
        assert forall|k: int| 0 <= k < d.len() implies (#[trigger] d[k] as u32) < 0x80 by {
            assert(d[k] == s[k]);
        }
        lemma_utf8_len_ascii(d);
    }
}

proof fn lemma_hex_lower_value(d: int)
    requires
        0 <= d < 16,
    ensures
        hex_value(hex_lower(d)) == Some(d),
        (hex_lower(d) as u32) < 0x80,
        !spec_is_whitespace(hex_lower(d)),
{
    let s = seq!['0', '1', '2', '3', '4', '5', '6', '7', '8', '9', 'a', 'b', 'c', 'd', 'e', 'f'];
    assert(s[0] == '0' && s[1] == '1' && s[2] == '2' && s[3] == '3' && s[4] == '4');
    assert(s[5] == '5' && s[6] == '6' && s[7] == '7' && s[8] == '8' && s[9] == '9');
    assert(s[10] == 'a' && s[11] == 'b' && s[12] == 'c' && s[13] == 'd' && s[14] == 'e' && s[15] == 'f');
}

proof fn lemma_encode_shape(b: Seq<u8>)
    ensures
        spec_hex_encode(b).len() == 2 * b.len(),
        strip_ws(spec_hex_encode(b)) == spec_hex_encode(b),
        all_ascii(spec_hex_encode(b)),
        decode_pairs(spec_hex_encode(b)) == Some(b),
    decreases b.len(),
{
    if b.len() > 0 {
        let p = b.drop_last();
        let x = b.last();
        lemma_encode_shape(p);
        let hi = hex_lower(x as int / 16);
        let lo = hex_lower(x as int % 16);
        lemma_hex_lower_value(x as int / 16);
        lemma_hex_lower_value(x as int % 16);
        let e = spec_hex_encode(b);
        let ep = spec_hex_encode(p);
        assert(e == ep + seq![hi, lo]);
        assert(e.drop_last() =~= ep.push(hi));
        assert(e.drop_last().drop_last() =~= ep);
        assert(strip_ws(e.drop_last()) == strip_ws(ep).push(hi));
        assert(strip_ws(e) == strip_ws(e.drop_last()).push(lo));
        assert(strip_ws(e) =~= e);
        assert forall|k: int| 0 <= k < e.len() implies (#[trigger] e[k] as u32) < 0x80 by {
            if k < ep.len() {
                assert(e[k] == ep[k]);
            }
        }
        assert(e.take(e.len() - 2) =~= ep);
        assert(e[e.len() - 2] == hi);
        assert(e[e.len() - 1] == lo);
        assert(spec_hex_pair(hi, lo) == Some(x)) by {
            assert((x as int / 16) * 16 + x as int % 16 == x as int);
        }
        assert(p.push(x) =~= b);
    }
}

/// Hex text is two characters per byte.
pub proof fn lemma_encode_len(b: Seq<u8>)
    ensures
        spec_hex_encode(b).len() == 2 * b.len(),
{
    lemma_encode_shape(b);
}

/// Reading back the lowercase hex of some bytes (as `hex::encode` writes it) gives
/// those bytes.
pub proof fn decode_hex_inverts_encode(b: Seq<u8>)
    ensures
        spec_decode_hex(spec_hex_encode(b)) == Ok::<Seq<u8>, HexError>(b),
{
    lemma_encode_shape(b);
    lemma_utf8_len_ascii(spec_hex_encode(b));
    assert(spec_hex_encode(b).len() % 2 == 0);
}

// ---------------------------------------------------------------------------
// Release calendar
// ---------------------------------------------------------------------------

/// The names of some precons.
pub open spec fn precon_names(p: Seq<PreconDeck>) -> Seq<Seq<char>> {
    p.map_values(|d: PreconDeck| d.name@)
}

/// The names of some sealed products.
pub open spec fn product_names(p: Seq<Product>) -> Seq<Seq<char>> {
    p.map_values(|d: Product| d.name@)
}

fn join_precon_names(p: &Vec<PreconDeck>) -> (r: String)
    ensures
        r@ == seq_join(precon_names(p@), ", "@),
{
    let mut names: Vec<String> = Vec::new();
    let mut i: usize = 0;
    while i < p.len()
        invariant
            i <= p@.len(),
            views(names@) == precon_names(p@).take(i as int),
        decreases p.len() - i,
    {
        let n = p[i].name.clone();
        proof {
            lemma_views_push(names@, n);
        }
        names.push(n);
        assert(precon_names(p@).take(i + 1) =~= precon_names(p@).take(i as int).push(p@[i as int].name@));
        i += 1;
    }
    assert(precon_names(p@).take(p@.len() as int) =~= precon_names(p@));
    join(names.as_slice(), ", ")
}

fn join_product_names(p: &Vec<Product>) -> (r: String)
    ensures
        r@ == seq_join(product_names(p@), ", "@),
{
    let mut names: Vec<String> = Vec::new();
    let mut i: usize = 0;
    while i < p.len()
        invariant
            i <= p@.len(),
            views(names@) == product_names(p@).take(i as int),
        decreases p.len() - i,
    {
        let n = p[i].name.clone();
        proof {
            lemma_views_push(names@, n);
        }
        names.push(n);
        assert(product_names(p@).take(i + 1) =~= product_names(p@).take(i as int).push(p@[i as int].name@));
        i += 1;
    }
    assert(product_names(p@).take(p@.len() as int) =~= product_names(p@));
    join(names.as_slice(), ", ")
}

/// One row of the releasing-sets table.
pub open spec fn spec_release_set_row(s: SetRelease) -> Seq<Seq<char>> {
    seq![
        s.released_at@,
        str_upper(s.set.code@),
        spec_truncate(s.set.name@, 40),
        spec_dash(opt_view(s.set.set_type)),
        dec_int(s.set.card_count as int),
        dec_nat(s.precons@.len()),
        dec_nat(s.products@.len()),
    ]
}

pub fn release_set_row(s: &SetRelease) -> (r: Vec<String>)
    ensures
        views(r@) == spec_release_set_row(*s),
{
    let mut row: Vec<String> = Vec::new();
    push_cell(&mut row, s.released_at.clone());
    push_cell(&mut row, to_upper(s.set.code.as_str()));
    push_cell(&mut row, truncate(s.set.name.as_str(), 40));
    push_cell(&mut row, dash(&s.set.set_type));
    push_cell(&mut row, fmt_i64(s.set.card_count));
    push_cell(&mut row, fmt_count(s.precons.len()));
    push_cell(&mut row, fmt_count(s.products.len()));
    assert(views(row@) =~= spec_release_set_row(*s));
    row
}

/// What a releasing set ships, named: nothing when it ships nothing, else its
/// heading and a line each for its precons and its products.
pub open spec fn spec_ships_lines(s: SetRelease) -> Seq<BlockView> {
    if s.precons@.len() == 0 && s.products@.len() == 0 {
        Seq::empty()
    } else {
        seq![BlockView::Line("\n== "@ + s.set.name@ + " ("@ + str_upper(s.set.code@) + ") =="@)] + (if s.precons@.len()
            > 0 {
            seq![BlockView::Line("  Precons : "@ + spec_truncate(seq_join(precon_names(s.precons@), ", "@), 100))]
        } else {
            Seq::empty()
        }) + (if s.products@.len() > 0 {
            seq![BlockView::Line("  Products: "@ + spec_truncate(seq_join(product_names(s.products@), ", "@), 100))]
        } else {
            Seq::empty()
        })
    }
}

/// The ships lines of every set, in order.
pub open spec fn spec_all_ships(sets: Seq<SetRelease>) -> Seq<BlockView>
    decreases sets.len(),
{
    if sets.len() == 0 {
        Seq::empty()
    } else {
        spec_all_ships(sets.drop_last()) + spec_ships_lines(sets.last())
    }
}

fn ships_lines(out: &mut Vec<Block>, s: &SetRelease)
    ensures
        report_view(final(out)@) == report_view(old(out)@) + spec_ships_lines(*s),
{
    if s.precons.len() == 0 && s.products.len() == 0 {
        assert(report_view(old(out)@) + spec_ships_lines(*s) =~= report_view(old(out)@));
        return;
    }
    let mut head = String::from_str("\n== ");
    head.append(s.set.name.as_str());
    head.append(" (");
    head.append(to_upper(s.set.code.as_str()).as_str());
    head.append(") ==");
    push_block(out, Block::Line(head));
    if s.precons.len() > 0 {
        let mut line = String::from_str("  Precons : ");
        let names = join_precon_names(&s.precons);
        line.append(truncate(names.as_str(), 100).as_str());
        push_block(out, Block::Line(line));
    }
    if s.products.len() > 0 {
        let mut line = String::from_str("  Products: ");
        let names = join_product_names(&s.products);
        line.append(truncate(names.as_str(), 100).as_str());
        push_block(out, Block::Line(line));
    }
    assert(report_view(final(out)@) =~= report_view(old(out)@) + spec_ships_lines(*s));
}

/// One row of the Secret Lair drops table.
pub open spec fn spec_drop_release_row(d: SecretLairDropRelease) -> Seq<Seq<char>> {
    seq![d.released_at@, spec_truncate(d.title@, 44), d.slug@, dec_nat(d.products@.len())]
}

pub fn drop_release_row(d: &SecretLairDropRelease) -> (r: Vec<String>)
    ensures
        views(r@) == spec_drop_release_row(*d),
{
    let mut row: Vec<String> = Vec::new();
    push_cell(&mut row, d.released_at.clone());
    push_cell(&mut row, truncate(d.title.as_str(), 44));
    push_cell(&mut row, d.slug.clone());
    push_cell(&mut row, fmt_count(d.products.len()));
    assert(views(row@) =~= spec_drop_release_row(*d));
    row
}

pub open spec fn release_set_header() -> Seq<Seq<char>> {
    seq!["Date"@, "Code"@, "Name"@, "Type"@, "Cards"@, "Precons"@, "Products"@]
}

pub open spec fn drop_release_header() -> Seq<Seq<char>> {
    seq!["Date"@, "Title"@, "Slug"@, "Products"@]
}

/// The release calendar: the window, then the releasing sets with what each ships,
/// then the Secret Lair drops, then the counts \u{2014} or a line saying nothing
/// releases.
pub open spec fn spec_releases_report(r: Releases) -> Seq<BlockView> {
    seq![BlockView::Line("Releases "@ + r.from@ + " \u{2192} "@ + r.to@)] + if r.sets@.len() == 0
        && r.secret_lair_drops@.len() == 0 {
        seq![BlockView::Line("Nothing releases in this window."@)]
    } else {
        (if r.sets@.len() > 0 {
            seq![BlockView::Table(release_set_header(), r.sets@.map_values(|s: SetRelease| spec_release_set_row(s)))]
                + spec_all_ships(r.sets@)
        } else {
            Seq::empty()
        }) + (if r.secret_lair_drops@.len() > 0 {
            seq![
                BlockView::Line("\n== Secret Lair drops =="@),
                BlockView::Table(
                    drop_release_header(),
                    r.secret_lair_drops@.map_values(|d: SecretLairDropRelease| spec_drop_release_row(d)),
                ),
            ]
        } else {
            Seq::empty()
        }) + seq![
            BlockView::Note("\n"@ + dec_nat(r.sets@.len()) + " set(s) \u{b7} "@ + dec_nat(r.secret_lair_drops@.len())
                + " Secret Lair drop(s)."@),
        ]
    }
}

fn release_sets_table(sets: &Vec<SetRelease>) -> (b: Block)
    ensures
        block_view(b) == BlockView::Table(release_set_header(), sets@.map_values(|s: SetRelease| spec_release_set_row(s))),
{
    let header = vec!["Date", "Code", "Name", "Type", "Cards", "Precons", "Products"];
    assert(header_view(header@) =~= release_set_header());
    let mut rows: Vec<Vec<String>> = Vec::new();
    let mut i: usize = 0;
    while i < sets.len()
        invariant
            i <= sets@.len(),
            rows_view(rows@) == sets@.take(i as int).map_values(|s: SetRelease| spec_release_set_row(s)),
        decreases sets.len() - i,
    {
        push_row(&mut rows, release_set_row(&sets[i]));
        assert(sets@.take(i + 1).map_values(|s: SetRelease| spec_release_set_row(s)) =~= sets@.take(i as int).map_values(
            |s: SetRelease| spec_release_set_row(s),
        ).push(spec_release_set_row(sets@[i as int])));
        i += 1;
    }
    assert(sets@.take(sets@.len() as int) =~= sets@);
    Block::Table { header, rows }
}

fn drop_releases_table(drops: &Vec<SecretLairDropRelease>) -> (b: Block)
    ensures
        block_view(b) == BlockView::Table(
            drop_release_header(),
            drops@.map_values(|d: SecretLairDropRelease| spec_drop_release_row(d)),
        ),
{
    let header = vec!["Date", "Title", "Slug", "Products"];
    assert(header_view(header@) =~= drop_release_header());
    let mut rows: Vec<Vec<String>> = Vec::new();
    let mut i: usize = 0;
    while i < drops.len()
        invariant
            i <= drops@.len(),
            rows_view(rows@) == drops@.take(i as int).map_values(|d: SecretLairDropRelease| spec_drop_release_row(d)),
        decreases drops.len() - i,
    {
        push_row(&mut rows, drop_release_row(&drops[i]));
        assert(drops@.take(i + 1).map_values(|d: SecretLairDropRelease| spec_drop_release_row(d)) =~= drops@.take(
            i as int,
        ).map_values(|d: SecretLairDropRelease| spec_drop_release_row(d)).push(spec_drop_release_row(drops@[i as int])));
        i += 1;
    }
    assert(drops@.take(drops@.len() as int) =~= drops@);
    Block::Table { header, rows }
}

pub fn releases_report(r: &Releases) -> (out: Vec<Block>)
    ensures
        report_view(out@) == spec_releases_report(*r),
{
    let mut out: Vec<Block> = Vec::new();
    let mut head = String::from_str("Releases ");
    head.append(r.from.as_str());
    head.append(" \u{2192} ");
    head.append(r.to.as_str());
    push_block(&mut out, Block::Line(head));
    if r.sets.len() == 0 && r.secret_lair_drops.len() == 0 {
        push_block(&mut out, Block::Line(String::from_str("Nothing releases in this window.")));
        assert(report_view(out@) =~= spec_releases_report(*r));
        return out;
    }
    let ghost start = report_view(out@);
    if r.sets.len() > 0 {
        push_block(&mut out, release_sets_table(&r.sets));
        let ghost base = report_view(out@);
        let mut i: usize = 0;
        while i < r.sets.len()
            invariant
                i <= r.sets@.len(),
                report_view(out@) == base + spec_all_ships(r.sets@.take(i as int)),
            decreases r.sets.len() - i,
        {
            ships_lines(&mut out, &r.sets[i]);
            assert(r.sets@.take(i + 1).drop_last() =~= r.sets@.take(i as int));
            i += 1;
        }
        assert(r.sets@.take(r.sets@.len() as int) =~= r.sets@);
    }
    let ghost mid = report_view(out@);
    if r.secret_lair_drops.len() > 0 {
        push_block(&mut out, Block::Line(String::from_str("\n== Secret Lair drops ==")));
        push_block(&mut out, drop_releases_table(&r.secret_lair_drops));
    }
    let mut note = String::from_str("\n");
    push_u64(&mut note, r.sets.len() as u64);
    note.append(" set(s) \u{b7} ");
    push_u64(&mut note, r.secret_lair_drops.len() as u64);
    note.append(" Secret Lair drop(s).");
    push_block(&mut out, Block::Note(note));
    assert(report_view(out@) =~= spec_releases_report(*r));
    out
}

// ---------------------------------------------------------------------------
// Sealed products
// ---------------------------------------------------------------------------

/// The detail block of one sealed product.
pub open spec fn spec_product_detail(p: Product) -> Seq<Seq<char>> {
    seq![
        p.name@ + "  ["@ + p.id@ + "]"@,
        "  "@ + str_upper(p.set_code@) + " \u{b7} "@ + spec_dash(opt_view(p.set_name)) + " \u{b7} "@ + p.product_type@,
        "  USD "@ + spec_price(opt_view(p.prices.usd)) + " \u{b7} Foil "@ + spec_price(opt_view(p.prices.usd_foil))
            + " \u{b7} MSRP "@ + spec_price(opt_view(p.msrp)),
    ] + match p.released_at {
        Some(r) => seq!["  Released: "@ + r@],
        None => Seq::empty(),
    } + match p.url {
        Some(u) => seq!["  "@ + u@],
        None => Seq::empty(),
    }
}

pub fn product_detail(p: &Product) -> (r: Vec<String>)
    ensures
        views(r@) == spec_product_detail(*p),
{
    let mut out: Vec<String> = Vec::new();
    let mut head = p.name.clone();
    head.append("  [");
    head.append(p.id.as_str());
    head.append("]");
    push_cell(&mut out, head);
    let mut line = String::from_str("  ");
    line.append(to_upper(p.set_code.as_str()).as_str());
    line.append(" \u{b7} ");
    line.append(dash(&p.set_name).as_str());
    line.append(" \u{b7} ");
    line.append(p.product_type.as_str());
    push_cell(&mut out, line);
    let mut prices = String::from_str("  USD ");
    prices.append(price(&p.prices.usd).as_str());
    prices.append(" \u{b7} Foil ");
    prices.append(price(&p.prices.usd_foil).as_str());
    prices.append(" \u{b7} MSRP ");
    prices.append(price(&p.msrp).as_str());
    push_cell(&mut out, prices);
    if let Some(r) = &p.released_at {
        let mut l = String::from_str("  Released: ");
        l.append(r.as_str());
        push_cell(&mut out, l);
    }
    if let Some(u) = &p.url {
        let mut l = String::from_str("  ");
        l.append(u.as_str());
        push_cell(&mut out, l);
    }
    assert(views(out@) =~= spec_product_detail(*p));
    out
}

pub open spec fn spec_product_price_row(p: ProductPricePoint) -> Seq<Seq<char>> {
    seq![p.date@, spec_price(opt_view(p.usd)), spec_price(opt_view(p.usd_foil))]
}

/// A product's price history.
pub fn product_prices_table(points: &Vec<ProductPricePoint>) -> (b: Block)
    ensures
        block_view(b) == BlockView::Table(
            seq!["Date"@, "USD"@, "Foil"@],
            points@.map_values(|p: ProductPricePoint| spec_product_price_row(p)),
        ),
{
    let header = vec!["Date", "USD", "Foil"];
    assert(header_view(header@) =~= seq!["Date"@, "USD"@, "Foil"@]);
    let mut rows: Vec<Vec<String>> = Vec::new();
    let mut i: usize = 0;
    while i < points.len()
        invariant
            i <= points@.len(),
            rows_view(rows@) == points@.take(i as int).map_values(|p: ProductPricePoint| spec_product_price_row(p)),
        decreases points.len() - i,
    {
        let p = &points[i];
        let mut row: Vec<String> = Vec::new();
        push_cell(&mut row, p.date.clone());
        push_cell(&mut row, price(&p.usd));
        push_cell(&mut row, price(&p.usd_foil));
        assert(views(row@) =~= spec_product_price_row(points@[i as int]));
        push_row(&mut rows, row);
        assert(points@.take(i + 1).map_values(|p: ProductPricePoint| spec_product_price_row(p)) =~= points@.take(
            i as int,
        ).map_values(|p: ProductPricePoint| spec_product_price_row(p)).push(spec_product_price_row(points@[i as int])));
        i += 1;
    }
    assert(points@.take(points@.len() as int) =~= points@);
    Block::Table { header, rows }
}

/// What a component links to: a product first, else a card, else nothing.
pub open spec fn spec_component_link(c: ProductComponent) -> Seq<char> {
    match c.product {
        Some(p) => "product "@ + p.id@,
        None => match c.card {
            Some(cd) => "card "@ + cd.id@,
            None => Seq::empty(),
        },
    }
}

pub open spec fn spec_component_row(c: ProductComponent) -> Seq<Seq<char>> {
    seq![c.kind@, dec_int(c.quantity as int), spec_truncate(c.name@, 40), spec_component_link(c)]
}

pub fn component_row(c: &ProductComponent) -> (r: Vec<String>)
    ensures
        views(r@) == spec_component_row(*c),
{
    let mut row: Vec<String> = Vec::new();
    push_cell(&mut row, c.kind.clone());
    push_cell(&mut row, fmt_i64(c.quantity));
    push_cell(&mut row, truncate(c.name.as_str(), 40));
    let link = match &c.product {
        Some(p) => {
            let mut l = String::from_str("product ");
            l.append(p.id.as_str());
            l
        },
        None => match &c.card {
            Some(cd) => {
                let mut l = String::from_str("card ");
                l.append(cd.id.as_str());
                l
            },
            None => String::new(),
        },
    };
    push_cell(&mut row, link);
    assert(views(row@) =~= spec_component_row(*c));
    row
}

/// A product's listed contents.
pub fn product_contents_table(comps: &Vec<ProductComponent>) -> (b: Block)
    ensures
        block_view(b) == BlockView::Table(
            seq!["Kind"@, "Qty"@, "Name"@, "Links to"@],
            comps@.map_values(|c: ProductComponent| spec_component_row(c)),
        ),
{
    let header = vec!["Kind", "Qty", "Name", "Links to"];
    assert(header_view(header@) =~= seq!["Kind"@, "Qty"@, "Name"@, "Links to"@]);
    let mut rows: Vec<Vec<String>> = Vec::new();
    let mut i: usize = 0;
    while i < comps.len()
        invariant
            i <= comps@.len(),
            rows_view(rows@) == comps@.take(i as int).map_values(|c: ProductComponent| spec_component_row(c)),
        decreases comps.len() - i,
    {
        push_row(&mut rows, component_row(&comps[i]));
        assert(comps@.take(i + 1).map_values(|c: ProductComponent| spec_component_row(c)) =~= comps@.take(
            i as int,
        ).map_values(|c: ProductComponent| spec_component_row(c)).push(spec_component_row(comps@[i as int])));
        i += 1;
    }
    assert(comps@.take(comps@.len() as int) =~= comps@);
    Block::Table { header, rows }
}

pub open spec fn spec_container_row(c: ProductContainer) -> Seq<Seq<char>> {
    seq![
        dec_int(c.quantity as int),
        spec_truncate(c.product.name@, 40),
        c.product.id@,
        spec_price(opt_view(c.product.prices.usd)),
    ]
}

/// The products a product comes packed in.
pub fn product_containers_table(cs: &Vec<ProductContainer>) -> (b: Block)
    ensures
        block_view(b) == BlockView::Table(
            seq!["Qty"@, "Parent product"@, "ID"@, "USD"@],
            cs@.map_values(|c: ProductContainer| spec_container_row(c)),
        ),
{
    let header = vec!["Qty", "Parent product", "ID", "USD"];
    assert(header_view(header@) =~= seq!["Qty"@, "Parent product"@, "ID"@, "USD"@]);
    let mut rows: Vec<Vec<String>> = Vec::new();
    let mut i: usize = 0;
    while i < cs.len()
        invariant
            i <= cs@.len(),
            rows_view(rows@) == cs@.take(i as int).map_values(|c: ProductContainer| spec_container_row(c)),
        decreases cs.len() - i,
    {
        let c = &cs[i];
        let mut row: Vec<String> = Vec::new();
        push_cell(&mut row, fmt_i64(c.quantity));
        push_cell(&mut row, truncate(c.product.name.as_str(), 40));
        push_cell(&mut row, c.product.id.clone());
        push_cell(&mut row, price(&c.product.prices.usd));
        assert(views(row@) =~= spec_container_row(cs@[i as int]));
        push_row(&mut rows, row);
        assert(cs@.take(i + 1).map_values(|c: ProductContainer| spec_container_row(c)) =~= cs@.take(i as int).map_values(
            |c: ProductContainer| spec_container_row(c),
        ).push(spec_container_row(cs@[i as int])));
        i += 1;
    }
    assert(cs@.take(cs@.len() as int) =~= cs@);
    Block::Table { header, rows }
}

pub open spec fn spec_product_card_row(e: ProductCardEntry) -> Seq<Seq<char>> {
    seq![
        e.membership@,
        yes_blank(e.exclusive),
        yes_blank(e.foil),
        spec_truncate(e.card.name@, 32),
        str_upper(e.card.set_code@),
        e.card.collector_number@,
    ]
}

/// The cards a product can yield.
pub fn product_cards_table(entries: &Vec<ProductCardEntry>) -> (b: Block)
    ensures
        block_view(b) == BlockView::Table(
            seq!["Membership"@, "Excl"@, "Foil"@, "Name"@, "Set"@, "#"@],
            entries@.map_values(|e: ProductCardEntry| spec_product_card_row(e)),
        ),
{
    let header = vec!["Membership", "Excl", "Foil", "Name", "Set", "#"];
    assert(header_view(header@) =~= seq!["Membership"@, "Excl"@, "Foil"@, "Name"@, "Set"@, "#"@]);
    let mut rows: Vec<Vec<String>> = Vec::new();
    let mut i: usize = 0;
    while i < entries.len()
        invariant
            i <= entries@.len(),
            rows_view(rows@) == entries@.take(i as int).map_values(|e: ProductCardEntry| spec_product_card_row(e)),
        decreases entries.len() - i,
    {
        let e = &entries[i];
        let mut row: Vec<String> = Vec::new();
        push_cell(&mut row, e.membership.clone());
        push_cell(&mut row, yes_or_blank(e.exclusive));
        push_cell(&mut row, yes_or_blank(e.foil));
        push_cell(&mut row, truncate(e.card.name.as_str(), 32));
        push_cell(&mut row, to_upper(e.card.set_code.as_str()));
        push_cell(&mut row, e.card.collector_number.clone());
        assert(views(row@) =~= spec_product_card_row(entries@[i as int]));
        push_row(&mut rows, row);
        assert(entries@.take(i + 1).map_values(|e: ProductCardEntry| spec_product_card_row(e)) =~= entries@.take(
            i as int,
        ).map_values(|e: ProductCardEntry| spec_product_card_row(e)).push(spec_product_card_row(entries@[i as int])));
        i += 1;
    }
    assert(entries@.take(entries@.len() as int) =~= entries@);
    Block::Table { header, rows }
}

pub open spec fn spec_section_row(s: ProductCardSection) -> Seq<Seq<char>> {
    seq![
        s.key@,
        dec_int(s.total as int),
        spec_dash(opt_view(s.booster_family)),
        spec_dash(opt_view(s.component)),
        yes_blank(s.inherited),
    ]
}

/// A product's card sections.
pub fn product_sections_table(secs: &Vec<ProductCardSection>) -> (b: Block)
    ensures
        block_view(b) == BlockView::Table(
            seq!["Section"@, "Cards"@, "Booster family"@, "Component"@, "Inherited"@],
            secs@.map_values(|s: ProductCardSection| spec_section_row(s)),
        ),
{
    let header = vec!["Section", "Cards", "Booster family", "Component", "Inherited"];
    assert(header_view(header@) =~= seq!["Section"@, "Cards"@, "Booster family"@, "Component"@, "Inherited"@]);
    let mut rows: Vec<Vec<String>> = Vec::new();
    let mut i: usize = 0;
    while i < secs.len()
        invariant
            i <= secs@.len(),
            rows_view(rows@) == secs@.take(i as int).map_values(|s: ProductCardSection| spec_section_row(s)),
        decreases secs.len() - i,
    {
        let s = &secs[i];
        let mut row: Vec<String> = Vec::new();
        push_cell(&mut row, s.key.clone());
        push_cell(&mut row, fmt_i64(s.total));
        push_cell(&mut row, dash(&s.booster_family));
        push_cell(&mut row, dash(&s.component));
        push_cell(&mut row, yes_or_blank(s.inherited));
        assert(views(row@) =~= spec_section_row(secs@[i as int]));
        push_row(&mut rows, row);
        assert(secs@.take(i + 1).map_values(|s: ProductCardSection| spec_section_row(s)) =~= secs@.take(i as int).map_values(
            |s: ProductCardSection| spec_section_row(s),
        ).push(spec_section_row(secs@[i as int])));
        i += 1;
    }
    assert(secs@.take(secs@.len() as int) =~= secs@);
    Block::Table { header, rows }
}

// ---------------------------------------------------------------------------
// A simulated opening
// ---------------------------------------------------------------------------

pub open spec fn spec_opened_row(c: OpenedCard) -> Seq<Seq<char>> {
    seq![
        spec_truncate(c.card.name@, 32),
        str_upper(c.card.set_code@),
        c.card.collector_number@,
        spec_dash(opt_view(c.card.rarity)),
        yes_blank(c.foil),
        spec_truncate(c.sheet@, 24),
        spec_price(opt_view(c.price_usd)),
    ]
}

pub open spec fn opened_header() -> Seq<Seq<char>> {
    seq!["Name"@, "Set"@, "#"@, "Rarity"@, "Foil"@, "Sheet"@, "USD"@]
}

/// The heading and table of the `n`-th pack (counting from 1).
pub open spec fn spec_pack_blocks(p: OpenedPack, n: nat) -> Seq<BlockView> {
    seq![
        BlockView::Line("\n== Pack "@ + dec_nat(n) + " \u{b7} "@ + match p.name {
            Some(x) => x@,
            None => p.booster_code@,
        } + " ("@ + str_upper(p.set_code@) + ") \u{b7} variant "@ + dec_int(p.variant as int) + " \u{b7} $"@ + p.value_usd@
            + " =="@),
        BlockView::Table(opened_header(), p.cards@.map_values(|c: OpenedCard| spec_opened_row(c))),
    ]
}

pub open spec fn spec_all_packs(packs: Seq<OpenedPack>) -> Seq<BlockView>
    decreases packs.len(),
{
    if packs.len() == 0 {
        Seq::empty()
    } else {
        spec_all_packs(packs.drop_last()) + spec_pack_blocks(packs.last(), packs.len())
    }
}

/// Each caveat on a line of its own, bulleted.
pub open spec fn caveat_lines(caveats: Seq<String>) -> Seq<BlockView> {
    caveats.map_values(|c: String| BlockView::Line("\u{b7} "@ + c@))
}

/// One opening, pack by pack; the seed rides in the footer because the run is a
/// pure function of it.
pub open spec fn spec_opening_report(o: ProductOpening) -> Seq<BlockView> {
    seq![
        BlockView::Line("seed "@ + dec_int(o.seed as int) + " \u{b7} "@ + dec_int(o.copies as int) + " cop(y/ies) \u{b7} "@
            + dec_nat(o.packs@.len()) + " pack(s) \u{b7} $"@ + o.value_usd@ + " pulled ("@ + dec_int(o.priced_count as int)
            + " priced, "@ + dec_int(o.unpriced_count as int) + " unpriced)"@),
    ] + spec_all_packs(o.packs@) + (if o.caveats@.len() > 0 {
        seq![BlockView::Line(Seq::empty())] + caveat_lines(o.caveats@)
    } else {
        Seq::empty()
    }) + seq![BlockView::Note("Replay this opening with --seed "@ + dec_int(o.seed as int) + "."@)]
}

fn opened_table(cards: &Vec<OpenedCard>) -> (b: Block)
    ensures
        block_view(b) == BlockView::Table(opened_header(), cards@.map_values(|c: OpenedCard| spec_opened_row(c))),
{
    let header = vec!["Name", "Set", "#", "Rarity", "Foil", "Sheet", "USD"];
    assert(header_view(header@) =~= opened_header());
    let mut rows: Vec<Vec<String>> = Vec::new();
    let mut i: usize = 0;
    while i < cards.len()
        invariant
            i <= cards@.len(),
            rows_view(rows@) == cards@.take(i as int).map_values(|c: OpenedCard| spec_opened_row(c)),
        decreases cards.len() - i,
    {
        let c = &cards[i];
        let mut row: Vec<String> = Vec::new();
        push_cell(&mut row, truncate(c.card.name.as_str(), 32));
        push_cell(&mut row, to_upper(c.card.set_code.as_str()));
        push_cell(&mut row, c.card.collector_number.clone());
        push_cell(&mut row, dash(&c.card.rarity));
        push_cell(&mut row, yes_or_blank(c.foil));
        push_cell(&mut row, truncate(c.sheet.as_str(), 24));
        push_cell(&mut row, price(&c.price_usd));
        assert(views(row@) =~= spec_opened_row(cards@[i as int]));
        push_row(&mut rows, row);
        assert(cards@.take(i + 1).map_values(|c: OpenedCard| spec_opened_row(c)) =~= cards@.take(i as int).map_values(
            |c: OpenedCard| spec_opened_row(c),
        ).push(spec_opened_row(cards@[i as int])));
        i += 1;
    }
    assert(cards@.take(cards@.len() as int) =~= cards@);
    Block::Table { header, rows }
}

fn pack_blocks(out: &mut Vec<Block>, p: &OpenedPack, n: usize)
    ensures
        report_view(final(out)@) == report_view(old(out)@) + spec_pack_blocks(*p, n as nat),
{
    let mut head = String::from_str("\n== Pack ");
    push_u64(&mut head, n as u64);
    head.append(" \u{b7} ");
    match &p.name {
        Some(x) => head.append(x.as_str()),
        None => head.append(p.booster_code.as_str()),
    }
    head.append(" (");
    head.append(to_upper(p.set_code.as_str()).as_str());
    head.append(") \u{b7} variant ");
    push_i64(&mut head, p.variant);
    head.append(" \u{b7} $");
    head.append(p.value_usd.as_str());
    head.append(" ==");
    push_block(out, Block::Line(head));
    push_block(out, opened_table(&p.cards));
    assert(report_view(final(out)@) =~= report_view(old(out)@) + spec_pack_blocks(*p, n as nat));
}

fn push_caveats(out: &mut Vec<Block>, caveats: &Vec<String>)
    ensures
        report_view(final(out)@) == report_view(old(out)@) + caveat_lines(caveats@),
{
    let ghost start = report_view(out@);
    let mut i: usize = 0;
    while i < caveats.len()
        invariant
            i <= caveats@.len(),
            report_view(out@) == start + caveat_lines(caveats@.take(i as int)),
        decreases caveats.len() - i,
    {
        let mut line = String::from_str("\u{b7} ");
        line.append(caveats[i].as_str());
        push_block(out, Block::Line(line));
        assert(caveat_lines(caveats@.take(i + 1)) =~= caveat_lines(caveats@.take(i as int)).push(
            BlockView::Line("\u{b7} "@ + caveats@[i as int]@),
        ));
        i += 1;
    }
    assert(caveats@.take(caveats@.len() as int) =~= caveats@);
}

pub fn opening_report(o: &ProductOpening) -> (out: Vec<Block>)
    ensures
        report_view(out@) == spec_opening_report(*o),
{
    let mut out: Vec<Block> = Vec::new();
    let mut head = String::from_str("seed ");
    push_i64(&mut head, o.seed);
    head.append(" \u{b7} ");
    push_i64(&mut head, o.copies);
    head.append(" cop(y/ies) \u{b7} ");
    push_u64(&mut head, o.packs.len() as u64);
    head.append(" pack(s) \u{b7} $");
    head.append(o.value_usd.as_str());
    head.append(" pulled (");
    push_i64(&mut head, o.priced_count);
    head.append(" priced, ");
    push_i64(&mut head, o.unpriced_count);
    head.append(" unpriced)");
    push_block(&mut out, Block::Line(head));
    let ghost base = report_view(out@);
    let mut i: usize = 0;
    while i < o.packs.len()
        invariant
            i <= o.packs@.len(),
            report_view(out@) == base + spec_all_packs(o.packs@.take(i as int)),
        decreases o.packs.len() - i,
    {
        pack_blocks(&mut out, &o.packs[i], i + 1);
        assert(o.packs@.take(i + 1).drop_last() =~= o.packs@.take(i as int));
        i += 1;
    }
    assert(o.packs@.take(o.packs@.len() as int) =~= o.packs@);
    if o.caveats.len() > 0 {
        push_block(&mut out, Block::Line(String::new()));
        push_caveats(&mut out, &o.caveats);
    }
    let mut note = String::from_str("Replay this opening with --seed ");
    push_i64(&mut note, o.seed);
    note.append(".");
    push_block(&mut out, Block::Note(note));
    assert(report_view(out@) =~= spec_opening_report(*o));
    out
}

// ---------------------------------------------------------------------------
// Sets, ingest status, rulings, scans
// ---------------------------------------------------------------------------

/// The heading over one drop's cards.
pub open spec fn spec_drop_heading(g: DropGroup) -> Seq<char> {
    "\n== "@ + g.title@ + " ("@ + dec_int(g.card_count as int) + " cards, "@ + spec_price(opt_view(g.cheapest_prints_usd))
        + match g.released_at {
        Some(d) => ", "@ + d@,
        None => Seq::empty(),
    } + ") =="@
}

pub fn drop_heading(g: &DropGroup) -> (r: String)
    ensures
        r@ == spec_drop_heading(*g),
{
    let mut out = String::from_str("\n== ");
    out.append(g.title.as_str());
    out.append(" (");
    push_i64(&mut out, g.card_count);
    out.append(" cards, ");
    out.append(price(&g.cheapest_prints_usd).as_str());
    if let Some(d) = &g.released_at {
        out.append(", ");
        out.append(d.as_str());
    }
    out.append(") ==");
    out
}

/// The heading over one sub-type's cards.
pub open spec fn spec_subtype_heading(g: SubtypeGroup) -> Seq<char> {
    "\n== "@ + g.title@ + " ("@ + dec_int(g.card_count as int) + " cards) =="@
}

pub fn subtype_heading(g: &SubtypeGroup) -> (r: String)
    ensures
        r@ == spec_subtype_heading(*g),
{
    let mut out = String::from_str("\n== ");
    out.append(g.title.as_str());
    out.append(" (");
    push_i64(&mut out, g.card_count);
    out.append(" cards) ==");
    out
}

/// The line under a set's row: whether it has drops and sub-types, and its parent.
pub open spec fn spec_set_flags(s: CardSet) -> Seq<char> {
    "drops: "@ + (if s.has_drops {
        "true"@
    } else {
        "false"@
    }) + "   sub-types: "@ + (if s.has_subtypes {
        "true"@
    } else {
        "false"@
    }) + "   parent: "@ + spec_dash(opt_view(s.parent_set_code))
}

pub fn set_flags(s: &CardSet) -> (r: String)
    ensures
        r@ == spec_set_flags(*s),
{
    let mut out = String::from_str("drops: ");
    out.append(if s.has_drops { "true" } else { "false" });
    out.append("   sub-types: ");
    out.append(if s.has_subtypes { "true" } else { "false" });
    out.append("   parent: ");
    out.append(dash(&s.parent_set_code).as_str());
    out
}

/// Which view of a set the `set` command shows; the flags take precedence in
/// this order.
#[derive(Debug, Clone, Copy, PartialEq, Eq)]
pub enum SetListing {
    /// The set's cards grouped by drop.
    Drops,
    /// The set's cards grouped by sub-type.
    Subtypes,
    /// A page of the set's cards.
    Cards,
    /// The set itself.
    Info,
}

/// `--drops` wins over `--subtypes`, which wins over `--cards`; with none of them
/// the set itself is shown.
pub fn set_listing(drops: bool, subtypes: bool, cards: bool) -> (r: SetListing)
    ensures
        r == (if drops {
            SetListing::Drops
        } else if subtypes {
            SetListing::Subtypes
        } else if cards {
            SetListing::Cards
        } else {
            SetListing::Info
        }),
{
    if drops {
        SetListing::Drops
    } else if subtypes {
        SetListing::Subtypes
    } else if cards {
        SetListing::Cards
    } else {
        SetListing::Info
    }
}

/// The leaf each view reads under the set's route.
pub open spec fn listing_leaf(l: SetListing) -> Seq<char> {
    match l {
        SetListing::Drops => "/drops"@,
        SetListing::Subtypes => "/subtypes"@,
        SetListing::Cards => "/cards"@,
        SetListing::Info => Seq::empty(),
    }
}

/// The pairs each view sends: the search and the page, then the drop (drops) or
/// the related/sort/direction choices (cards); the set itself takes none.
pub open spec fn listing_pairs(
    l: SetListing,
    query: Option<String>,
    page: Option<u32>,
    page_size: Option<u32>,
    drop: Option<String>,
    related: bool,
    sort: Option<String>,
    dir: Option<String>,
) -> Seq<(Seq<char>, Seq<char>)> {
    let common = opt_pair("q", query) + opt_pair("page", page) + opt_pair("page_size", page_size);
    match l {
        SetListing::Drops => common + opt_pair("drop", drop),
        SetListing::Subtypes => common,
        SetListing::Cards => common + flag_pair("include_related", related) + opt_pair("sort", sort) + opt_pair(
            "dir",
            dir,
        ),
        SetListing::Info => Seq::empty(),
    }
}

/// Where a view of a set is read, and with what query.
pub fn set_request(
    game: &str,
    code: &str,
    listing: SetListing,
    query: &Option<String>,
    page: Option<u32>,
    page_size: Option<u32>,
    drop: &Option<String>,
    related: bool,
    sort: &Option<String>,
    dir: &Option<String>,
) -> (r: (String, Query))
    ensures
        r.0@ == "/api/games/"@ + game@ + "/sets/"@ + code@ + listing_leaf(listing),
        query_view(r.1@) == listing_pairs(listing, *query, page, page_size, *drop, related, *sort, *dir),
{
    let mut path = String::from_str("/api/games/");
    path.append(game);
    path.append("/sets/");
    path.append(code);
    let mut q: Query = Vec::new();
    match listing {
        SetListing::Info => {
            assert(query_view(q@) =~= Seq::empty());
            return (path, q);
        },
        _ => {},
    }
    push_opt(&mut q, "q", query);
    push_opt(&mut q, "page", &page);
    push_opt(&mut q, "page_size", &page_size);
    match listing {
        SetListing::Drops => {
            path.append("/drops");
            push_opt(&mut q, "drop", drop);
        },
        SetListing::Subtypes => {
            path.append("/subtypes");
        },
        _ => {
            path.append("/cards");
            push_flag(&mut q, "include_related", related);
            push_opt(&mut q, "sort", sort);
            push_opt(&mut q, "dir", dir);
        },
    }
    (path, q)
}

/// The cards table's column headers.
pub open spec fn cards_header() -> Seq<Seq<char>> {
    seq!["ID"@, "Name"@, "Set"@, "#"@, "Rarity"@, "USD"@, "Foil"@]
}

/// Each drop of a page: its heading, then its cards.
pub open spec fn spec_drop_groups(groups: Seq<DropGroup>) -> Seq<BlockView>
    decreases groups.len(),
{
    if groups.len() == 0 {
        Seq::empty()
    } else {
        spec_drop_groups(groups.drop_last()) + seq![
            BlockView::Line(spec_drop_heading(groups.last())),
            BlockView::Table(cards_header(), groups.last().cards@.map_values(|c: Card| spec_cards_row(c))),
        ]
    }
}

/// A page of a set's drops: each drop's heading and cards, then where the page sits.
pub open spec fn spec_set_drops_report(page: Page<DropGroup>) -> Seq<BlockView> {
    spec_drop_groups(page.data@) + seq![
        BlockView::Note(spec_page_note(page.page, page.total, "drops"@, page.has_more)),
    ]
}

pub fn set_drops_report(page: &Page<DropGroup>) -> (out: Vec<Block>)
    ensures
        report_view(out@) == spec_set_drops_report(*page),
{
    let mut out: Vec<Block> = Vec::new();
    let mut i: usize = 0;
    while i < page.data.len()
        invariant
            i <= page.data@.len(),
            report_view(out@) == spec_drop_groups(page.data@.take(i as int)),
        decreases page.data.len() - i,
    {
        let g = &page.data[i];
        push_block(&mut out, Block::Line(drop_heading(g)));
        push_block(&mut out, cards_table(&g.cards));
        assert(page.data@.take(i + 1).drop_last() =~= page.data@.take(i as int));
        i += 1;
    }
    assert(page.data@.take(page.data@.len() as int) =~= page.data@);
    push_block(&mut out, Block::Note(page_note(page.page, page.total, "drops", page.has_more)));
    out
}

/// Each sub-type of a page: its heading, then its cards.
pub open spec fn spec_subtype_groups(groups: Seq<SubtypeGroup>) -> Seq<BlockView>
    decreases groups.len(),
{
    if groups.len() == 0 {
        Seq::empty()
    } else {
        spec_subtype_groups(groups.drop_last()) + seq![
            BlockView::Line(spec_subtype_heading(groups.last())),
            BlockView::Table(cards_header(), groups.last().cards@.map_values(|c: Card| spec_cards_row(c))),
        ]
    }
}

/// A page of a set's sub-types: each sub-type's heading and cards, then where the
/// page sits.
pub open spec fn spec_set_subtypes_report(page: Page<SubtypeGroup>) -> Seq<BlockView> {
    spec_subtype_groups(page.data@) + seq![
        BlockView::Note(spec_page_note(page.page, page.total, "sub-types"@, page.has_more)),
    ]
}

pub fn set_subtypes_report(page: &Page<SubtypeGroup>) -> (out: Vec<Block>)
    ensures
        report_view(out@) == spec_set_subtypes_report(*page),
{
    let mut out: Vec<Block> = Vec::new();
    let mut i: usize = 0;
    while i < page.data.len()
        invariant
            i <= page.data@.len(),
            report_view(out@) == spec_subtype_groups(page.data@.take(i as int)),
        decreases page.data.len() - i,
    {
        let g = &page.data[i];
        push_block(&mut out, Block::Line(subtype_heading(g)));
        push_block(&mut out, cards_table(&g.cards));
        assert(page.data@.take(i + 1).drop_last() =~= page.data@.take(i as int));
        i += 1;
    }
    assert(page.data@.take(page.data@.len() as int) =~= page.data@);
    push_block(&mut out, Block::Note(page_note(page.page, page.total, "sub-types", page.has_more)));
    out
}

/// A set on its own: its row of the sets table, then its flags.
pub open spec fn spec_set_report(s: CardSet) -> Seq<BlockView> {
    seq![
        BlockView::Table(
            seq!["Code"@, "Name"@, "Type"@, "Released"@, "Cards"@],
            seq![spec_sets_row(s)],
        ),
        BlockView::Line(spec_set_flags(s)),
    ]
}

pub fn set_report(s: &CardSet) -> (out: Vec<Block>)
    ensures
        report_view(out@) == spec_set_report(*s),
{
    let mut out: Vec<Block> = Vec::new();
    let header = vec!["Code", "Name", "Type", "Released", "Cards"];
    assert(header_view(header@) =~= seq!["Code"@, "Name"@, "Type"@, "Released"@, "Cards"@]);
    let mut rows: Vec<Vec<String>> = Vec::new();
    push_row(&mut rows, sets_row(s));
    assert(rows_view(rows@) =~= seq![spec_sets_row(*s)]);
    push_block(&mut out, Block::Table { header, rows });
    push_block(&mut out, Block::Line(set_flags(s)));
    assert(report_view(out@) =~= spec_set_report(*s));
    out
}

/// The catalog import status, one field a line.
pub open spec fn spec_ingest_lines(s: IngestStatus) -> Seq<Seq<char>> {
    seq!["status         : "@ + s.status@] + match s.detail {
        Some(d) => seq!["detail         : "@ + d@],
        None => Seq::empty(),
    } + seq![
        "sets_imported  : "@ + dec_int(s.sets_imported as int),
        "cards_imported : "@ + dec_int(s.cards_imported as int),
        "source_updated : "@ + spec_dash(opt_view(s.source_updated_at)),
        "finished_at    : "@ + spec_dash(opt_view(s.finished_at)),
    ]
}

pub fn ingest_lines(s: &IngestStatus) -> (r: Vec<String>)
    ensures
        views(r@) == spec_ingest_lines(*s),
{
    let mut out: Vec<String> = Vec::new();
    let mut l = String::from_str("status         : ");
    l.append(s.status.as_str());
    push_cell(&mut out, l);
    if let Some(d) = &s.detail {
        let mut l = String::from_str("detail         : ");
        l.append(d.as_str());
        push_cell(&mut out, l);
    }
    let mut l = String::from_str("sets_imported  : ");
    push_i64(&mut l, s.sets_imported);
    push_cell(&mut out, l);
    let mut l = String::from_str("cards_imported : ");
    push_i64(&mut l, s.cards_imported);
    push_cell(&mut out, l);
    let mut l = String::from_str("source_updated : ");
    l.append(dash(&s.source_updated_at).as_str());
    push_cell(&mut out, l);
    let mut l = String::from_str("finished_at    : ");
    l.append(dash(&s.finished_at).as_str());
    push_cell(&mut out, l);
    assert(views(out@) =~= spec_ingest_lines(*s));
    out
}

pub open spec fn spec_ruling_row(r: Ruling) -> Seq<Seq<char>> {
    seq![r.published_at@, r.source@, spec_truncate(r.comment@, 88)]
}

/// A card's rulings, or a line saying it has none.
pub open spec fn spec_rulings_report(rs: Seq<Ruling>) -> Seq<BlockView> {
    if rs.len() == 0 {
        seq![BlockView::Line("No rulings."@)]
    } else {
        seq![BlockView::Table(seq!["Date"@, "Source"@, "Ruling"@], rs.map_values(|r: Ruling| spec_ruling_row(r)))]
    }
}

pub fn rulings_report(rs: &Vec<Ruling>) -> (out: Vec<Block>)
    ensures
        report_view(out@) == spec_rulings_report(rs@),
{
    let mut out: Vec<Block> = Vec::new();
    if rs.len() == 0 {
        push_block(&mut out, Block::Line(String::from_str("No rulings.")));
        assert(report_view(out@) =~= spec_rulings_report(rs@));
        return out;
    }
    let header = vec!["Date", "Source", "Ruling"];
    assert(header_view(header@) =~= seq!["Date"@, "Source"@, "Ruling"@]);
    let mut rows: Vec<Vec<String>> = Vec::new();
    let mut i: usize = 0;
    while i < rs.len()
        invariant
            i <= rs@.len(),
            rows_view(rows@) == rs@.take(i as int).map_values(|r: Ruling| spec_ruling_row(r)),
        decreases rs.len() - i,
    {
        let r = &rs[i];
        let mut row: Vec<String> = Vec::new();
        push_cell(&mut row, r.published_at.clone());
        push_cell(&mut row, r.source.clone());
        push_cell(&mut row, truncate(r.comment.as_str(), 88));
        assert(views(row@) =~= spec_ruling_row(rs@[i as int]));
        push_row(&mut rows, row);
        assert(rs@.take(i + 1).map_values(|r: Ruling| spec_ruling_row(r)) =~= rs@.take(i as int).map_values(
            |r: Ruling| spec_ruling_row(r),
        ).push(spec_ruling_row(rs@[i as int])));
        i += 1;
    }
    assert(rs@.take(rs@.len() as int) =~= rs@);
    push_block(&mut out, Block::Table { header, rows });
    assert(report_view(out@) =~= spec_rulings_report(rs@));
    out
}

pub open spec fn spec_scan_row(m: ScanMatch) -> Seq<Seq<char>> {
    seq![
        dec_int(m.distance as int),
        spec_truncate(m.card.id@, 12),
        spec_truncate(m.card.name@, 34),
        str_upper(m.card.set_code@),
        m.card.collector_number@,
    ]
}

/// The catalog cards a scan matched, or a line saying none was close enough.
pub open spec fn spec_scan_report(ms: Seq<ScanMatch>) -> Seq<BlockView> {
    if ms.len() == 0 {
        seq![BlockView::Line("No match within the confidence radius."@)]
    } else {
        seq![
            BlockView::Table(
                seq!["Distance"@, "ID"@, "Name"@, "Set"@, "#"@],
                ms.map_values(|m: ScanMatch| spec_scan_row(m)),
            ),
        ]
    }
}

pub fn scan_report(ms: &Vec<ScanMatch>) -> (out: Vec<Block>)
    ensures
        report_view(out@) == spec_scan_report(ms@),
{
    let mut out: Vec<Block> = Vec::new();
    if ms.len() == 0 {
        push_block(&mut out, Block::Line(String::from_str("No match within the confidence radius.")));
        assert(report_view(out@) =~= spec_scan_report(ms@));
        return out;
    }
    let header = vec!["Distance", "ID", "Name", "Set", "#"];
    assert(header_view(header@) =~= seq!["Distance"@, "ID"@, "Name"@, "Set"@, "#"@]);
    let mut rows: Vec<Vec<String>> = Vec::new();
    let mut i: usize = 0;
    while i < ms.len()
        invariant
            i <= ms@.len(),
            rows_view(rows@) == ms@.take(i as int).map_values(|m: ScanMatch| spec_scan_row(m)),
        decreases ms.len() - i,
    {
        let m = &ms[i];
        let mut row: Vec<String> = Vec::new();
        push_cell(&mut row, fmt_i64(m.distance));
        push_cell(&mut row, truncate(m.card.id.as_str(), 12));
        push_cell(&mut row, truncate(m.card.name.as_str(), 34));
        push_cell(&mut row, to_upper(m.card.set_code.as_str()));
        push_cell(&mut row, m.card.collector_number.clone());
        assert(views(row@) =~= spec_scan_row(ms@[i as int]));
        push_row(&mut rows, row);
        assert(ms@.take(i + 1).map_values(|m: ScanMatch| spec_scan_row(m)) =~= ms@.take(i as int).map_values(
            |m: ScanMatch| spec_scan_row(m),
        ).push(spec_scan_row(ms@[i as int])));
        i += 1;
    }
    assert(ms@.take(ms@.len() as int) =~= ms@);
    push_block(&mut out, Block::Table { header, rows });
    assert(report_view(out@) =~= spec_scan_report(ms@));
    out
}

// ---------------------------------------------------------------------------
// Scan fingerprints
// ---------------------------------------------------------------------------

/// Why a scan fingerprint could not be read.
#[derive(Debug, Clone, Copy, PartialEq, Eq, Structural)]
pub enum FingerprintError {
    /// Neither `--hex` nor `--file` was given.
    NoInput,
    /// The hex text was refused.
    Hex(HexError),
    /// The bytes were not 32 long.
    WrongLength(usize),
}

impl FingerprintError {
    pub open spec fn spec_message(self) -> Seq<char> {
        match self {
            FingerprintError::NoInput => "provide the fingerprint with --file <path> or --hex <64-char hex>"@,
            FingerprintError::Hex(e) => e.spec_message(),
            FingerprintError::WrongLength(n) => "a fingerprint must be exactly 32 bytes (got "@ + dec_nat(n as nat)
                + ")"@,
        }
    }

    pub fn message(self) -> (r: String)
        ensures
            r@ == self.spec_message(),
    {
        match self {
            FingerprintError::NoInput => String::from_str(
                "provide the fingerprint with --file <path> or --hex <64-char hex>",
            ),
            FingerprintError::Hex(e) => String::from_str(e.message()),
            FingerprintError::WrongLength(n) => {
                let mut out = String::from_str("a fingerprint must be exactly 32 bytes (got ");
                push_u64(&mut out, n as u64);
                out.append(")");
                out
            },
        }
    }
}

/// Hex decoding with the refusal as a fingerprint error.
pub open spec fn spec_hex_bytes(text: Seq<char>) -> Result<Seq<u8>, FingerprintError> {
    match spec_decode_hex(text) {
        Ok(b) => Ok(b),
        Err(e) => Err(FingerprintError::Hex(e)),
    }
}

/// The 32-byte fingerprint a scan sends: `--hex` text, else a file holding either
/// the 32 raw bytes or hex text (read leniently as UTF-8).
pub open spec fn spec_fingerprint(hex: Option<Seq<char>>, file: Option<Seq<u8>>) -> Result<Seq<u8>, FingerprintError> {
    let bytes = match hex {
        Some(h) => spec_hex_bytes(h),
        None => match file {
            Some(raw) => if raw.len() == 32 {
                Ok(raw)
            } else {
                spec_hex_bytes(crate::weblogin::utf8_lossy(raw))
            },
            None => Err(FingerprintError::NoInput),
        },
    };
    match bytes {
        Ok(b) => if b.len() == 32 {
            Ok(b)
        } else {
            Err(FingerprintError::WrongLength(b.len() as usize))
        },
        Err(e) => Err(e),
    }
}

fn hex_bytes(text: &str) -> (r: Result<Vec<u8>, FingerprintError>)
    ensures
        match (r, spec_hex_bytes(text@)) {
            (Ok(a), Ok(b)) => a@ == b,
            (Err(a), Err(b)) => a == b,
            _ => false,
        },
{
    match decode_hex(text) {
        Ok(b) => Ok(b),
        Err(e) => Err(FingerprintError::Hex(e)),
    }
}

pub fn fingerprint(hex: &Option<String>, file: &Option<Vec<u8>>) -> (r: Result<Vec<u8>, FingerprintError>)
    ensures
        match (r, spec_fingerprint(opt_view(*hex), match file {
            Some(f) => Some(f@),
            None => None,
        })) {
            (Ok(a), Ok(b)) => a@ == b,
            (Err(a), Err(b)) => a == b,
            _ => false,
        },
{
    let bytes = match hex {
        Some(h) => hex_bytes(h.as_str()),
        None => match file {
            Some(raw) => {
                if raw.len() == 32 {
                    let mut copy: Vec<u8> = Vec::new();
                    let mut i: usize = 0;
                    while i < raw.len()
                        invariant
                            i <= raw@.len(),
                            copy@ == raw@.take(i as int),
                        decreases raw.len() - i,
                    {
                        copy.push(raw[i]);
                        assert(raw@.take(i + 1) =~= raw@.take(i as int).push(raw@[i as int]));
                        i += 1;
                    }
                    assert(raw@.take(raw@.len() as int) =~= raw@);
                    Ok(copy)
                } else {
                    let text = crate::weblogin::lossy_utf8(raw.as_slice());
                    hex_bytes(text.as_str())
                }
            },
            None => Err(FingerprintError::NoInput),
        },
    };
    match bytes {
        Ok(b) => {
            if b.len() == 32 {
                Ok(b)
            } else {
                Err(FingerprintError::WrongLength(b.len()))
            }
        },
        Err(e) => Err(e),
    }
}

// ---------------------------------------------------------------------------
// Combos, keywords, formats, art tags, sealed, facets, search
// ---------------------------------------------------------------------------

/// One combo piece: `2× Name (cmdr)`.
pub open spec fn spec_combo_piece(p: ComboPiece) -> Seq<char> {
    (if p.quantity > 1 {
        dec_int(p.quantity as int) + "\u{d7} "@
    } else {
        Seq::empty()
    }) + p.name@ + (if p.must_be_commander {
        " (cmdr)"@
    } else {
        Seq::empty()
    })
}

/// A template is a requirement rather than a card: bracketed.
pub open spec fn spec_template(t: Seq<char>) -> Seq<char> {
    "["@ + t + "]"@
}

/// Everything a combo needs: its pieces, then its templates.
pub open spec fn combo_parts(c: CardCombo) -> Seq<Seq<char>> {
    c.pieces@.map_values(|p: ComboPiece| spec_combo_piece(p)) + c.templates@.map_values(|t: String| spec_template(t@))
}

pub open spec fn spec_combo_row(c: CardCombo) -> Seq<Seq<char>> {
    seq![
        spec_truncate(seq_join(combo_parts(c), " + "@), 56),
        spec_truncate(seq_join(views(c.produces@), ", "@), 36),
        dec_int(c.popularity as int),
        spec_dash(opt_view(c.bracket_tag)),
        c.id@,
    ]
}

fn combo_piece(p: &ComboPiece) -> (r: String)
    ensures
        r@ == spec_combo_piece(*p),
{
    let mut out = String::new();
    if p.quantity > 1 {
        push_i64(&mut out, p.quantity);
        out.append("\u{d7} ");
    }
    out.append(p.name.as_str());
    if p.must_be_commander {
        out.append(" (cmdr)");
    }
    out
}

pub fn combo_row(c: &CardCombo) -> (r: Vec<String>)
    ensures
        views(r@) == spec_combo_row(*c),
{
    let mut parts: Vec<String> = Vec::new();
    let mut i: usize = 0;
    while i < c.pieces.len()
        invariant
            i <= c.pieces@.len(),
            views(parts@) == c.pieces@.take(i as int).map_values(|p: ComboPiece| spec_combo_piece(p)),
        decreases c.pieces.len() - i,
    {
        push_cell(&mut parts, combo_piece(&c.pieces[i]));
        assert(c.pieces@.take(i + 1).map_values(|p: ComboPiece| spec_combo_piece(p)) =~= c.pieces@.take(
            i as int,
        ).map_values(|p: ComboPiece| spec_combo_piece(p)).push(spec_combo_piece(c.pieces@[i as int])));
        i += 1;
    }
    assert(c.pieces@.take(c.pieces@.len() as int) =~= c.pieces@);
    let ghost pieces = views(parts@);
    let mut j: usize = 0;
    while j < c.templates.len()
        invariant
            j <= c.templates@.len(),
            views(parts@) == pieces + c.templates@.take(j as int).map_values(|t: String| spec_template(t@)),
        decreases c.templates.len() - j,
    {
        let mut t = String::from_str("[");
        t.append(c.templates[j].as_str());
        t.append("]");
        push_cell(&mut parts, t);
        assert(c.templates@.take(j + 1).map_values(|t: String| spec_template(t@)) =~= c.templates@.take(
            j as int,
        ).map_values(|t: String| spec_template(t@)).push(spec_template(c.templates@[j as int]@)));
        j += 1;
    }
    assert(c.templates@.take(c.templates@.len() as int) =~= c.templates@);
    assert(views(parts@) =~= combo_parts(*c));
    let mut row: Vec<String> = Vec::new();
    let joined = join(parts.as_slice(), " + ");
    push_cell(&mut row, truncate(joined.as_str(), 56));
    let produces = join(c.produces.as_slice(), ", ");
    push_cell(&mut row, truncate(produces.as_str(), 36));
    push_cell(&mut row, fmt_i64(c.popularity));
    push_cell(&mut row, dash(&c.bracket_tag));
    push_cell(&mut row, c.id.clone());
    assert(views(row@) =~= spec_combo_row(*c));
    row
}

pub open spec fn combos_header() -> Seq<Seq<char>> {
    seq!["Pieces"@, "Produces"@, "Popularity"@, "Bracket"@, "ID"@]
}

/// The combos a card is a piece of, then the attribution the data's terms require,
/// combos or not.
pub open spec fn spec_combos_report(r: CardCombos) -> Seq<BlockView> {
    (if r.combos@.len() == 0 {
        seq![BlockView::Line("No combos (or no combo data synced)."@)]
    } else {
        seq![
            BlockView::Table(combos_header(), r.combos@.map_values(|c: CardCombo| spec_combo_row(c))),
            BlockView::Note(dec_int(r.total as int) + " combo(s) total"@ + (if r.total > r.combos@.len() {
                " \u{b7} "@ + dec_nat(r.combos@.len()) + " listed (the API caps the list)"@
            } else {
                Seq::empty()
            }) + "."@),
        ]
    }) + seq![BlockView::Note("Combo data: "@ + r.source@ + " \u{b7} "@ + r.source_url@)]
}

pub fn combos_report(r: &CardCombos) -> (out: Vec<Block>)
    ensures
        report_view(out@) == spec_combos_report(*r),
{
    let mut out: Vec<Block> = Vec::new();
    if r.combos.len() == 0 {
        push_block(&mut out, Block::Line(String::from_str("No combos (or no combo data synced).")));
    } else {
        let header = vec!["Pieces", "Produces", "Popularity", "Bracket", "ID"];
        assert(header_view(header@) =~= combos_header());
        let mut rows: Vec<Vec<String>> = Vec::new();
        let mut i: usize = 0;
        while i < r.combos.len()
            invariant
                i <= r.combos@.len(),
                rows_view(rows@) == r.combos@.take(i as int).map_values(|c: CardCombo| spec_combo_row(c)),
            decreases r.combos.len() - i,
        {
            push_row(&mut rows, combo_row(&r.combos[i]));
            assert(r.combos@.take(i + 1).map_values(|c: CardCombo| spec_combo_row(c)) =~= r.combos@.take(
                i as int,
            ).map_values(|c: CardCombo| spec_combo_row(c)).push(spec_combo_row(r.combos@[i as int])));
            i += 1;
        }
        assert(r.combos@.take(r.combos@.len() as int) =~= r.combos@);
        push_block(&mut out, Block::Table { header, rows });
        let mut note = String::new();
        push_i64(&mut note, r.total);
        note.append(" combo(s) total");
        let listed = r.combos.len();
        let more: bool = if (listed as u64) < 0x8000_0000_0000_0000u64 {
            r.total > listed as i64
        } else {
            false
        };
        assert(more == (r.total > r.combos@.len()));
        if more {
            note.append(" \u{b7} ");
            push_u64(&mut note, listed as u64);
            note.append(" listed (the API caps the list)");
        }
        note.append(".");
        assert(note@ =~= dec_int(r.total as int) + " combo(s) total"@ + (if r.total > r.combos@.len() {
            " \u{b7} "@ + dec_nat(r.combos@.len()) + " listed (the API caps the list)"@
        } else {
            Seq::empty()
        }) + "."@);
        push_block(&mut out, Block::Note(note));
    }
    let mut attribution = String::from_str("Combo data: ");
    attribution.append(r.source.as_str());
    attribution.append(" \u{b7} ");
    attribution.append(r.source_url.as_str());
    push_block(&mut out, Block::Note(attribution));
    assert(report_view(out@) =~= spec_combos_report(*r));
    out
}

pub open spec fn spec_keyword_row(k: Keyword) -> Seq<Seq<char>> {
    seq![k.name@, k.kind@, k.slug@, spec_truncate(k.text@, 72)]
}

pub open spec fn keywords_header() -> Seq<Seq<char>> {
    seq!["Name"@, "Kind"@, "Slug"@, "Explanation"@]
}

/// The glossary table.
pub fn keywords_table(entries: &Vec<Keyword>) -> (b: Block)
    ensures
        block_view(b) == BlockView::Table(keywords_header(), entries@.map_values(|k: Keyword| spec_keyword_row(k))),
{
    let header = vec!["Name", "Kind", "Slug", "Explanation"];
    assert(header_view(header@) =~= keywords_header());
    let mut rows: Vec<Vec<String>> = Vec::new();
    let mut i: usize = 0;
    while i < entries.len()
        invariant
            i <= entries@.len(),
            rows_view(rows@) == entries@.take(i as int).map_values(|k: Keyword| spec_keyword_row(k)),
        decreases entries.len() - i,
    {
        let k = &entries[i];
        let mut row: Vec<String> = Vec::new();
        push_cell(&mut row, k.name.clone());
        push_cell(&mut row, k.kind.clone());
        push_cell(&mut row, k.slug.clone());
        push_cell(&mut row, truncate(k.text.as_str(), 72));
        assert(views(row@) =~= spec_keyword_row(entries@[i as int]));
        push_row(&mut rows, row);
        assert(entries@.take(i + 1).map_values(|k: Keyword| spec_keyword_row(k)) =~= entries@.take(i as int).map_values(
            |k: Keyword| spec_keyword_row(k),
        ).push(spec_keyword_row(entries@[i as int])));
        i += 1;
    }
    assert(entries@.take(entries@.len() as int) =~= entries@);
    Block::Table { header, rows }
}

/// One glossary entry in full: its name and kind, then its explanation.
pub open spec fn spec_keyword_full(k: Keyword) -> Seq<BlockView> {
    seq![
        BlockView::Line(k.name@ + "  ["@ + k.kind@ + (if k.parameterized {
            ", takes a value"@
        } else {
            Seq::empty()
        }) + "]"@),
        BlockView::Line("  "@ + k.text@ + "\n"@),
    ]
}

pub open spec fn spec_keywords_full(ks: Seq<Keyword>) -> Seq<BlockView>
    decreases ks.len(),
{
    if ks.len() == 0 {
        Seq::empty()
    } else {
        spec_keywords_full(ks.drop_last()) + spec_keyword_full(ks.last())
    }
}

/// The glossary: a table with a count, or every entry in full.
pub open spec fn spec_keywords_report(ks: Seq<Keyword>, full: bool) -> Seq<BlockView> {
    if ks.len() == 0 {
        seq![BlockView::Line("No curated glossary for this game yet."@)]
    } else if full {
        spec_keywords_full(ks)
    } else {
        seq![
            BlockView::Table(keywords_header(), ks.map_values(|k: Keyword| spec_keyword_row(k))),
            BlockView::Note(dec_nat(ks.len()) + " entries (--full for each explanation)."@),
        ]
    }
}

pub fn keywords_report(ks: &Vec<Keyword>, full: bool) -> (out: Vec<Block>)
    ensures
        report_view(out@) == spec_keywords_report(ks@, full),
{
    let mut out: Vec<Block> = Vec::new();
    if ks.len() == 0 {
        push_block(&mut out, Block::Line(String::from_str("No curated glossary for this game yet.")));
    } else if full {
        let mut i: usize = 0;
        while i < ks.len()
            invariant
                i <= ks@.len(),
                report_view(out@) == spec_keywords_full(ks@.take(i as int)),
            decreases ks.len() - i,
        {
            let k = &ks[i];
            let mut head = k.name.clone();
            head.append("  [");
            head.append(k.kind.as_str());
            if k.parameterized {
                head.append(", takes a value");
            }
            head.append("]");
            push_block(&mut out, Block::Line(head));
            let mut text = String::from_str("  ");
            text.append(k.text.as_str());
            text.append("\n");
            push_block(&mut out, Block::Line(text));
            assert(ks@.take(i + 1).drop_last() =~= ks@.take(i as int));
            i += 1;
        }
        assert(ks@.take(ks@.len() as int) =~= ks@);
    } else {
        push_block(&mut out, keywords_table(ks));
        let mut note = String::new();
        push_u64(&mut note, ks.len() as u64);
        note.append(" entries (--full for each explanation).");
        push_block(&mut out, Block::Note(note));
    }
    assert(report_view(out@) =~= spec_keywords_report(ks@, full));
    out
}

/// The `cards` command's search, as the route and the query it sends.
pub struct CardSearch {
    pub query: Option<String>,
    pub name: Option<String>,
    pub set: Option<String>,
    pub related: bool,
    pub sort: Option<String>,
    pub dir: Option<String>,
    pub page: Option<u32>,
    pub page_size: Option<u32>,
    /// Only the first `limit` rows, without a total.
    pub preview: bool,
    pub limit: Option<u32>,
}

/// Why a preview cannot be scoped to a set.
pub open spec fn preview_with_set_error() -> Seq<char> {
    "--preview is not available with --set; drop --set (or use `set <code> --cards`)"@
}

/// The request of a card search: a preview (never of a set), a set's cards, or
/// the game's cards.
pub open spec fn spec_cards_request(game: Seq<char>, a: CardSearch) -> Result<(Seq<char>, Seq<(Seq<char>, Seq<char>)>), Seq<char>> {
    if a.preview {
        if a.set is Some {
            Err(preview_with_set_error())
        } else {
            Ok((
                "/api/games/"@ + game + "/cards/preview"@,
                opt_pair("q", a.query) + opt_pair("name", a.name) + opt_pair("sort", a.sort) + opt_pair("dir", a.dir)
                    + opt_pair("limit", a.limit),
            ))
        }
    } else {
        let common = opt_pair("q", a.query) + opt_pair("sort", a.sort) + opt_pair("dir", a.dir) + opt_pair("page", a.page)
            + opt_pair("page_size", a.page_size);
        match a.set {
            Some(set) => Ok(("/api/games/"@ + game + "/sets/"@ + set@ + "/cards"@, common + flag_pair("include_related", a.related))),
            None => Ok(("/api/games/"@ + game + "/cards"@, common + opt_pair("name", a.name))),
        }
    }
}

pub fn cards_request(game: &str, a: &CardSearch) -> (r: Result<(String, Query), String>)
    ensures
        match (r, spec_cards_request(game@, *a)) {
            (Ok((p, q)), Ok((sp, sq))) => p@ == sp && query_view(q@) == sq,
            (Err(e), Err(se)) => e@ == se,
            _ => false,
        },
{
    let mut path = String::from_str("/api/games/");
    path.append(game);
    let mut q: Query = Vec::new();
    if a.preview {
        if a.set.is_some() {
            return Err(String::from_str("--preview is not available with --set; drop --set (or use `set <code> --cards`)"));
        }
        path.append("/cards/preview");
        push_opt(&mut q, "q", &a.query);
        push_opt(&mut q, "name", &a.name);
        push_opt(&mut q, "sort", &a.sort);
        push_opt(&mut q, "dir", &a.dir);
        push_opt(&mut q, "limit", &a.limit);
        return Ok((path, q));
    }
    push_opt(&mut q, "q", &a.query);
    push_opt(&mut q, "sort", &a.sort);
    push_opt(&mut q, "dir", &a.dir);
    push_opt(&mut q, "page", &a.page);
    push_opt(&mut q, "page_size", &a.page_size);
    match &a.set {
        Some(set) => {
            path.append("/sets/");
            path.append(set.as_str());
            path.append("/cards");
            push_flag(&mut q, "include_related", a.related);
        },
        None => {
            path.append("/cards");
            push_opt(&mut q, "name", &a.name);
        },
    }
    Ok((path, q))
}

/// Whether some pair of `q` is named `key`.
pub open spec fn has_key(q: Seq<(Seq<char>, Seq<char>)>, key: Seq<char>) -> bool {
    exists|i: int| 0 <= i < q.len() && (#[trigger] q[i]).0 == key
}

proof fn lemma_opt_pair_keys<T: super::QueryValue>(key: &'static str, v: Option<T>, other: Seq<char>)
    requires
        key@ != other,
    ensures
        !has_key(opt_pair(key, v), other),
{
}

proof fn lemma_flag_pair_keys(key: &'static str, v: bool, other: Seq<char>)
    requires
        key@ != other,
    ensures
        !has_key(flag_pair(key, v), other),
{
}

proof fn lemma_has_key_concat(a: Seq<(Seq<char>, Seq<char>)>, b: Seq<(Seq<char>, Seq<char>)>, key: Seq<char>)
    ensures
        has_key(a + b, key) <==> has_key(a, key) || has_key(b, key),
{
    if has_key(a + b, key) {
        let i = choose|i: int| 0 <= i < (a + b).len() && (#[trigger] (a + b)[i]).0 == key;
        if i < a.len() {
            assert(a[i] == (a + b)[i]);
        } else {
            assert(b[i - a.len()] == (a + b)[i]);
        }
    }
    if has_key(a, key) {
        let i = choose|i: int| 0 <= i < a.len() && (#[trigger] a[i]).0 == key;
        assert((a + b)[i] == a[i]);
    }
    if has_key(b, key) {
        let i = choose|i: int| 0 <= i < b.len() && (#[trigger] b[i]).0 == key;
        assert((a + b)[a.len() + i] == b[i]);
    }
}

/// A card search (not a preview) sends the sort it was given and no other: the
/// query holds the pair `("sort", s)` when the search sorts by `s`, and no pair
/// named `sort` when it does not; the same holds of the search text `q` and of
/// the direction `dir`.
pub proof fn card_search_sends_its_sort_text_and_direction(game: Seq<char>, a: CardSearch)
    requires
        !a.preview,
    ensures
        spec_cards_request(game, a) matches Ok((_path, q)) && {
            &&& (a.sort matches Some(s) ==> q.contains(("sort"@, s@)))
            &&& (a.sort is None ==> !has_key(q, "sort"@))
            &&& (a.query matches Some(s) ==> q.contains(("q"@, s@)))
            &&& (a.query is None ==> !has_key(q, "q"@))
            &&& (a.dir matches Some(s) ==> q.contains(("dir"@, s@)))
            &&& (a.dir is None ==> !has_key(q, "dir"@))
        },
{
    reveal_strlit("q");
    reveal_strlit("sort");
    reveal_strlit("dir");
    reveal_strlit("page");
    reveal_strlit("page_size");
    reveal_strlit("include_related");
    reveal_strlit("name");
    let pq = opt_pair("q", a.query);
    let ps = opt_pair("sort", a.sort);
    let pd = opt_pair("dir", a.dir);
    let pp = opt_pair("page", a.page);
    let pz = opt_pair("page_size", a.page_size);
    let tail = match a.set {
        Some(_) => flag_pair("include_related", a.related),
        None => opt_pair("name", a.name),
    };
    let q = pq + ps + pd + pp + pz + tail;
    assert(spec_cards_request(game, a) matches Ok((_path, qq)) && qq == q);
    assert("name"@[0] == 'n' && "include_related"@[0] == 'i');
    assert("sort"@[0] == 's' && "q"@[0] == 'q' && "dir"@[0] == 'd');
    lemma_flag_pair_keys("include_related", a.related, "sort"@);
    lemma_flag_pair_keys("include_related", a.related, "q"@);
    lemma_flag_pair_keys("include_related", a.related, "dir"@);
    lemma_opt_pair_keys("name", a.name, "sort"@);
    lemma_opt_pair_keys("name", a.name, "q"@);
    lemma_opt_pair_keys("name", a.name, "dir"@);
    assert(!has_key(tail, "sort"@) && !has_key(tail, "q"@) && !has_key(tail, "dir"@));
    lemma_opt_pair_keys("q", a.query, "sort"@);
    lemma_opt_pair_keys("q", a.query, "dir"@);
    lemma_opt_pair_keys("sort", a.sort, "q"@);
    lemma_opt_pair_keys("sort", a.sort, "dir"@);
    lemma_opt_pair_keys("dir", a.dir, "q"@);
    lemma_opt_pair_keys("dir", a.dir, "sort"@);
    lemma_opt_pair_keys("page", a.page, "q"@);
    lemma_opt_pair_keys("page", a.page, "sort"@);
    lemma_opt_pair_keys("page", a.page, "dir"@);
    lemma_opt_pair_keys("page_size", a.page_size, "q"@);
    lemma_opt_pair_keys("page_size", a.page_size, "sort"@);
    lemma_opt_pair_keys("page_size", a.page_size, "dir"@);
    let k1 = pq + ps;
    let k2 = k1 + pd;
    let k3 = k2 + pp;
    let k4 = k3 + pz;
    let keys = seq!["q"@, "sort"@, "dir"@];
    assert forall|j: int| 0 <= j < 3 implies (has_key(q, #[trigger] keys[j]) <==> has_key(pq, keys[j]) || has_key(ps, keys[j])
        || has_key(pd, keys[j])) by {
        let key = keys[j];
        lemma_has_key_concat(pq, ps, key);
        lemma_has_key_concat(k1, pd, key);
        lemma_has_key_concat(k2, pp, key);
        lemma_has_key_concat(k3, pz, key);
        lemma_has_key_concat(k4, tail, key);
    }
    assert(keys[0] == "q"@ && keys[1] == "sort"@ && keys[2] == "dir"@);
    if let Some(s) = a.query {
        assert(q[0] == ("q"@, s@));
    }
    if let Some(s) = a.sort {
        assert(q[pq.len() as int] == ("sort"@, s@));
    }
    if let Some(s) = a.dir {
        assert(q[(pq.len() + ps.len()) as int] == ("dir"@, s@));
    }
}

/// Where a card search goes: a preview scoped to a set is refused, a preview goes
/// to the game's preview route, a set's search to that set's cards and any other
/// search to the game's cards.
pub proof fn card_search_route(game: Seq<char>, a: CardSearch)
    ensures
        a.preview && a.set is Some <==> spec_cards_request(game, a) is Err,
        a.preview && a.set is None ==> (spec_cards_request(game, a) matches Ok((p, _q)) && p
            == "/api/games/"@ + game + "/cards/preview"@),
        !a.preview && a.set is Some ==> (spec_cards_request(game, a) matches Ok((p, _q)) && p == "/api/games/"@ + game
            + "/sets/"@ + a.set->0@ + "/cards"@),
        !a.preview && a.set is None ==> (spec_cards_request(game, a) matches Ok((p, _q)) && p == "/api/games/"@ + game
            + "/cards"@),
{
}

/// Whether a format is listed: every format, or only the popular ones.
pub open spec fn spec_format_shown(f: DeckFormat, popular_only: bool) -> bool {
    !popular_only || f.popular
}

pub fn format_shown(f: &DeckFormat, popular_only: bool) -> (r: bool)
    ensures
        r == spec_format_shown(*f, popular_only),
{
    !popular_only || f.popular
}

/// The formats listed, in order.
pub open spec fn shown_formats(fs: Seq<DeckFormat>, popular_only: bool) -> Seq<DeckFormat>
    decreases fs.len(),
{
    if fs.len() == 0 {
        Seq::empty()
    } else if spec_format_shown(fs.last(), popular_only) {
        shown_formats(fs.drop_last(), popular_only).push(fs.last())
    } else {
        shown_formats(fs.drop_last(), popular_only)
    }
}

pub open spec fn spec_format_row(f: DeckFormat) -> Seq<Seq<char>> {
    seq![f.label@, f.key@, f.group@, yes_blank(f.popular), spec_truncate(seq_join(views(f.aliases@), ", "@), 40)]
}

pub open spec fn formats_header() -> Seq<Seq<char>> {
    seq!["Label"@, "Key"@, "Group"@, "Popular"@, "Also accepts"@]
}

/// The legality-tracked formats (only the popular ones on request), with a count.
pub open spec fn spec_formats_report(fs: Seq<DeckFormat>, popular_only: bool) -> Seq<BlockView> {
    let shown = shown_formats(fs, popular_only);
    if shown.len() == 0 {
        seq![BlockView::Line("No legality-tracked formats for this game."@)]
    } else {
        seq![
            BlockView::Table(formats_header(), shown.map_values(|f: DeckFormat| spec_format_row(f))),
            BlockView::Note(dec_nat(shown.len()) + " formats."@),
        ]
    }
}

pub fn formats_report(fs: &Vec<DeckFormat>, popular_only: bool) -> (out: Vec<Block>)
    ensures
        report_view(out@) == spec_formats_report(fs@, popular_only),
{
    let header = vec!["Label", "Key", "Group", "Popular", "Also accepts"];
    assert(header_view(header@) =~= formats_header());
    let mut rows: Vec<Vec<String>> = Vec::new();
    let mut i: usize = 0;
    while i < fs.len()
        invariant
            i <= fs@.len(),
            rows_view(rows@) == shown_formats(fs@.take(i as int), popular_only).map_values(
                |f: DeckFormat| spec_format_row(f),
            ),
        decreases fs.len() - i,
    {
        let f = &fs[i];
        assert(fs@.take(i + 1).drop_last() =~= fs@.take(i as int));
        if format_shown(f, popular_only) {
            let mut row: Vec<String> = Vec::new();
            push_cell(&mut row, f.label.clone());
            push_cell(&mut row, f.key.clone());
            push_cell(&mut row, f.group.clone());
            push_cell(&mut row, yes_or_blank(f.popular));
            let aliases = join(f.aliases.as_slice(), ", ");
            push_cell(&mut row, truncate(aliases.as_str(), 40));
            assert(views(row@) =~= spec_format_row(fs@[i as int]));
            push_row(&mut rows, row);
            assert(shown_formats(fs@.take(i + 1), popular_only).map_values(|f: DeckFormat| spec_format_row(f))
                =~= shown_formats(fs@.take(i as int), popular_only).map_values(|f: DeckFormat| spec_format_row(f)).push(
                spec_format_row(fs@[i as int]),
            ));
        }
        i += 1;
    }
    assert(fs@.take(fs@.len() as int) =~= fs@);
    let mut out: Vec<Block> = Vec::new();
    if rows.len() == 0 {
        push_block(&mut out, Block::Line(String::from_str("No legality-tracked formats for this game.")));
    } else {
        let n = rows.len();
        push_block(&mut out, Block::Table { header, rows });
        let mut note = String::new();
        push_u64(&mut note, n as u64);
        note.append(" formats.");
        push_block(&mut out, Block::Note(note));
    }
    assert(report_view(out@) =~= spec_formats_report(fs@, popular_only));
    out
}

pub open spec fn spec_art_tag_row(t: ArtTag) -> Seq<Seq<char>> {
    seq![
        t.slug@,
        spec_truncate(t.label@, 36),
        dec_int(t.count as int),
        spec_truncate(spec_dash(opt_view(t.description)), 48),
    ]
}

/// Art tags with how to filter by them, or a line saying there are none.
pub open spec fn spec_art_tags_report(ts: Seq<ArtTag>) -> Seq<BlockView> {
    if ts.len() == 0 {
        seq![BlockView::Line("No art tags."@)]
    } else {
        seq![
            BlockView::Table(
                seq!["Slug"@, "Label"@, "Artworks"@, "Description"@],
                ts.map_values(|t: ArtTag| spec_art_tag_row(t)),
            ),
            BlockView::Note(dec_nat(ts.len()) + " tags \u{b7} filter cards with `art:<slug>`."@),
        ]
    }
}

pub fn art_tags_report(ts: &Vec<ArtTag>) -> (out: Vec<Block>)
    ensures
        report_view(out@) == spec_art_tags_report(ts@),
{
    let mut out: Vec<Block> = Vec::new();
    if ts.len() == 0 {
        push_block(&mut out, Block::Line(String::from_str("No art tags.")));
        assert(report_view(out@) =~= spec_art_tags_report(ts@));
        return out;
    }
    let header = vec!["Slug", "Label", "Artworks", "Description"];
    assert(header_view(header@) =~= seq!["Slug"@, "Label"@, "Artworks"@, "Description"@]);
    let mut rows: Vec<Vec<String>> = Vec::new();
    let mut i: usize = 0;
    while i < ts.len()
        invariant
            i <= ts@.len(),
            rows_view(rows@) == ts@.take(i as int).map_values(|t: ArtTag| spec_art_tag_row(t)),
        decreases ts.len() - i,
    {
        let t = &ts[i];
        let mut row: Vec<String> = Vec::new();
        push_cell(&mut row, t.slug.clone());
        push_cell(&mut row, truncate(t.label.as_str(), 36));
        push_cell(&mut row, fmt_i64(t.count));
        let d = dash(&t.description);
        push_cell(&mut row, truncate(d.as_str(), 48));
        assert(views(row@) =~= spec_art_tag_row(ts@[i as int]));
        push_row(&mut rows, row);
        assert(ts@.take(i + 1).map_values(|t: ArtTag| spec_art_tag_row(t)) =~= ts@.take(i as int).map_values(
            |t: ArtTag| spec_art_tag_row(t),
        ).push(spec_art_tag_row(ts@[i as int])));
        i += 1;
    }
    assert(ts@.take(ts@.len() as int) =~= ts@);
    push_block(&mut out, Block::Table { header, rows });
    let mut note = String::new();
    push_u64(&mut note, ts.len() as u64);
    note.append(" tags \u{b7} filter cards with `art:<slug>`.");
    push_block(&mut out, Block::Note(note));
    assert(report_view(out@) =~= spec_art_tags_report(ts@));
    out
}

pub open spec fn spec_sealed_row(r: SealedProductRef) -> Seq<Seq<char>> {
    seq![
        r.membership@,
        yes_blank(r.foil),
        spec_truncate(r.product.name@, 40),
        str_upper(r.product.set_code@),
        spec_price(opt_view(r.product.prices.usd)),
    ]
}

/// The sealed products a card can be pulled from.
pub open spec fn spec_sealed_report(rs: Seq<SealedProductRef>) -> Seq<BlockView> {
    if rs.len() == 0 {
        seq![BlockView::Line("Not found in any sealed product."@)]
    } else {
        seq![
            BlockView::Table(
                seq!["Membership"@, "Foil"@, "Product"@, "Set"@, "USD"@],
                rs.map_values(|r: SealedProductRef| spec_sealed_row(r)),
            ),
        ]
    }
}

pub fn sealed_report(rs: &Vec<SealedProductRef>) -> (out: Vec<Block>)
    ensures
        report_view(out@) == spec_sealed_report(rs@),
{
    let mut out: Vec<Block> = Vec::new();
    if rs.len() == 0 {
        push_block(&mut out, Block::Line(String::from_str("Not found in any sealed product.")));
        assert(report_view(out@) =~= spec_sealed_report(rs@));
        return out;
    }
    let header = vec!["Membership", "Foil", "Product", "Set", "USD"];
    assert(header_view(header@) =~= seq!["Membership"@, "Foil"@, "Product"@, "Set"@, "USD"@]);
    let mut rows: Vec<Vec<String>> = Vec::new();
    let mut i: usize = 0;
    while i < rs.len()
        invariant
            i <= rs@.len(),
            rows_view(rows@) == rs@.take(i as int).map_values(|r: SealedProductRef| spec_sealed_row(r)),
        decreases rs.len() - i,
    {
        let r = &rs[i];
        let mut row: Vec<String> = Vec::new();
        push_cell(&mut row, r.membership.clone());
        push_cell(&mut row, yes_or_blank(r.foil));
        push_cell(&mut row, truncate(r.product.name.as_str(), 40));
        push_cell(&mut row, to_upper(r.product.set_code.as_str()));
        push_cell(&mut row, price(&r.product.prices.usd));
        assert(views(row@) =~= spec_sealed_row(rs@[i as int]));
        push_row(&mut rows, row);
        assert(rs@.take(i + 1).map_values(|r: SealedProductRef| spec_sealed_row(r)) =~= rs@.take(i as int).map_values(
            |r: SealedProductRef| spec_sealed_row(r),
        ).push(spec_sealed_row(rs@[i as int])));
        i += 1;
    }
    assert(rs@.take(rs@.len() as int) =~= rs@);
    push_block(&mut out, Block::Table { header, rows });
    assert(report_view(out@) =~= spec_sealed_report(rs@));
    out
}

pub open spec fn spec_facet_row(s: ProductSetRef) -> Seq<Seq<char>> {
    seq![str_upper(s.code@), spec_dash(opt_view(s.name)), dec_int(s.product_count as int)]
}

/// The product types, then the sets with products.
pub open spec fn spec_facets_report(f: ProductFacets) -> Seq<BlockView> {
    seq![
        BlockView::Line("Types: "@ + seq_join(views(f.types@), ", "@)),
        BlockView::Table(seq!["Set"@, "Name"@, "Products"@], f.sets@.map_values(|s: ProductSetRef| spec_facet_row(s))),
    ]
}

pub fn facets_report(f: &ProductFacets) -> (out: Vec<Block>)
    ensures
        report_view(out@) == spec_facets_report(*f),
{
    let mut out: Vec<Block> = Vec::new();
    let mut types = String::from_str("Types: ");
    types.append(join(f.types.as_slice(), ", ").as_str());
    push_block(&mut out, Block::Line(types));
    let header = vec!["Set", "Name", "Products"];
    assert(header_view(header@) =~= seq!["Set"@, "Name"@, "Products"@]);
    let mut rows: Vec<Vec<String>> = Vec::new();
    let mut i: usize = 0;
    while i < f.sets.len()
        invariant
            i <= f.sets@.len(),
            rows_view(rows@) == f.sets@.take(i as int).map_values(|s: ProductSetRef| spec_facet_row(s)),
        decreases f.sets.len() - i,
    {
        let s = &f.sets[i];
        let mut row: Vec<String> = Vec::new();
        push_cell(&mut row, to_upper(s.code.as_str()));
        push_cell(&mut row, dash(&s.name));
        push_cell(&mut row, fmt_i64(s.product_count));
        assert(views(row@) =~= spec_facet_row(f.sets@[i as int]));
        push_row(&mut rows, row);
        assert(f.sets@.take(i + 1).map_values(|s: ProductSetRef| spec_facet_row(s)) =~= f.sets@.take(i as int).map_values(
            |s: ProductSetRef| spec_facet_row(s),
        ).push(spec_facet_row(f.sets@[i as int])));
        i += 1;
    }
    assert(f.sets@.take(f.sets@.len() as int) =~= f.sets@);
    push_block(&mut out, Block::Table { header, rows });
    assert(report_view(out@) =~= spec_facets_report(*f));
    out
}

/// The heading over one group of a catalog-wide search.
pub open spec fn spec_search_heading(label: Seq<char>, n: nat, has_more: bool) -> Seq<char> {
    "\n== "@ + label + " ("@ + dec_nat(n) + (if has_more {
        ", more matched \u{2014} raise --limit or narrow the query"@
    } else {
        Seq::empty()
    }) + ") =="@
}

pub fn search_heading(label: &str, n: usize, has_more: bool) -> (r: String)
    ensures
        r@ == spec_search_heading(label@, n as nat, has_more),
{
    let mut out = String::from_str("\n== ");
    out.append(label);
    out.append(" (");
    push_u64(&mut out, n as u64);
    if has_more {
        out.append(", more matched \u{2014} raise --limit or narrow the query");
    }
    out.append(") ==");
    out
}

/// What a card search preview says under its rows.
pub open spec fn spec_preview_note(n: nat, has_more: bool) -> Seq<char> {
    "showing "@ + dec_nat(n) + if has_more {
        " \u{b7} more match \u{2014} use the paged listing"@
    } else {
        Seq::empty()
    }
}

pub fn preview_note(n: usize, has_more: bool) -> (r: String)
    ensures
        r@ == spec_preview_note(n as nat, has_more),
{
    let mut out = String::from_str("showing ");
    push_u64(&mut out, n as u64);
    if has_more {
        out.append(" \u{b7} more match \u{2014} use the paged listing");
    }
    out
}

/// A card search preview: the cards and how many are shown, or `No matches.`
pub open spec fn spec_cards_preview(g: SearchGroup<Card>) -> Seq<BlockView> {
    if g.data@.len() == 0 {
        seq![BlockView::Line("No matches."@)]
    } else {
        seq![
            BlockView::Table(cards_header(), g.data@.map_values(|c: Card| spec_cards_row(c))),
            BlockView::Note(spec_preview_note(g.data@.len(), g.has_more)),
        ]
    }
}

pub fn cards_preview(g: &SearchGroup<Card>) -> (out: Vec<Block>)
    ensures
        report_view(out@) == spec_cards_preview(*g),
{
    let mut out: Vec<Block> = Vec::new();
    if g.data.len() == 0 {
        push_block(&mut out, Block::Line(String::from_str("No matches.")));
    } else {
        push_block(&mut out, cards_table(&g.data));
        push_block(&mut out, Block::Note(preview_note(g.data.len(), g.has_more)));
    }
    assert(report_view(out@) =~= spec_cards_preview(*g));
    out
}

/// One kind of a search answer under its heading, nothing when it is empty.
pub open spec fn spec_search_group(label: Seq<char>, n: nat, has_more: bool, table: BlockView) -> Seq<BlockView> {
    if n == 0 {
        Seq::empty()
    } else {
        seq![BlockView::Line(spec_search_heading(label, n, has_more)), table]
    }
}

fn search_group(out: &mut Vec<Block>, label: &str, n: usize, has_more: bool, table: Block)
    ensures
        report_view(final(out)@) == report_view(old(out)@) + spec_search_group(label@, n as nat, has_more, block_view(table)),
{
    if n > 0 {
        push_block(out, Block::Line(search_heading(label, n, has_more)));
        push_block(out, table);
    }
    assert(report_view(out@) =~= report_view(old(out)@) + spec_search_group(label@, n as nat, has_more, block_view(table)));
}

/// A catalog-wide search: each kind that matched under its heading, with the
/// table its own listing uses, in the order cards, sets, sealed products, precons,
/// keywords; `No matches.` when nothing did.
pub open spec fn spec_search(r: SearchResults) -> Seq<BlockView> {
    let body = spec_search_group(
        "Cards"@,
        r.cards.data@.len(),
        r.cards.has_more,
        BlockView::Table(cards_header(), r.cards.data@.map_values(|c: Card| spec_cards_row(c))),
    ) + spec_search_group(
        "Sets"@,
        r.sets.data@.len(),
        r.sets.has_more,
        BlockView::Table(
            seq!["Code"@, "Name"@, "Type"@, "Released"@, "Cards"@],
            r.sets.data@.map_values(|x: CardSet| spec_sets_row(x)),
        ),
    ) + spec_search_group(
        "Sealed products"@,
        r.products.data@.len(),
        r.products.has_more,
        BlockView::Table(
            seq!["ID"@, "Name"@, "Set"@, "Type"@, "USD"@, "MSRP"@],
            r.products.data@.map_values(|x: Product| spec_products_row(x)),
        ),
    ) + spec_search_group(
        "Preconstructed decks"@,
        r.precons.data@.len(),
        r.precons.has_more,
        BlockView::Table(
            seq!["Slug"@, "Name"@, "Set"@, "Type"@, "Colours"@, "Cards"@, "Side"@],
            r.precons.data@.map_values(|d: PreconDeck| crate::commands::precons::spec_precon_row(d)),
        ),
    ) + spec_search_group(
        "Keywords"@,
        r.keywords.data@.len(),
        r.keywords.has_more,
        BlockView::Table(keywords_header(), r.keywords.data@.map_values(|k: Keyword| spec_keyword_row(k))),
    );
    if body.len() == 0 {
        seq![BlockView::Line("No matches."@)]
    } else {
        body
    }
}

pub fn search(r: &SearchResults) -> (out: Vec<Block>)
    ensures
        report_view(out@) == spec_search(*r),
{
    let mut out: Vec<Block> = Vec::new();
    search_group(&mut out, "Cards", r.cards.data.len(), r.cards.has_more, cards_table(&r.cards.data));
    search_group(&mut out, "Sets", r.sets.data.len(), r.sets.has_more, sets_table(&r.sets.data));
    search_group(&mut out, "Sealed products", r.products.data.len(), r.products.has_more, products_table(&r.products.data));
    search_group(
        &mut out,
        "Preconstructed decks",
        r.precons.data.len(),
        r.precons.has_more,
        crate::commands::precons::precons_table(&r.precons.data),
    );
    search_group(&mut out, "Keywords", r.keywords.data.len(), r.keywords.has_more, keywords_table(&r.keywords.data));
    if out.len() == 0 {
        push_block(&mut out, Block::Line(String::from_str("No matches.")));
    }
    assert(report_view(out@) =~= spec_search(*r));
    out
}

/// What an image is fetched for.
#[derive(Debug, Clone, Copy, PartialEq, Eq)]
pub enum ImageOf {
    Card,
    Product,
}

/// Where an image is fetched from, and with what query: a card's takes a size and
/// a face, a product's a size.
pub fn image_request(of: ImageOf, game: &str, id: &str, size: &Option<String>, face: &Option<String>) -> (r: (
    String,
    Query,
))
    ensures
        r.0@ == "/api/games/"@ + game@ + (if of == ImageOf::Card {
            "/cards/"@
        } else {
            "/products/"@
        }) + id@ + "/image"@,
        query_view(r.1@) == opt_pair("size", *size) + (if of == ImageOf::Card {
            opt_pair("face", *face)
        } else {
            Seq::empty()
        }),
{
    let mut path = String::from_str("/api/games/");
    path.append(game);
    let mut q: Query = Vec::new();
    push_opt(&mut q, "size", size);
    match of {
        ImageOf::Card => {
            path.append("/cards/");
            push_opt(&mut q, "face", face);
        },
        ImageOf::Product => {
            path.append("/products/");
            assert(query_view(q@) =~= opt_pair("size", *size) + Seq::empty());
        },
    }
    path.append(id);
    path.append("/image");
    (path, q)
}

/// The note once an image is written: `Wrote 2048 bytes to card.jpg.`
pub fn wrote_bytes(n: usize, path: &str) -> (r: String)
    ensures
        r@ == "Wrote "@ + dec_nat(n as nat) + " bytes to "@ + path@ + "."@,
{
    let mut out = String::from_str("Wrote ");
    push_u64(&mut out, n as u64);
    out.append(" bytes to ");
    out.append(path);
    out.append(".");
    out
}

/// A card's price history: the table, or that the range holds none.
pub fn prices_report(points: &Vec<PricePoint>) -> (b: Block)
    ensures
        block_view(b) == (if points@.len() == 0 {
            BlockView::Line("No price history in range."@)
        } else {
            BlockView::Table(
                seq!["Date"@, "USD"@, "Foil"@, "EUR"@, "TIX"@],
                points@.map_values(|x: PricePoint| spec_prices_row(x)),
            )
        }),
{
    if points.len() == 0 {
        Block::Line(String::from_str("No price history in range."))
    } else {
        prices_table(points)
    }
}

/// A card's other printings: the cards table, or that there are none.
pub fn prints_report(cards: &Vec<Card>) -> (b: Block)
    ensures
        block_view(b) == (if cards@.len() == 0 {
            BlockView::Line("No other printings."@)
        } else {
            BlockView::Table(cards_header(), cards@.map_values(|c: Card| spec_cards_row(c)))
        }),
{
    if cards.len() == 0 {
        Block::Line(String::from_str("No other printings."))
    } else {
        cards_table(cards)
    }
}

} // verus!
