//! The deck surface's argument vocabulary and the cells its tables show: command
//! zones, colour identities, combo pieces, id lists and diff quantities.
use crate::models::{
    CollectionQuantities, Deck, DeckCombo, DeckComboMissing, DeckComboPiece, DeckDetail, DeckFolder, DeckImportResponse,
    DeckSection, DeckVisibility,
};
use crate::output::{
    block_view, header_view, push_cell, push_row, rows_view, Block, BlockView,
};
use crate::output::{dash_string, em_dash};
use crate::text::{chars_equal, chars_of, dec_int, join, lemma_map_take_push, lemma_views_push, push_i64, seq_join, views};
use vstd::prelude::*;

verus! {

broadcast use vstd::string::group_string_axioms;

/// `card` counts any printing of a gameplay card; `printing` reports the exact
/// missing printing.
#[derive(Debug, Clone, Copy, PartialEq, Eq)]
pub enum NeededMode {
    Card,
    Printing,
}

impl NeededMode {
    pub open spec fn spec_name(self) -> Seq<char> {
        match self {
            NeededMode::Card => "card"@,
            NeededMode::Printing => "printing"@,
        }
    }

    pub fn as_str(self) -> (r: &'static str)
        ensures
            r@ == self.spec_name(),
    {
        match self {
            NeededMode::Card => "card",
            NeededMode::Printing => "printing",
        }
    }
}

/// A deck-list provider a deck can be imported from.
#[derive(Debug, Clone, Copy, PartialEq, Eq)]
pub enum DeckProvider {
    Archidekt,
    Moxfield,
}

impl DeckProvider {
    pub open spec fn spec_name(self) -> Seq<char> {
        match self {
            DeckProvider::Archidekt => "archidekt"@,
            DeckProvider::Moxfield => "moxfield"@,
        }
    }

    pub fn as_str(self) -> (r: &'static str)
        ensures
            r@ == self.spec_name(),
    {
        match self {
            DeckProvider::Archidekt => "archidekt",
            DeckProvider::Moxfield => "moxfield",
        }
    }
}

/// The format of an uploaded deck-list file.
#[derive(Debug, Clone, Copy, PartialEq, Eq)]
pub enum FileFormat {
    Csv,
    Text,
}

impl FileFormat {
    pub open spec fn spec_name(self) -> Seq<char> {
        match self {
            FileFormat::Csv => "csv"@,
            FileFormat::Text => "text"@,
        }
    }

    pub fn as_str(self) -> (r: &'static str)
        ensures
            r@ == self.spec_name(),
    {
        match self {
            FileFormat::Csv => "csv",
            FileFormat::Text => "text",
        }
    }
}

/// The provider shape a deck is exported in.
#[derive(Debug, Clone, Copy, PartialEq, Eq)]
pub enum DeckExportFormat {
    Archidekt,
    Moxfield,
    MoxfieldText,
}

impl DeckExportFormat {
    pub open spec fn spec_name(self) -> Seq<char> {
        match self {
            DeckExportFormat::Archidekt => "archidekt"@,
            DeckExportFormat::Moxfield => "moxfield"@,
            DeckExportFormat::MoxfieldText => "moxfield-text"@,
        }
    }

    pub fn as_str(self) -> (r: &'static str)
        ensures
            r@ == self.spec_name(),
    {
        match self {
            DeckExportFormat::Archidekt => "archidekt",
            DeckExportFormat::Moxfield => "moxfield",
            DeckExportFormat::MoxfieldText => "moxfield-text",
        }
    }
}

/// A deck's command zone by name (`Thrasios & Tymna`), a dash when it has none.
pub open spec fn spec_commanders(d: Deck) -> Seq<char> {
    if d.commanders@.len() == 0 {
        em_dash()
    } else {
        seq_join(d.commanders@.map_values(|c: crate::models::DeckCommander| c.name@), " & "@)
    }
}

pub fn commanders(d: &Deck) -> (r: String)
    ensures
        r@ == spec_commanders(*d),
{
    if d.commanders.len() == 0 {
        return dash_string();
    }
    let mut names: Vec<String> = Vec::new();
    let mut i: usize = 0;
    while i < d.commanders.len()
        invariant
            i <= d.commanders@.len(),
            views(names@) == d.commanders@.take(i as int).map_values(|c: crate::models::DeckCommander| c.name@),
        decreases d.commanders.len() - i,
    {
        let x = d.commanders[i].name.clone();
        proof {
            lemma_views_push(names@, x);
            lemma_map_take_push(d.commanders@, |c: crate::models::DeckCommander| c.name@, i as int);
        }
        names.push(x);
        i += 1;
    }
    assert(d.commanders@.take(d.commanders@.len() as int) =~= d.commanders@);
    join(names.as_slice(), " & ")
}

/// A colour identity as WUBRG letters — `C` for a deliberately colourless deck, a
/// dash when there was nothing to read a colour off at all.
pub open spec fn spec_identity(colors: Option<Seq<Seq<char>>>) -> Seq<char> {
    match colors {
        None => em_dash(),
        Some(c) => if c.len() == 0 { seq!['C'] } else { seq_join(c, Seq::empty()) },
    }
}

/// The views of an optional list of strings.
pub open spec fn opt_views(v: Option<Vec<String>>) -> Option<Seq<Seq<char>>> {
    match v {
        Some(x) => Some(views(x@)),
        None => None,
    }
}

pub fn identity(colors: &Option<Vec<String>>) -> (r: String)
    ensures
        r@ == spec_identity(opt_views(*colors)),
{
    match colors {
        None => dash_string(),
        Some(c) => {
            if c.len() == 0 {
                let mut s = String::new();
                crate::text::string_push(&mut s, 'C');
                s
            } else {
                let r = join(c.as_slice(), "");
                proof {
                    reveal_strlit("");
                    assert(""@ =~= Seq::<char>::empty());
                }
                r
            }
        },
    }
}

/// The quantity a diff row shows: the foil half spelled out only for a row that
/// differs in its finish split.
pub open spec fn spec_diff_qty(quantity: i64, foil: i64, split: bool) -> Seq<char> {
    if split {
        dec_int(quantity as int) + " ("@ + dec_int(foil as int) + " foil)"@
    } else {
        dec_int(quantity as int)
    }
}

pub fn diff_qty(quantity: i64, foil: i64, split: bool) -> (r: String)
    ensures
        r@ == spec_diff_qty(quantity, foil, split),
{
    let mut out = String::new();
    push_i64(&mut out, quantity);
    if split {
        out.append(" (");
        push_i64(&mut out, foil);
        out.append(" foil)");
    }
    assert(out@ =~= spec_diff_qty(quantity, foil, split));
    out
}

/// Section ids joined by `, `, or `empty` when there are none.
pub open spec fn spec_join_ids(ids: Seq<i64>, empty: Seq<char>) -> Seq<char> {
    if ids.len() == 0 {
        empty
    } else {
        seq_join(ids.map_values(|i: i64| dec_int(i as int)), ", "@)
    }
}

pub fn join_ids(ids: &[i64], empty: &str) -> (r: String)
    ensures
        r@ == spec_join_ids(ids@, empty@),
{
    if ids.len() == 0 {
        return String::from_str(empty);
    }
    let mut parts: Vec<String> = Vec::new();
    let mut i: usize = 0;
    while i < ids.len()
        invariant
            i <= ids@.len(),
            views(parts@) == ids@.take(i as int).map_values(|x: i64| dec_int(x as int)),
        decreases ids.len() - i,
    {
        let x = crate::text::fmt_i64(ids[i]);
        proof {
            lemma_views_push(parts@, x);
            lemma_map_take_push(ids@, |x: i64| dec_int(x as int), i as int);
        }
        parts.push(x);
        i += 1;
    }
    assert(ids@.take(ids@.len() as int) =~= ids@);
    join(parts.as_slice(), ", ")
}

/// One combo piece as a cell fragment: `2× Name`, `Name (commander)`.
pub open spec fn spec_piece(p: DeckComboPiece) -> Seq<char> {
    (if p.quantity > 1 { dec_int(p.quantity as int) + "\u{d7} "@ } else { Seq::empty() }) + p.name@
        + (if p.must_be_commander { " (commander)"@ } else { Seq::empty() })
}

/// A combo's pieces as one cell, in the combo's own order, plus the wildcard
/// templates it also needs in brackets.
pub open spec fn spec_combo_pieces(c: DeckCombo) -> Seq<char> {
    seq_join(
        c.pieces@.map_values(|p: DeckComboPiece| spec_piece(p)) + c.templates@.map_values(|t: String| "["@ + t@ + "]"@),
        " + "@,
    )
}

fn piece_cell(p: &DeckComboPiece) -> (r: String)
    ensures
        r@ == spec_piece(*p),
{
    let mut out = String::new();
    if p.quantity > 1 {
        push_i64(&mut out, p.quantity);
        out.append("\u{d7} ");
    }
    out.append(p.name.as_str());
    if p.must_be_commander {
        out.append(" (commander)");
    }
    assert(out@ =~= spec_piece(*p));
    out
}

pub fn combo_pieces(c: &DeckCombo) -> (r: String)
    ensures
        r@ == spec_combo_pieces(*c),
{
    let ghost want = c.pieces@.map_values(|p: DeckComboPiece| spec_piece(p)) + c.templates@.map_values(|t: String| "["@ + t@ + "]"@);
    let mut parts: Vec<String> = Vec::new();
    let mut i: usize = 0;
    while i < c.pieces.len()
        invariant
            i <= c.pieces@.len(),
            views(parts@) == c.pieces@.take(i as int).map_values(|p: DeckComboPiece| spec_piece(p)),
        decreases c.pieces.len() - i,
    {
        let x = piece_cell(&c.pieces[i]);
        proof {
            lemma_views_push(parts@, x);
            lemma_map_take_push(c.pieces@, |p: DeckComboPiece| spec_piece(p), i as int);
        }
        parts.push(x);
        i += 1;
    }
    assert(c.pieces@.take(c.pieces@.len() as int) =~= c.pieces@);
    let n = parts.len();
    let mut j: usize = 0;
    while j < c.templates.len()
        invariant
            j <= c.templates@.len(),
            n == c.pieces@.len(),
            views(parts@) == c.pieces@.map_values(|p: DeckComboPiece| spec_piece(p)) + c.templates@.take(j as int).map_values(|t: String| "["@ + t@ + "]"@),
        decreases c.templates.len() - j,
    {
        let mut t = String::from_str("[");
        t.append(c.templates[j].as_str());
        t.append("]");
        proof {
            lemma_views_push(parts@, t);
            lemma_map_take_push(c.templates@, |t: String| "["@ + t@ + "]"@, j as int);
        }
        parts.push(t);
        assert(views(parts@) =~= c.pieces@.map_values(|p: DeckComboPiece| spec_piece(p)) + c.templates@.take(j + 1).map_values(|t: String| "["@ + t@ + "]"@));
        j += 1;
    }
    assert(c.templates@.take(c.templates@.len() as int) =~= c.templates@);
    assert(views(parts@) =~= want);
    join(parts.as_slice(), " + ")
}

/// What one missing piece reads as: a template can't be evaluated at all, a
/// commander miss is a card the deck holds elsewhere.
pub open spec fn spec_missing(m: DeckComboMissing) -> Seq<char> {
    if m.kind@ == "template"@ {
        m.name@ + " (any)"@
    } else if m.kind@ == "commander"@ {
        m.name@ + " (as commander)"@
    } else {
        m.name@
    }
}

/// What one "almost" combo still needs.
pub open spec fn spec_combo_missing(c: DeckCombo) -> Seq<char> {
    seq_join(c.missing@.map_values(|m: DeckComboMissing| spec_missing(m)), " + "@)
}

fn missing_cell(m: &DeckComboMissing) -> (r: String)
    ensures
        r@ == spec_missing(*m),
{
    let kc = chars_of(m.kind.as_str());
    let mut out = m.name.clone();
    if chars_equal(kc.as_slice(), "template") {
        out.append(" (any)");
    } else if chars_equal(kc.as_slice(), "commander") {
        out.append(" (as commander)");
    }
    out
}

pub fn combo_missing(c: &DeckCombo) -> (r: String)
    ensures
        r@ == spec_combo_missing(*c),
{
    let mut parts: Vec<String> = Vec::new();
    let mut i: usize = 0;
    while i < c.missing.len()
        invariant
            i <= c.missing@.len(),
            views(parts@) == c.missing@.take(i as int).map_values(|m: DeckComboMissing| spec_missing(m)),
        decreases c.missing.len() - i,
    {
        let x = missing_cell(&c.missing[i]);
        proof {
            lemma_views_push(parts@, x);
            lemma_map_take_push(c.missing@, |m: DeckComboMissing| spec_missing(m), i as int);
        }
        parts.push(x);
        i += 1;
    }
    assert(c.missing@.take(c.missing@.len() as int) =~= c.missing@);
    join(parts.as_slice(), " + ")
}

// ---------------------------------------------------------------------------
// What the deck commands say
// ---------------------------------------------------------------------------

/// Where an imported decklist comes from: a URL or id the provider fetches, or a
/// local file whose contents are sent.
#[derive(Debug, Clone, PartialEq, Eq)]
pub enum ImportFrom {
    Source(String),
    File,
}

/// Why an import was refused before anything was sent.
#[derive(Debug, Clone, Copy, PartialEq, Eq, Structural)]
pub enum ImportArgError {
    /// Both `--source` and `--file`.
    Both,
    /// Neither.
    Neither,
}

impl ImportArgError {
    pub open spec fn spec_message(self) -> Seq<char> {
        match self {
            ImportArgError::Both => "provide only one of --source or --file"@,
            ImportArgError::Neither => "provide --source <url/id> or --file <path>"@,
        }
    }

    pub fn message(self) -> (r: &'static str)
        ensures
            r@ == self.spec_message(),
    {
        match self {
            ImportArgError::Both => "provide only one of --source or --file",
            ImportArgError::Neither => "provide --source <url/id> or --file <path>",
        }
    }
}

/// Exactly one of `--source` and `--file` says where an import comes from.
pub fn import_from(source: Option<String>, has_file: bool) -> (r: Result<ImportFrom, ImportArgError>)
    ensures
        match r {
            Ok(ImportFrom::Source(s)) => source == Some(s) && !has_file,
            Ok(ImportFrom::File) => source is None && has_file,
            Err(e) => (e == ImportArgError::Both <==> (source is Some && has_file)) && (e == ImportArgError::Neither <==> (
            source is None && !has_file)),
        },
        r is Ok <==> (source is Some != has_file),
{
    match source {
        Some(s) => if has_file {
            Err(ImportArgError::Both)
        } else {
            Ok(ImportFrom::Source(s))
        },
        None => if has_file {
            Ok(ImportFrom::File)
        } else {
            Err(ImportArgError::Neither)
        },
    }
}

pub open spec fn spec_created_message(d: DeckDetail) -> Seq<char> {
    "Created deck '"@ + d.name@ + "' (id "@ + dec_int(d.id as int) + ")."@
}

pub fn created_message(d: &DeckDetail) -> (r: String)
    ensures
        r@ == spec_created_message(*d),
{
    let mut out = String::from_str("Created deck '");
    out.append(d.name.as_str());
    out.append("' (id ");
    push_i64(&mut out, d.id);
    out.append(").");
    out
}

pub open spec fn spec_updated_message(d: Deck) -> Seq<char> {
    "Updated deck '"@ + d.name@ + "'."@
}

pub fn updated_message(d: &Deck) -> (r: String)
    ensures
        r@ == spec_updated_message(*d),
{
    let mut out = String::from_str("Updated deck '");
    out.append(d.name.as_str());
    out.append("'.");
    out
}

/// The note after a delete: `Deleted deck 7.` (the noun names what went).
pub open spec fn spec_deleted_note(noun: Seq<char>, id: i64) -> Seq<char> {
    "Deleted "@ + noun + " "@ + dec_int(id as int) + "."@
}

pub fn deleted_note(noun: &str, id: i64) -> (r: String)
    ensures
        r@ == spec_deleted_note(noun@, id),
{
    let mut out = String::from_str("Deleted ");
    out.append(noun);
    out.append(" ");
    push_i64(&mut out, id);
    out.append(".");
    out
}

/// What an import reports: the counts, then a sample of what matched nothing.
pub open spec fn spec_import_summary(r: DeckImportResponse) -> Seq<Seq<char>> {
    seq![
        "Imported '"@ + r.deck.name@ + "' (id "@ + dec_int(r.deck.id as int) + "): "@ + dec_int(r.total_rows as int)
            + " rows, "@ + dec_int(r.matched_cards as int) + " matched, "@ + dec_int(r.unmatched_cards as int)
            + " unmatched."@,
    ] + if r.unmatched_sample@.len() > 0 {
        seq!["  unmatched e.g. "@ + seq_join(views(r.unmatched_sample@), ", "@)]
    } else {
        Seq::empty()
    }
}

pub fn import_summary(r: &DeckImportResponse) -> (out: Vec<String>)
    ensures
        views(out@) == spec_import_summary(*r),
{
    let mut out: Vec<String> = Vec::new();
    let mut l = String::from_str("Imported '");
    l.append(r.deck.name.as_str());
    l.append("' (id ");
    push_i64(&mut l, r.deck.id);
    l.append("): ");
    push_i64(&mut l, r.total_rows);
    l.append(" rows, ");
    push_i64(&mut l, r.matched_cards);
    l.append(" matched, ");
    push_i64(&mut l, r.unmatched_cards);
    l.append(" unmatched.");
    push_cell(&mut out, l);
    if r.unmatched_sample.len() > 0 {
        let mut s = String::from_str("  unmatched e.g. ");
        s.append(join(r.unmatched_sample.as_slice(), ", ").as_str());
        push_cell(&mut out, s);
    }
    assert(views(out@) =~= spec_import_summary(*r));
    out
}

/// Where a deck was filed.
pub open spec fn spec_folder_message(d: Deck) -> Seq<char> {
    match d.folder_id {
        Some(f) => "Deck '"@ + d.name@ + "' filed under folder "@ + dec_int(f as int) + "."@,
        None => "Deck '"@ + d.name@ + "' loosened (no folder)."@,
    }
}

pub fn folder_message(d: &Deck) -> (r: String)
    ensures
        r@ == spec_folder_message(*d),
{
    let mut out = String::from_str("Deck '");
    out.append(d.name.as_str());
    match d.folder_id {
        Some(f) => {
            out.append("' filed under folder ");
            push_i64(&mut out, f);
            out.append(".");
        },
        None => {
            out.append("' loosened (no folder).");
        },
    }
    out
}

pub open spec fn spec_copied_message(d: Deck) -> Seq<char> {
    "Copied '"@ + d.name@ + "' as deck "@ + dec_int(d.id as int) + " (private, same folder)."@
}

pub fn copied_message(d: &Deck) -> (r: String)
    ensures
        r@ == spec_copied_message(*d),
{
    let mut out = String::from_str("Copied '");
    out.append(d.name.as_str());
    out.append("' as deck ");
    push_i64(&mut out, d.id);
    out.append(" (private, same folder).");
    out
}

/// A deck's sharing state.
pub open spec fn spec_visibility_line(v: DeckVisibility) -> Seq<char> {
    "public: "@ + (if v.public {
        "true"@
    } else {
        "false"@
    }) + "  \u{b7}  handle: "@ + match v.handle {
        Some(h) => h@,
        None => "(set a username first)"@,
    }
}

pub fn visibility_line(v: &DeckVisibility) -> (r: String)
    ensures
        r@ == spec_visibility_line(*v),
{
    let mut out = String::from_str("public: ");
    out.append(if v.public { "true" } else { "false" });
    out.append("  \u{b7}  handle: ");
    match &v.handle {
        Some(h) => out.append(h.as_str()),
        None => out.append("(set a username first)"),
    }
    out
}

pub open spec fn spec_folder_row(f: DeckFolder) -> Seq<Seq<char>> {
    seq![dec_int(f.id as int), f.name@, dec_int(f.deck_count as int)]
}

/// The deck folders table.
pub fn folders_table(fs: &Vec<DeckFolder>) -> (b: Block)
    ensures
        block_view(b) == BlockView::Table(seq!["ID"@, "Name"@, "Decks"@], fs@.map_values(|f: DeckFolder| spec_folder_row(f))),
{
    let header = vec!["ID", "Name", "Decks"];
    assert(header_view(header@) =~= seq!["ID"@, "Name"@, "Decks"@]);
    let mut rows: Vec<Vec<String>> = Vec::new();
    let mut i: usize = 0;
    while i < fs.len()
        invariant
            i <= fs@.len(),
            rows_view(rows@) == fs@.take(i as int).map_values(|f: DeckFolder| spec_folder_row(f)),
        decreases fs.len() - i,
    {
        let f = &fs[i];
        let mut row: Vec<String> = Vec::new();
        push_cell(&mut row, crate::text::fmt_i64(f.id));
        push_cell(&mut row, f.name.clone());
        push_cell(&mut row, crate::text::fmt_i64(f.deck_count));
        assert(views(row@) =~= spec_folder_row(fs@[i as int]));
        push_row(&mut rows, row);
        assert(fs@.take(i + 1).map_values(|f: DeckFolder| spec_folder_row(f)) =~= fs@.take(i as int).map_values(
            |f: DeckFolder| spec_folder_row(f),
        ).push(spec_folder_row(fs@[i as int])));
        i += 1;
    }
    assert(fs@.take(fs@.len() as int) =~= fs@);
    Block::Table { header, rows }
}

pub open spec fn spec_folder_created(f: DeckFolder) -> Seq<char> {
    "Created folder '"@ + f.name@ + "' (id "@ + dec_int(f.id as int) + ")."@
}

pub fn folder_created(f: &DeckFolder) -> (r: String)
    ensures
        r@ == spec_folder_created(*f),
{
    let mut out = String::from_str("Created folder '");
    out.append(f.name.as_str());
    out.append("' (id ");
    push_i64(&mut out, f.id);
    out.append(").");
    out
}

pub open spec fn spec_folder_renamed(f: DeckFolder) -> Seq<char> {
    "Renamed folder "@ + dec_int(f.id as int) + " to '"@ + f.name@ + "'."@
}

pub fn folder_renamed(f: &DeckFolder) -> (r: String)
    ensures
        r@ == spec_folder_renamed(*f),
{
    let mut out = String::from_str("Renamed folder ");
    push_i64(&mut out, f.id);
    out.append(" to '");
    out.append(f.name.as_str());
    out.append("'.");
    out
}

pub open spec fn spec_folder_deleted(id: i64) -> Seq<char> {
    "Deleted folder "@ + dec_int(id as int) + " (its decks were ungrouped)."@
}

pub fn folder_deleted(id: i64) -> (r: String)
    ensures
        r@ == spec_folder_deleted(id),
{
    let mut out = String::from_str("Deleted folder ");
    push_i64(&mut out, id);
    out.append(" (its decks were ungrouped).");
    out
}

pub open spec fn spec_section_added(s: DeckSection) -> Seq<char> {
    "Added "@ + (if s.is_maybeboard {
        "maybeboard "@
    } else {
        Seq::empty()
    }) + "section '"@ + s.name@ + "' (id "@ + dec_int(s.id as int) + ")."@
}

pub fn section_added(s: &DeckSection) -> (r: String)
    ensures
        r@ == spec_section_added(*s),
{
    let mut out = String::from_str("Added ");
    if s.is_maybeboard {
        out.append("maybeboard ");
    }
    out.append("section '");
    out.append(s.name.as_str());
    out.append("' (id ");
    push_i64(&mut out, s.id);
    out.append(").");
    out
}

pub open spec fn spec_section_updated(s: DeckSection) -> Seq<char> {
    "Updated section '"@ + s.name@ + "' (position "@ + dec_int(s.position as int) + (if s.is_maybeboard {
        ", maybeboard"@
    } else {
        Seq::empty()
    }) + ")."@
}

pub fn section_updated(s: &DeckSection) -> (r: String)
    ensures
        r@ == spec_section_updated(*s),
{
    let mut out = String::from_str("Updated section '");
    out.append(s.name.as_str());
    out.append("' (position ");
    push_i64(&mut out, s.position);
    if s.is_maybeboard {
        out.append(", maybeboard");
    }
    out.append(").");
    out
}

/// The sections in their new order.
pub open spec fn spec_section_order(ss: Seq<DeckSection>) -> Seq<char> {
    "New order: "@ + seq_join(ss.map_values(|s: DeckSection| s.name@), " \u{2192} "@)
}

pub fn section_order(ss: &Vec<DeckSection>) -> (r: String)
    ensures
        r@ == spec_section_order(ss@),
{
    let mut names: Vec<String> = Vec::new();
    let mut i: usize = 0;
    while i < ss.len()
        invariant
            i <= ss@.len(),
            views(names@) == ss@.take(i as int).map_values(|s: DeckSection| s.name@),
        decreases ss.len() - i,
    {
        push_cell(&mut names, ss[i].name.clone());
        assert(ss@.take(i + 1).map_values(|s: DeckSection| s.name@) =~= ss@.take(i as int).map_values(|s: DeckSection| s.name@).push(
            ss@[i as int].name@,
        ));
        i += 1;
    }
    assert(ss@.take(ss@.len() as int) =~= ss@);
    let mut out = String::from_str("New order: ");
    out.append(join(names.as_slice(), " \u{2192} ").as_str());
    out
}

/// Where a card edit left the card.
pub open spec fn spec_card_now(q: CollectionQuantities) -> Seq<char> {
    "Card now "@ + dec_int(q.quantity as int) + " / "@ + dec_int(q.foil_quantity as int) + " foil in section."@
}

pub fn card_now(q: &CollectionQuantities) -> (r: String)
    ensures
        r@ == spec_card_now(*q),
{
    let mut out = String::from_str("Card now ");
    push_i64(&mut out, q.quantity);
    out.append(" / ");
    push_i64(&mut out, q.foil_quantity);
    out.append(" foil in section.");
    out
}

} // verus!
