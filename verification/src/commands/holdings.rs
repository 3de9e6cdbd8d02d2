//! The holdings surfaces (collection and wish list, and their public mirrors) share
//! one route shape, one set of card filters and one set of reports; this module
//! holds the surface descriptor, the routes and queries it builds, and what the
//! holdings commands print.
use super::{flag_pair, opt_pair, push_flag, push_opt, query_view, Query};
use crate::models::{
    BreakdownBucket, CollectionBreakdown, CollectionDropGroup, CollectionEntry, CollectionQuantities, CollectionSet,
    CollectionSubtypeGroup, Page, ProductHoldingEntry, ProductHoldingSet, ProductHoldingSummary, TopHolding,
};
use crate::output::{
    block_view, collection_header, collection_summary, collection_table, dash, header_view, opt_view, page_note, price,
    product_holdings_table, push_block, push_cell, report_view, spec_collection_row, spec_dash, spec_page_note,
    spec_price, spec_product_holdings_row, spec_summary_lines, str_upper, table_rows, to_upper, truncate, Block,
    BlockView,
};
use crate::text::{dec_int, fmt_i64, push_i64, spec_truncate, views};
use vstd::prelude::*;

verus! {

broadcast use vstd::string::group_string_axioms;

/// Identifies one holdings surface (collection or wish list) for a game.
pub struct Surface {
    /// e.g. `/api/collection/mtg`.
    pub base: String,
    /// Batch card-count route leaf: `owned` (collection) or `counts` (wish list).
    pub batch_route: &'static str,
    /// Batch product-count route leaf.
    pub product_batch_route: &'static str,
    /// Column label for the primary count: `Owned` or `Wanted`.
    pub noun: &'static str,
}

/// Which per-card counter the copy bounds read.
#[derive(Debug, Clone, Copy, PartialEq, Eq)]
pub enum HoldingsFinish {
    /// Regular + foil copies together (the default).
    Any,
    /// Regular copies only — and at least one must be held.
    Regular,
    /// Foil copies only — and at least one must be held.
    Foil,
}

impl HoldingsFinish {
    /// The wire name of the finish.
    pub open spec fn spec_name(self) -> Seq<char> {
        match self {
            HoldingsFinish::Any => "any"@,
            HoldingsFinish::Regular => "regular"@,
            HoldingsFinish::Foil => "foil"@,
        }
    }

    pub fn as_str(self) -> (r: &'static str)
        ensures
            r@ == self.spec_name(),
    {
        match self {
            HoldingsFinish::Any => "any",
            HoldingsFinish::Regular => "regular",
            HoldingsFinish::Foil => "foil",
        }
    }
}

/// The copy-count filters every holdings card listing takes (the list, the card
/// export, the per-set drop/sub-type groupings and the wish-list buy list).
#[derive(Debug, Clone, Copy)]
pub struct CopyFilter {
    /// Keep only cards held in at least this many copies.
    pub min_copies: Option<i64>,
    /// Keep only cards held in at most this many copies.
    pub max_copies: Option<i64>,
    /// Which counter the copy bounds read.
    pub finish: Option<HoldingsFinish>,
}

impl CopyFilter {
    /// The pairs the filter contributes, in order.
    pub open spec fn pairs(self) -> Seq<(Seq<char>, Seq<char>)> {
        opt_pair("min_copies", self.min_copies) + opt_pair("max_copies", self.max_copies)
            + match self.finish {
            Some(f) => seq![("finish"@, f.spec_name())],
            None => Seq::empty(),
        }
    }

    /// Push whichever bounds were given onto a query vec.
    pub fn push(&self, q: &mut Vec<(&'static str, String)>)
        ensures
            query_view(final(q)@) == query_view(old(q)@) + self.pairs(),
    {
        push_opt(q, "min_copies", &self.min_copies);
        push_opt(q, "max_copies", &self.max_copies);
        let ghost mid = q@;
        if let Some(f) = self.finish {
            let s = String::from_str(f.as_str());
            q.push(("finish", s));
            assert(query_view(q@) =~= query_view(mid).push(("finish"@, f.spec_name())));
        }
        assert(query_view(q@) =~= query_view(old(q)@) + self.pairs());
    }
}

/// The full filter set of a holdings card search — the search itself plus the
/// copy-count bounds. Shared by `list`, `export-cards` and the wish list's
/// `buy-list`, which all honour exactly the same parameters.
#[derive(Debug, Clone)]
pub struct ListFilter {
    /// Scryfall-style search filter.
    pub query: Option<String>,
    /// Scope to one set code.
    pub set: Option<String>,
    /// With `set`, span the set's whole group.
    pub related: bool,
    /// Sort key: updated | quantity | name | rarity | released | cmc | price.
    pub sort: Option<String>,
    /// Direction: asc | desc.
    pub dir: Option<String>,
    pub copies: CopyFilter,
}

impl ListFilter {
    /// The pairs the filter contributes, in order.
    pub open spec fn pairs(self) -> Seq<(Seq<char>, Seq<char>)> {
        opt_pair("q", self.query) + opt_pair("set", self.set) + opt_pair("sort", self.sort)
            + opt_pair("dir", self.dir) + flag_pair("include_related", self.related)
            + self.copies.pairs()
    }

    /// Push every filter that was given onto a query vec.
    pub fn push(&self, q: &mut Vec<(&'static str, String)>)
        ensures
            query_view(final(q)@) == query_view(old(q)@) + self.pairs(),
    {
        push_opt(q, "q", &self.query);
        push_opt(q, "set", &self.set);
        push_opt(q, "sort", &self.sort);
        push_opt(q, "dir", &self.dir);
        push_flag(q, "include_related", self.related);
        self.copies.push(q);
        assert(query_view(q@) =~= query_view(old(q)@) + self.pairs());
    }
}

// ---------------------------------------------------------------------------
// Surfaces and their routes
// ---------------------------------------------------------------------------

impl Surface {
    /// The signed-in user's collection for a game.
    pub fn collection(game: &str) -> (s: Surface)
        ensures
            s.base@ == "/api/collection/"@ + game@,
            s.batch_route@ == "owned"@,
            s.product_batch_route@ == "owned"@,
            s.noun@ == "Owned"@,
    {
        let mut base = String::from_str("/api/collection/");
        base.append(game);
        Surface { base, batch_route: "owned", product_batch_route: "owned", noun: "Owned" }
    }

    /// The signed-in user's wish list for a game.
    pub fn wishlist(game: &str) -> (s: Surface)
        ensures
            s.base@ == "/api/wishlist/"@ + game@,
            s.batch_route@ == "counts"@,
            s.product_batch_route@ == "counts"@,
            s.noun@ == "Wanted"@,
    {
        let mut base = String::from_str("/api/wishlist/");
        base.append(game);
        Surface { base, batch_route: "counts", product_batch_route: "counts", noun: "Wanted" }
    }

    /// Another user's public collection for a game.
    pub fn public_collection(handle: &str, game: &str) -> (s: Surface)
        ensures
            s.base@ == "/api/u/"@ + handle@ + "/"@ + game@,
            s.batch_route@ == "owned"@,
            s.product_batch_route@ == "owned"@,
            s.noun@ == "Owned"@,
    {
        let mut base = String::from_str("/api/u/");
        base.append(handle);
        base.append("/");
        base.append(game);
        Surface { base, batch_route: "owned", product_batch_route: "owned", noun: "Owned" }
    }

    /// Another user's public wish list for a game.
    pub fn public_wishlist(handle: &str, game: &str) -> (s: Surface)
        ensures
            s.base@ == "/api/u/"@ + handle@ + "/wishlist/"@ + game@,
            s.batch_route@ == "owned"@,
            s.product_batch_route@ == "owned"@,
            s.noun@ == "Wanted"@,
    {
        let mut base = String::from_str("/api/u/");
        base.append(handle);
        base.append("/wishlist/");
        base.append(game);
        Surface { base, batch_route: "owned", product_batch_route: "owned", noun: "Wanted" }
    }

    /// A route under the surface: `{base}/{leaf}`.
    pub fn path(&self, leaf: &str) -> (r: String)
        ensures
            r@ == self.base@ + "/"@ + leaf@,
    {
        let mut out = self.base.clone();
        out.append("/");
        out.append(leaf);
        out
    }

    /// One card's counts: `{base}/cards/{card_id}`.
    pub fn card_path(&self, card_id: &str) -> (r: String)
        ensures
            r@ == self.base@ + "/cards/"@ + card_id@,
    {
        let mut out = self.base.clone();
        out.append("/cards/");
        out.append(card_id);
        out
    }

    /// One product's counts: `{base}/products/{product_id}`.
    pub fn product_path(&self, product_id: &str) -> (r: String)
        ensures
            r@ == self.base@ + "/products/"@ + product_id@,
    {
        let mut out = self.base.clone();
        out.append("/products/");
        out.append(product_id);
        out
    }

    /// One set's grouping of the holdings: `{base}/sets/{code}/{kind}` (`drops` or
    /// `subtypes`).
    pub fn group_path(&self, code: &str, kind: &str) -> (r: String)
        ensures
            r@ == self.base@ + "/sets/"@ + code@ + "/"@ + kind@,
    {
        let mut out = self.base.clone();
        out.append("/sets/");
        out.append(code);
        out.append("/");
        out.append(kind);
        out
    }
}

// ---------------------------------------------------------------------------
// Queries
// ---------------------------------------------------------------------------

/// The query of a holdings card listing: the filters, then the page.
pub fn list_query(filter: &ListFilter, page: Option<u32>, page_size: Option<u32>) -> (q: Query)
    ensures
        query_view(q@) == filter.pairs() + opt_pair("page", page) + opt_pair("page_size", page_size),
{
    let mut q: Query = Vec::new();
    filter.push(&mut q);
    push_opt(&mut q, "page", &page);
    push_opt(&mut q, "page_size", &page_size);
    q
}

/// The query of a holdings summary: the set scope, then the bulk cutoff.
pub fn summary_query(set: &Option<String>, related: bool, bulk_max: Option<i64>) -> (q: Query)
    ensures
        query_view(q@) == opt_pair("set", *set) + flag_pair("include_related", related) + opt_pair(
            "bulk_max_cents",
            bulk_max,
        ),
{
    let mut q: Query = Vec::new();
    push_opt(&mut q, "set", set);
    push_flag(&mut q, "include_related", related);
    push_opt(&mut q, "bulk_max_cents", &bulk_max);
    q
}

/// The query of the per-set tiles and of the breakdown: the bulk cutoff alone.
pub fn bulk_query(bulk_max: Option<i64>) -> (q: Query)
    ensures
        query_view(q@) == opt_pair("bulk_max_cents", bulk_max),
{
    let mut q: Query = Vec::new();
    push_opt(&mut q, "bulk_max_cents", &bulk_max);
    q
}

/// The query of a set's drop or sub-type grouping.
pub fn group_query(query: &Option<String>, copies: &CopyFilter, page: Option<u32>, page_size: Option<u32>) -> (q:
    Query)
    ensures
        query_view(q@) == opt_pair("q", *query) + copies.pairs() + opt_pair("page", page) + opt_pair(
            "page_size",
            page_size,
        ),
{
    let mut q: Query = Vec::new();
    push_opt(&mut q, "q", query);
    copies.push(&mut q);
    push_opt(&mut q, "page", &page);
    push_opt(&mut q, "page_size", &page_size);
    q
}

/// The query of a held-products listing.
pub fn products_query(set: &Option<String>, page: Option<u32>, page_size: Option<u32>) -> (q: Query)
    ensures
        query_view(q@) == opt_pair("set", *set) + opt_pair("page", page) + opt_pair("page_size", page_size),
{
    let mut q: Query = Vec::new();
    push_opt(&mut q, "set", set);
    push_opt(&mut q, "page", &page);
    push_opt(&mut q, "page_size", &page_size);
    q
}

/// Where a card export is fetched from, and with what query: the whole result set
/// of the same search the listing runs.
pub fn export_cards(s: &Surface, filter: &ListFilter) -> (r: (String, Query))
    ensures
        r.0@ == s.base@ + "/cards/export"@,
        query_view(r.1@) == filter.pairs(),
{
    let mut q: Query = Vec::new();
    filter.push(&mut q);
    let mut path = s.base.clone();
    path.append("/cards/export");
    (path, q)
}

// ---------------------------------------------------------------------------
// Counts
// ---------------------------------------------------------------------------

/// The counts an `add` sends: what is held now plus what is added.
pub fn add(current: &CollectionQuantities, qty: i64, foil: i64) -> (r: CollectionQuantities)
    requires
        i64::MIN <= current.quantity + qty <= i64::MAX,
        i64::MIN <= current.foil_quantity + foil <= i64::MAX,
    ensures
        r.quantity == current.quantity + qty,
        r.foil_quantity == current.foil_quantity + foil,
{
    CollectionQuantities { quantity: current.quantity + qty, foil_quantity: current.foil_quantity + foil }
}

/// What setting a card's counts reports.
pub open spec fn spec_set_note(q: CollectionQuantities) -> Seq<char> {
    if q.quantity == 0 && q.foil_quantity == 0 {
        "Removed."@
    } else {
        "Set to "@ + dec_int(q.quantity as int) + " regular / "@ + dec_int(q.foil_quantity as int) + " foil."@
    }
}

/// The note after a card's counts were set: `Removed.` when both are zero.
pub fn set(q: &CollectionQuantities) -> (r: String)
    ensures
        r@ == spec_set_note(*q),
{
    if q.quantity == 0 && q.foil_quantity == 0 {
        String::from_str("Removed.")
    } else {
        let mut out = String::from_str("Set to ");
        push_i64(&mut out, q.quantity);
        out.append(" regular / ");
        push_i64(&mut out, q.foil_quantity);
        out.append(" foil.");
        out
    }
}

/// What setting a product's counts reports.
pub open spec fn spec_product_set_note(q: CollectionQuantities) -> Seq<char> {
    if q.quantity == 0 && q.foil_quantity == 0 {
        "Removed."@
    } else {
        "Set to "@ + dec_int(q.quantity as int) + " / "@ + dec_int(q.foil_quantity as int) + " foil."@
    }
}

/// The note after a product's counts were set: `Removed.` when both are zero.
pub fn product_set_note(q: &CollectionQuantities) -> (r: String)
    ensures
        r@ == spec_product_set_note(*q),
{
    if q.quantity == 0 && q.foil_quantity == 0 {
        String::from_str("Removed.")
    } else {
        let mut out = String::from_str("Set to ");
        push_i64(&mut out, q.quantity);
        out.append(" / ");
        push_i64(&mut out, q.foil_quantity);
        out.append(" foil.");
        out
    }
}

/// One card's or product's counts on a line.
pub open spec fn spec_quantities_line(q: CollectionQuantities) -> Seq<char> {
    "regular: "@ + dec_int(q.quantity as int) + "   foil: "@ + dec_int(q.foil_quantity as int)
}

pub fn quantities_line(q: &CollectionQuantities) -> (r: String)
    ensures
        r@ == spec_quantities_line(*q),
{
    let mut out = String::from_str("regular: ");
    push_i64(&mut out, q.quantity);
    out.append("   foil: ");
    push_i64(&mut out, q.foil_quantity);
    out
}

pub open spec fn spec_counts_row(p: (String, CollectionQuantities)) -> Seq<Seq<char>> {
    seq![p.0@, dec_int(p.1.quantity as int), dec_int(p.1.foil_quantity as int)]
}

fn counts_row(p: &(String, CollectionQuantities)) -> (r: Vec<String>)
    ensures
        views(r@) == spec_counts_row(*p),
{
    let mut row: Vec<String> = Vec::new();
    push_cell(&mut row, p.0.clone());
    push_cell(&mut row, fmt_i64(p.1.quantity));
    push_cell(&mut row, fmt_i64(p.1.foil_quantity));
    assert(views(row@) =~= spec_counts_row(*p));
    row
}

/// What a batch count prints for the ids held, given in id order.
pub open spec fn spec_batch_counts(counts: Seq<(String, CollectionQuantities)>) -> BlockView {
    if counts.len() == 0 {
        BlockView::Line("(none held)"@)
    } else {
        BlockView::Table(
            seq!["ID"@, "Regular"@, "Foil"@],
            counts.map_values(|p: (String, CollectionQuantities)| spec_counts_row(p)),
        )
    }
}

/// The batch counts of the held ids: a table of id, regular and foil copies, or
/// `(none held)`.
pub fn batch_counts(counts: &Vec<(String, CollectionQuantities)>) -> (b: Block)
    ensures
        block_view(b) == spec_batch_counts(counts@),
{
    if counts.len() == 0 {
        Block::Line(String::from_str("(none held)"))
    } else {
        let header = vec!["ID", "Regular", "Foil"];
        assert(header_view(header@) =~= seq!["ID"@, "Regular"@, "Foil"@]);
        let rows = table_rows(counts, counts_row, Ghost(|p: (String, CollectionQuantities)| spec_counts_row(p)));
        Block::Table { header, rows }
    }
}

// ---------------------------------------------------------------------------
// Reports
// ---------------------------------------------------------------------------

/// A page of holdings: the table (its count column headed `noun`), then where the
/// page sits.
pub open spec fn spec_list(page: Page<CollectionEntry>, noun: Seq<char>) -> Seq<BlockView> {
    seq![
        BlockView::Table(
            collection_header(noun),
            page.data@.map_values(|e: CollectionEntry| spec_collection_row(e)),
        ),
        BlockView::Note(spec_page_note(page.page, page.total, "cards"@, page.has_more)),
    ]
}

pub fn list(page: &Page<CollectionEntry>, noun: &'static str) -> (out: Vec<Block>)
    ensures
        report_view(out@) == spec_list(*page, noun@),
{
    let mut out: Vec<Block> = Vec::new();
    push_block(&mut out, collection_table(&page.data, noun));
    push_block(&mut out, Block::Note(page_note(page.page, page.total, "cards", page.has_more)));
    assert(report_view(out@) =~= spec_list(*page, noun@));
    out
}

pub open spec fn spec_sets_row(cs: CollectionSet) -> Seq<Seq<char>> {
    seq![
        str_upper(cs.code@),
        spec_truncate(cs.name@, 36),
        dec_int(cs.owned_cards as int),
        dec_int(cs.owned_copies as int),
        spec_price(opt_view(cs.owned_value_usd)),
        spec_price(opt_view(cs.owned_bulk_value_usd)),
    ]
}

fn sets_row(cs: &CollectionSet) -> (r: Vec<String>)
    ensures
        views(r@) == spec_sets_row(*cs),
{
    let mut row: Vec<String> = Vec::new();
    push_cell(&mut row, to_upper(cs.code.as_str()));
    push_cell(&mut row, truncate(cs.name.as_str(), 36));
    push_cell(&mut row, fmt_i64(cs.owned_cards));
    push_cell(&mut row, fmt_i64(cs.owned_copies));
    push_cell(&mut row, price(&cs.owned_value_usd));
    push_cell(&mut row, price(&cs.owned_bulk_value_usd));
    assert(views(row@) =~= spec_sets_row(*cs));
    row
}

/// The per-set tiles: code, name, cards and copies held, value and bulk value.
pub fn sets(tiles: &Vec<CollectionSet>) -> (b: Block)
    ensures
        block_view(b) == BlockView::Table(
            seq!["Code"@, "Name"@, "Cards"@, "Copies"@, "Value"@, "Bulk"@],
            tiles@.map_values(|cs: CollectionSet| spec_sets_row(cs)),
        ),
{
    let header = vec!["Code", "Name", "Cards", "Copies", "Value", "Bulk"];
    assert(header_view(header@) =~= seq!["Code"@, "Name"@, "Cards"@, "Copies"@, "Value"@, "Bulk"@]);
    let rows = table_rows(tiles, sets_row, Ghost(|cs: CollectionSet| spec_sets_row(cs)));
    Block::Table { header, rows }
}

pub open spec fn spec_bucket_row(b: BreakdownBucket) -> Seq<Seq<char>> {
    seq![b.key@, dec_int(b.cards as int), dec_int(b.copies as int), spec_price(opt_view(b.value_usd))]
}

fn bucket_row(b: &BreakdownBucket) -> (r: Vec<String>)
    ensures
        views(r@) == spec_bucket_row(*b),
{
    let mut row: Vec<String> = Vec::new();
    push_cell(&mut row, b.key.clone());
    push_cell(&mut row, fmt_i64(b.cards));
    push_cell(&mut row, fmt_i64(b.copies));
    push_cell(&mut row, price(&b.value_usd));
    assert(views(row@) =~= spec_bucket_row(*b));
    row
}

/// One breakdown facet: its label, then a small table; nothing when it is empty.
pub open spec fn spec_facet(label: Seq<char>, buckets: Seq<BreakdownBucket>) -> Seq<BlockView> {
    if buckets.len() == 0 {
        Seq::empty()
    } else {
        seq![
            BlockView::Line("\n"@ + label + ":"@),
            BlockView::Table(
                seq!["Key"@, "Cards"@, "Copies"@, "Value"@],
                buckets.map_values(|b: BreakdownBucket| spec_bucket_row(b)),
            ),
        ]
    }
}

fn facet_table(out: &mut Vec<Block>, label: &str, buckets: &Vec<BreakdownBucket>)
    ensures
        report_view(final(out)@) == report_view(old(out)@) + spec_facet(label@, buckets@),
{
    if buckets.len() == 0 {
        assert(report_view(out@) =~= report_view(old(out)@) + spec_facet(label@, buckets@));
        return ;
    }
    let mut head = String::from_str("\n");
    head.append(label);
    head.append(":");
    push_block(out, Block::Line(head));
    let header = vec!["Key", "Cards", "Copies", "Value"];
    assert(header_view(header@) =~= seq!["Key"@, "Cards"@, "Copies"@, "Value"@]);
    let rows = table_rows(buckets, bucket_row, Ghost(|b: BreakdownBucket| spec_bucket_row(b)));
    push_block(out, Block::Table { header, rows });
    assert(report_view(out@) =~= report_view(old(out)@) + spec_facet(label@, buckets@));
}

pub open spec fn spec_top_row(h: TopHolding) -> Seq<Seq<char>> {
    seq![
        spec_truncate(h.card.name@, 32),
        str_upper(h.card.set_code@),
        h.card.collector_number@,
        dec_int(h.quantity as int),
        dec_int(h.foil_quantity as int),
        "$"@ + h.value_usd@,
    ]
}

fn top_row(h: &TopHolding) -> (r: Vec<String>)
    ensures
        views(r@) == spec_top_row(*h),
{
    let mut row: Vec<String> = Vec::new();
    push_cell(&mut row, truncate(h.card.name.as_str(), 32));
    push_cell(&mut row, to_upper(h.card.set_code.as_str()));
    push_cell(&mut row, h.card.collector_number.clone());
    push_cell(&mut row, fmt_i64(h.quantity));
    push_cell(&mut row, fmt_i64(h.foil_quantity));
    let mut v = String::from_str("$");
    v.append(h.value_usd.as_str());
    push_cell(&mut row, v);
    assert(views(row@) =~= spec_top_row(*h));
    row
}

/// The summary lines, each a block of its own.
pub open spec fn spec_summary_blocks(b: CollectionBreakdown) -> Seq<BlockView> {
    spec_summary_lines(b.summary).map_values(|l: Seq<char>| BlockView::Line(l))
}

/// Where the holdings' value sits: the summary, the four facets, the most valuable
/// holdings, and how many held cards have no priced finish.
pub open spec fn spec_breakdown(b: CollectionBreakdown) -> Seq<BlockView> {
    spec_summary_blocks(b) + spec_facet("By rarity"@, b.rarity@) + spec_facet("By colour identity"@, b.color@)
        + spec_facet("By card type"@, b.card_type@) + spec_facet("By finish"@, b.finish@) + (if b.top@.len() > 0 {
        seq![
            BlockView::Line("\nTop holdings (by held value):"@),
            BlockView::Table(
                seq!["Name"@, "Set"@, "#"@, "Qty"@, "Foil"@, "Held value"@],
                b.top@.map_values(|h: TopHolding| spec_top_row(h)),
            ),
        ]
    } else {
        Seq::empty()
    }) + (if b.unpriced_cards > 0 {
        seq![
            BlockView::Line(
                "\n"@ + dec_int(b.unpriced_cards as int)
                    + " card(s) add nothing above \u{2014} no finish they're held in is priced."@,
            ),
        ]
    } else {
        Seq::empty()
    })
}

pub fn breakdown(b: &CollectionBreakdown) -> (out: Vec<Block>)
    ensures
        report_view(out@) == spec_breakdown(*b),
{
    let mut out: Vec<Block> = Vec::new();
    let lines = collection_summary(&b.summary);
    let mut i: usize = 0;
    while i < lines.len()
        invariant
            i <= lines@.len(),
            views(lines@) == spec_summary_lines(b.summary),
            report_view(out@) == views(lines@).take(i as int).map_values(|l: Seq<char>| BlockView::Line(l)),
        decreases lines.len() - i,
    {
        let l = lines[i].clone();
        push_block(&mut out, Block::Line(l));
        assert(views(lines@).take(i + 1).map_values(|l: Seq<char>| BlockView::Line(l)) =~= views(lines@).take(
            i as int,
        ).map_values(|l: Seq<char>| BlockView::Line(l)).push(BlockView::Line(lines@[i as int]@)));
        i += 1;
    }
    assert(views(lines@).take(lines@.len() as int) =~= views(lines@));
    facet_table(&mut out, "By rarity", &b.rarity);
    facet_table(&mut out, "By colour identity", &b.color);
    facet_table(&mut out, "By card type", &b.card_type);
    facet_table(&mut out, "By finish", &b.finish);
    let ghost facets = report_view(out@);
    if b.top.len() > 0 {
        push_block(&mut out, Block::Line(String::from_str("\nTop holdings (by held value):")));
        let header = vec!["Name", "Set", "#", "Qty", "Foil", "Held value"];
        assert(header_view(header@) =~= seq!["Name"@, "Set"@, "#"@, "Qty"@, "Foil"@, "Held value"@]);
        let rows = table_rows(&b.top, top_row, Ghost(|h: TopHolding| spec_top_row(h)));
        push_block(&mut out, Block::Table { header, rows });
    }
    let ghost tops = report_view(out@);
    if b.unpriced_cards > 0 {
        let mut line = String::from_str("\n");
        push_i64(&mut line, b.unpriced_cards);
        line.append(" card(s) add nothing above \u{2014} no finish they're held in is priced.");
        push_block(&mut out, Block::Line(line));
    }
    assert(report_view(out@) =~= spec_breakdown(*b));
    out
}

/// The heading over one group of a set's holdings.
pub open spec fn spec_group_heading(title: Seq<char>, count: i64) -> Seq<char> {
    "\n== "@ + title + " ("@ + dec_int(count as int) + " cards) =="@
}

fn group_heading(title: &String, count: i64) -> (r: String)
    ensures
        r@ == spec_group_heading(title@, count),
{
    let mut out = String::from_str("\n== ");
    out.append(title.as_str());
    out.append(" (");
    push_i64(&mut out, count);
    out.append(" cards) ==");
    out
}

/// Each drop of a set: its heading, then its holdings.
pub open spec fn spec_set_drops(groups: Seq<CollectionDropGroup>, noun: Seq<char>) -> Seq<BlockView>
    decreases groups.len(),
{
    if groups.len() == 0 {
        Seq::empty()
    } else {
        let g = groups.last();
        spec_set_drops(groups.drop_last(), noun) + seq![
            BlockView::Line(spec_group_heading(g.title@, g.card_count)),
            BlockView::Table(collection_header(noun), g.cards@.map_values(|e: CollectionEntry| spec_collection_row(e))),
        ]
    }
}

pub fn set_drops(groups: &Vec<CollectionDropGroup>, noun: &'static str) -> (out: Vec<Block>)
    ensures
        report_view(out@) == spec_set_drops(groups@, noun@),
{
    let mut out: Vec<Block> = Vec::new();
    let mut i: usize = 0;
    while i < groups.len()
        invariant
            i <= groups@.len(),
            report_view(out@) == spec_set_drops(groups@.take(i as int), noun@),
        decreases groups.len() - i,
    {
        let g = &groups[i];
        push_block(&mut out, Block::Line(group_heading(&g.title, g.card_count)));
        push_block(&mut out, collection_table(&g.cards, noun));
        assert(groups@.take(i + 1).drop_last() =~= groups@.take(i as int));
        i += 1;
    }
    assert(groups@.take(groups@.len() as int) =~= groups@);
    out
}

/// Each sub-type of a set: its heading, then its holdings.
pub open spec fn spec_set_subtypes(groups: Seq<CollectionSubtypeGroup>, noun: Seq<char>) -> Seq<BlockView>
    decreases groups.len(),
{
    if groups.len() == 0 {
        Seq::empty()
    } else {
        let g = groups.last();
        spec_set_subtypes(groups.drop_last(), noun) + seq![
            BlockView::Line(spec_group_heading(g.title@, g.card_count)),
            BlockView::Table(collection_header(noun), g.cards@.map_values(|e: CollectionEntry| spec_collection_row(e))),
        ]
    }
}

pub fn set_subtypes(groups: &Vec<CollectionSubtypeGroup>, noun: &'static str) -> (out: Vec<Block>)
    ensures
        report_view(out@) == spec_set_subtypes(groups@, noun@),
{
    let mut out: Vec<Block> = Vec::new();
    let mut i: usize = 0;
    while i < groups.len()
        invariant
            i <= groups@.len(),
            report_view(out@) == spec_set_subtypes(groups@.take(i as int), noun@),
        decreases groups.len() - i,
    {
        let g = &groups[i];
        push_block(&mut out, Block::Line(group_heading(&g.title, g.card_count)));
        push_block(&mut out, collection_table(&g.cards, noun));
        assert(groups@.take(i + 1).drop_last() =~= groups@.take(i as int));
        i += 1;
    }
    assert(groups@.take(groups@.len() as int) =~= groups@);
    out
}

/// A page of held products: the table, then where the page sits.
pub open spec fn spec_products_list(page: Page<ProductHoldingEntry>) -> Seq<BlockView> {
    seq![
        BlockView::Table(
            seq!["ID"@, "Name"@, "Set"@, "Type"@, "Qty"@, "Foil"@, "USD"@],
            page.data@.map_values(|x: ProductHoldingEntry| spec_product_holdings_row(x)),
        ),
        BlockView::Note(spec_page_note(page.page, page.total, "products"@, page.has_more)),
    ]
}

pub fn products_list(page: &Page<ProductHoldingEntry>) -> (out: Vec<Block>)
    ensures
        report_view(out@) == spec_products_list(*page),
{
    let mut out: Vec<Block> = Vec::new();
    push_block(&mut out, product_holdings_table(&page.data));
    push_block(&mut out, Block::Note(page_note(page.page, page.total, "products", page.has_more)));
    assert(report_view(out@) =~= spec_products_list(*page));
    out
}

pub open spec fn spec_products_summary(s: ProductHoldingSummary) -> Seq<Seq<char>> {
    seq![
        "Unique products : "@ + dec_int(s.unique_products as int),
        "Total products  : "@ + dec_int(s.total_products as int),
        "Total value     : "@ + spec_price(opt_view(s.total_value_usd)),
    ]
}

/// The three lines of a held-products summary.
pub fn products_summary(s: &ProductHoldingSummary) -> (r: Vec<String>)
    ensures
        views(r@) == spec_products_summary(*s),
{
    let mut r: Vec<String> = Vec::new();
    let mut a = String::from_str("Unique products : ");
    push_i64(&mut a, s.unique_products);
    push_cell(&mut r, a);
    let mut b = String::from_str("Total products  : ");
    push_i64(&mut b, s.total_products);
    push_cell(&mut r, b);
    let mut c = String::from_str("Total value     : ");
    let pc = price(&s.total_value_usd);
    c.append(pc.as_str());
    push_cell(&mut r, c);
    assert(views(r@) =~= spec_products_summary(*s));
    r
}

pub open spec fn spec_products_sets_row(ps: ProductHoldingSet) -> Seq<Seq<char>> {
    seq![
        str_upper(ps.code@),
        spec_dash(opt_view(ps.name)),
        dec_int(ps.unique_products as int),
        dec_int(ps.total_products as int),
        spec_price(opt_view(ps.total_value_usd)),
    ]
}

fn products_sets_row(ps: &ProductHoldingSet) -> (r: Vec<String>)
    ensures
        views(r@) == spec_products_sets_row(*ps),
{
    let mut row: Vec<String> = Vec::new();
    push_cell(&mut row, to_upper(ps.code.as_str()));
    push_cell(&mut row, dash(&ps.name));
    push_cell(&mut row, fmt_i64(ps.unique_products));
    push_cell(&mut row, fmt_i64(ps.total_products));
    push_cell(&mut row, price(&ps.total_value_usd));
    assert(views(row@) =~= spec_products_sets_row(*ps));
    row
}

/// The per-set held-product tiles: set, name, unique and total products, value.
pub fn products_sets(tiles: &Vec<ProductHoldingSet>) -> (b: Block)
    ensures
        block_view(b) == BlockView::Table(
            seq!["Set"@, "Name"@, "Unique"@, "Total"@, "Value"@],
            tiles@.map_values(|ps: ProductHoldingSet| spec_products_sets_row(ps)),
        ),
{
    let header = vec!["Set", "Name", "Unique", "Total", "Value"];
    assert(header_view(header@) =~= seq!["Set"@, "Name"@, "Unique"@, "Total"@, "Value"@]);
    let rows = table_rows(tiles, products_sets_row, Ghost(|ps: ProductHoldingSet| spec_products_sets_row(ps)));
    Block::Table { header, rows }
}

} // verus!
