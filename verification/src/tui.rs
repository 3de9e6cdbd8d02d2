//! The interactive browser's navigation, without the terminal: a screen stack that
//! never runs empty, list selection that stays on the list, paging that stays on
//! real pages, and the holdings edits the `+`/`-`/`f`/`F`/`r` keys make.
use crate::output::truncate;
use crate::text::{dec_int, push_i64, seq_join, spec_truncate};
use vstd::prelude::*;

pub mod app;
pub mod view;

verus! {

broadcast use vstd::string::group_string_axioms;

/// The navigation stack. Enter descends, Esc goes back; the bottom screen is never
/// popped, so there is always a screen to draw.
pub struct ScreenStack<S> {
    bottom: S,
    above: Vec<S>,
}

impl<S> ScreenStack<S> {
    /// The screens, bottom first.
    pub closed spec fn spec_screens(self) -> Seq<S> {
        seq![self.bottom] + self.above@
    }

    /// A stack holding just `first`.
    pub fn new(first: S) -> (r: Self)
        ensures
            r.spec_screens() == seq![first],
    {
        let r = ScreenStack { bottom: first, above: Vec::new() };
        assert(r.spec_screens() =~= seq![first]);
        r
    }

    /// How many screens are stacked (at least one).
    pub fn len(&self) -> (n: usize)
        requires
            self.spec_screens().len() <= usize::MAX,
        ensures
            n == self.spec_screens().len(),
            n >= 1,
    {
        self.above.len() + 1
    }

    /// How many screens sit above the bottom one.
    pub fn depth(&self) -> (n: usize)
        ensures
            n + 1 == self.spec_screens().len(),
    {
        self.above.len()
    }

    /// Descend into a new screen.
    pub fn push(&mut self, s: S)
        ensures
            final(self).spec_screens() == old(self).spec_screens().push(s),
    {
        self.above.push(s);
        assert(self.spec_screens() =~= old(self).spec_screens().push(s));
    }

    /// Go back one screen; the bottom screen stays. Answers whether a screen was
    /// popped.
    pub fn pop(&mut self) -> (popped: bool)
        ensures
            popped == (old(self).spec_screens().len() > 1),
            popped ==> final(self).spec_screens() == old(self).spec_screens().drop_last(),
            !popped ==> final(self).spec_screens() == old(self).spec_screens(),
            final(self).spec_screens().len() >= 1,
    {
        if self.above.len() > 0 {
            self.above.pop();
            assert(self.spec_screens() =~= old(self).spec_screens().drop_last());
            true
        } else {
            false
        }
    }

    /// The screen on top.
    pub fn top(&self) -> (r: &S)
        ensures
            *r == self.spec_screens().last(),
    {
        let n = self.above.len();
        if n == 0 {
            &self.bottom
        } else {
            &self.above[n - 1]
        }
    }

    /// Put `s` on top in place of the screen there, and hand that screen back (a
    /// page turn redraws in place).
    pub fn swap_top(&mut self, s: S) -> (prev: S)
        ensures
            prev == old(self).spec_screens().last(),
            final(self).spec_screens() == old(self).spec_screens().update(old(self).spec_screens().len() - 1, s),
    {
        let n = self.above.len();
        if n == 0 {
            let mut t = s;
            std::mem::swap(&mut self.bottom, &mut t);
            assert(self.spec_screens() =~= old(self).spec_screens().update(old(self).spec_screens().len() - 1, s));
            t
        } else {
            let t = self.above.pop().unwrap();
            self.above.push(s);
            assert(self.spec_screens() =~= old(self).spec_screens().update(old(self).spec_screens().len() - 1, s));
            t
        }
    }

    /// The `i`-th screen from the bottom (for the breadcrumb).
    pub fn get(&self, i: usize) -> (r: &S)
        requires
            i < self.spec_screens().len(),
        ensures
            *r == self.spec_screens()[i as int],
    {
        if i == 0 {
            &self.bottom
        } else {
            &self.above[i - 1]
        }
    }
}

/// A list's initial selection: the first row, or none on an empty list.
pub open spec fn first_row(len: nat) -> Option<usize> {
    if len > 0 {
        Some(0usize)
    } else {
        None
    }
}

pub fn initial_selection(len: usize) -> (r: Option<usize>)
    ensures
        r == first_row(len as nat),
{
    if len > 0 { Some(0) } else { None }
}

/// The row a move of `delta` lands on from `current`, clamped to the list; nothing
/// changes on an empty list.
pub open spec fn spec_move(len: nat, current: nat, delta: int) -> Option<nat> {
    if len == 0 {
        None
    } else {
        let target = current + delta;
        Some(if target < 0 { 0 } else if target > len - 1 { (len - 1) as nat } else { target as nat })
    }
}

pub fn move_selection(len: usize, current: usize, delta: i64) -> (r: Option<usize>)
    ensures
        match r {
            Some(i) => spec_move(len as nat, current as nat, delta as int) == Some(i as nat),
            None => spec_move(len as nat, current as nat, delta as int) is None,
        },
{
    if len == 0 {
        return None;
    }
    let target: i128 = current as i128 + delta as i128;
    let last: i128 = len as i128 - 1;
    let next: i128 = if target < 0 { 0 } else if target > last { last } else { target };
    Some(next as usize)
}

/// A move always lands on a row of a non-empty list.
pub proof fn move_stays_on_list(len: nat, current: nat, delta: int)
    ensures
        spec_move(len, current, delta) matches Some(i) ==> i < len,
        len > 0 <==> spec_move(len, current, delta) is Some,
{
}

/// The page a page turn of `delta` asks for, or nothing ("No more pages.") before
/// the first page or past the last one.
pub open spec fn spec_page_target(page: i64, delta: i64, has_more: bool) -> Option<int> {
    let next = page + delta;
    if next < 1 || (delta > 0 && !has_more) {
        None
    } else {
        Some(next)
    }
}

pub fn page_target(page: i64, delta: i64, has_more: bool) -> (r: Option<i64>)
    requires
        i64::MIN <= page + delta <= i64::MAX,
    ensures
        match r {
            Some(p) => spec_page_target(page, delta, has_more) == Some(p as int),
            None => spec_page_target(page, delta, has_more) is None,
        },
{
    let next = page + delta;
    if next < 1 || (delta > 0 && !has_more) {
        None
    } else {
        Some(next)
    }
}

/// Paging never asks for a page before the first.
pub proof fn page_target_positive(page: i64, delta: i64, has_more: bool)
    ensures
        spec_page_target(page, delta, has_more) matches Some(p) ==> p >= 1,
        delta > 0 && !has_more ==> spec_page_target(page, delta, has_more) is None,
{
}

/// The counts a `+`/`-` (regular) or `f`/`F` (foil) key writes: the named counter
/// moved by `delta`, never below zero, the other left alone.
pub open spec fn spec_adjusted(quantity: i64, foil_quantity: i64, delta: i64, foil: bool) -> (int, int) {
    if foil {
        (quantity as int, if foil_quantity + delta < 0 { 0 } else { foil_quantity + delta })
    } else {
        (if quantity + delta < 0 { 0 } else { quantity + delta }, foil_quantity as int)
    }
}

/// A count edit moves only the count it is for: a regular edit moves the regular
/// count by `delta` and leaves the foil count alone, a foil edit the other way
/// round, and a count that would go below zero stops at zero.
pub proof fn count_edit_moves_only_its_count(quantity: i64, foil_quantity: i64, delta: i64, foil: bool)
    ensures
        !foil ==> spec_adjusted(quantity, foil_quantity, delta, foil).1 == foil_quantity,
        !foil && quantity + delta >= 0 ==> spec_adjusted(quantity, foil_quantity, delta, foil).0 == quantity + delta,
        !foil && quantity + delta < 0 ==> spec_adjusted(quantity, foil_quantity, delta, foil).0 == 0,
        foil ==> spec_adjusted(quantity, foil_quantity, delta, foil).0 == quantity,
        foil && foil_quantity + delta >= 0 ==> spec_adjusted(quantity, foil_quantity, delta, foil).1 == foil_quantity + delta,
        foil && foil_quantity + delta < 0 ==> spec_adjusted(quantity, foil_quantity, delta, foil).1 == 0,
{
}

pub fn adjusted_counts(quantity: i64, foil_quantity: i64, delta: i64, foil: bool) -> (r: (i64, i64))
    requires
        i64::MIN <= quantity + delta <= i64::MAX,
        i64::MIN <= foil_quantity + delta <= i64::MAX,
    ensures
        (r.0 as int, r.1 as int) == spec_adjusted(quantity, foil_quantity, delta, foil),
{
    if foil {
        let f = foil_quantity + delta;
        (quantity, if f < 0 { 0 } else { f })
    } else {
        let q = quantity + delta;
        (if q < 0 { 0 } else { q }, foil_quantity)
    }
}

/// An edit never leaves a negative count behind.
pub proof fn adjusted_never_negative(quantity: i64, foil_quantity: i64, delta: i64, foil: bool)
    requires
        quantity >= 0,
        foil_quantity >= 0,
    ensures
        spec_adjusted(quantity, foil_quantity, delta, foil).0 >= 0,
        spec_adjusted(quantity, foil_quantity, delta, foil).1 >= 0,
{
}

/// What a write's echoed counts do to the highlighted holdings row.
pub enum RowChange {
    /// The row index was stale: nothing changes.
    Nothing,
    /// Both counts are zero: the row goes, and the selection moves to `select`.
    Remove { select: Option<usize> },
    /// The row stays with the new counts.
    Update,
}

/// Reflect a mutation into the in-memory holdings rows (removing zeroed rows).
pub fn row_change(idx: usize, len: usize, quantity: i64, foil_quantity: i64) -> (r: RowChange)
    ensures
        idx >= len ==> r is Nothing,
        idx < len && quantity == 0 && foil_quantity == 0 ==> (r matches RowChange::Remove { select } && (
            if len == 1 { select is None } else { select == Some(if idx < len - 1 { idx } else { (len - 2) as usize }) })),
        idx < len && !(quantity == 0 && foil_quantity == 0) ==> r is Update,
{
    if idx >= len {
        return RowChange::Nothing;
    }
    if quantity == 0 && foil_quantity == 0 {
        let remaining = len - 1;
        if remaining == 0 {
            RowChange::Remove { select: None }
        } else {
            RowChange::Remove { select: Some(if idx < remaining { idx } else { remaining - 1 }) }
        }
    } else {
        RowChange::Update
    }
}

/// After a row is removed the selection is a row of what is left.
pub proof fn removal_keeps_selection_on_list(idx: nat, len: nat)
    requires
        idx < len,
        len >= 2,
    ensures
        (if idx < len - 1 { idx } else { (len - 2) as nat }) < len - 1,
{
}

/// Which per-game holdings surface a Holdings screen is showing.
#[derive(Clone, Copy, PartialEq, Eq)]
pub enum HoldSurface {
    Collection,
    Wishlist,
}

impl HoldSurface {
    pub open spec fn spec_base(self, game: Seq<char>) -> Seq<char> {
        match self {
            HoldSurface::Collection => "/api/collection/"@ + game,
            HoldSurface::Wishlist => "/api/wishlist/"@ + game,
        }
    }

    /// The API base path of the surface for `game`.
    pub fn base(&self, game: &str) -> (r: String)
        ensures
            r@ == self.spec_base(game@),
    {
        let mut out = match self {
            HoldSurface::Collection => String::from_str("/api/collection/"),
            HoldSurface::Wishlist => String::from_str("/api/wishlist/"),
        };
        out.append(game);
        out
    }

    pub open spec fn spec_label(self) -> Seq<char> {
        match self {
            HoldSurface::Collection => "Collection"@,
            HoldSurface::Wishlist => "Wish list"@,
        }
    }

    pub fn label(&self) -> (r: &'static str)
        ensures
            r@ == self.spec_label(),
    {
        match self {
            HoldSurface::Collection => "Collection",
            HoldSurface::Wishlist => "Wish list",
        }
    }
}

/// The per-game action menu.
pub const GAME_MENU_LEN: usize = 6;

/// The per-game action menu's entries, in order.
pub open spec fn spec_game_menu() -> Seq<Seq<char>> {
    seq!["Browse sets"@, "Search cards"@, "Collection"@, "Wish list"@, "Decks"@, "Account"@]
}

pub fn game_menu() -> (r: Vec<&'static str>)
    ensures
        r@.len() == GAME_MENU_LEN,
        crate::output::header_view(r@) == spec_game_menu(),
{
    let v = vec!["Browse sets", "Search cards", "Collection", "Wish list", "Decks", "Account"];
    assert(crate::output::header_view(v@) =~= spec_game_menu());
    v
}

/// A holding's foil cell: `3f`, or `-` when none are foil.
pub open spec fn spec_foil_label(foil: i64) -> Seq<char> {
    if foil > 0 {
        dec_int(foil as int) + "f"@
    } else {
        "-"@
    }
}

pub fn foil_label(foil: i64) -> (r: String)
    ensures
        r@ == spec_foil_label(foil),
{
    if foil > 0 {
        let mut out = String::new();
        push_i64(&mut out, foil);
        out.append("f");
        out
    } else {
        String::from_str("-")
    }
}

/// Text clipped to a width for a list row.
pub fn clip(s: &str, max: usize) -> (r: String)
    ensures
        r@ == spec_truncate(s@, max as nat),
{
    truncate(s, max)
}

/// The footer: the status line (when there is one), the page position, and the
/// key hints.
pub open spec fn spec_footer(status: Seq<char>, paging: Seq<char>, hints: Seq<char>) -> Seq<char> {
    if status.len() == 0 {
        " "@ + paging + hints
    } else {
        " "@ + status + "  \u{2014}  "@ + paging + hints
    }
}

pub fn footer(status: &str, paging: &str, hints: &str) -> (r: String)
    ensures
        r@ == spec_footer(status@, paging@, hints@),
{
    let mut out = String::from_str(" ");
    if status.unicode_len() > 0 {
        out.append(status);
        out.append("  \u{2014}  ");
    }
    out.append(paging);
    out.append(hints);
    out
}

/// The page position a list footer shows: `p2 · 120 cards  —  `.
pub open spec fn spec_paging(page: i64, total: i64, noun: Seq<char>) -> Seq<char> {
    "p"@ + dec_int(page as int) + " \u{b7} "@ + dec_int(total as int) + " "@ + noun + "  \u{2014}  "@
}

pub fn paging(page: i64, total: i64, noun: &str) -> (r: String)
    ensures
        r@ == spec_paging(page, total, noun@),
{
    let mut out = String::from_str("p");
    push_i64(&mut out, page);
    out.append(" \u{b7} ");
    push_i64(&mut out, total);
    out.append(" ");
    out.append(noun);
    out.append("  \u{2014}  ");
    out
}

/// The header breadcrumb: every screen's crumb, bottom first.
pub fn breadcrumb(crumbs: &[String]) -> (r: String)
    ensures
        r@ == seq_join(crate::text::views(crumbs@), " \u{203a} "@),
{
    crate::text::join(crumbs, " \u{203a} ")
}

} // verus!
