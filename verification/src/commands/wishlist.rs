//! The wish list's own reports: its sharing state, and where its shopping list is
//! fetched from.
use super::holdings::{ListFilter, Surface};
use super::{query_view, Query};
use crate::models::WishlistVisibility;
use vstd::prelude::*;

verus! {

broadcast use vstd::string::group_string_axioms;

/// The wish list's sharing state; a wish list without a handle asks for a
/// username first.
pub open spec fn spec_visibility(v: WishlistVisibility) -> Seq<char> {
    "public: "@ + (if v.public {
        "true"@
    } else {
        "false"@
    }) + "  \u{b7}  handle: "@ + match v.handle {
        Some(h) => h@,
        None => "(set a username first)"@,
    }
}

pub fn visibility(v: &WishlistVisibility) -> (r: String)
    ensures
        r@ == spec_visibility(*v),
{
    let mut out = String::from_str("public: ");
    if v.public {
        out.append("true");
    } else {
        out.append("false");
    }
    out.append("  \u{b7}  handle: ");
    match &v.handle {
        Some(h) => out.append(h.as_str()),
        None => out.append("(set a username first)"),
    }
    out
}

/// Where the shopping list is fetched from, and with what query: the same filters
/// as the listing.
pub fn buy_list(s: &Surface, filter: &ListFilter) -> (r: (String, Query))
    ensures
        r.0@ == s.base@ + "/buy-list"@,
        query_view(r.1@) == filter.pairs(),
{
    let mut q: Query = Vec::new();
    filter.push(&mut q);
    let mut path = s.base.clone();
    path.append("/buy-list");
    (path, q)
}

} // verus!
