//! Command-side logic: the query-string builders every listing shares, and the
//! per-domain argument types and decisions.
use crate::text::{dec_int, dec_nat, fmt_i64, fmt_u64};
use vstd::prelude::*;

pub mod auth;
pub mod catalog;
pub mod collection;
pub mod deck_reports;
pub mod decks;
pub mod holdings;
pub mod misc;
pub mod precons;
pub mod public;
pub mod tools;
pub mod wishlist;

verus! {

broadcast use vstd::string::group_string_axioms;

/// A query string as the API client sends it: `key=value` pairs in order.
pub type Query = Vec<(&'static str, String)>;

/// The pairs of a query as plain character sequences.
pub open spec fn query_view(q: Seq<(&'static str, String)>) -> Seq<(Seq<char>, Seq<char>)> {
    q.map_values(|p: (&'static str, String)| (p.0@, p.1@))
}

/// A route under a game: `/api/games/<game>` and `leaf`.
pub open spec fn spec_game_route(game: Seq<char>, leaf: Seq<char>) -> Seq<char> {
    "/api/games/"@ + game + leaf
}

pub fn game_route(game: &str, leaf: &str) -> (r: String)
    ensures
        r@ == spec_game_route(game@, leaf@),
{
    let mut out = String::from_str("/api/games/");
    out.append(game);
    out.append(leaf);
    out
}

/// A route under one item of a game's catalog (`cards`, `products`, `precons`):
/// `/api/games/<game>/<kind>/<id>` and `leaf`.
pub open spec fn spec_item_route(game: Seq<char>, kind: Seq<char>, id: Seq<char>, leaf: Seq<char>) -> Seq<char> {
    "/api/games/"@ + game + "/"@ + kind + "/"@ + id + leaf
}

pub fn item_route(game: &str, kind: &str, id: &str, leaf: &str) -> (r: String)
    ensures
        r@ == spec_item_route(game@, kind@, id@, leaf@),
{
    let mut out = String::from_str("/api/games/");
    out.append(game);
    out.append("/");
    out.append(kind);
    out.append("/");
    out.append(id);
    out.append(leaf);
    out
}

/// A route under a game's decks, or under one deck: `/api/decks/<game>`, then
/// `/<deck id>` when there is one, then `leaf`.
pub open spec fn spec_deck_route(game: Seq<char>, deck_id: Option<i64>, leaf: Seq<char>) -> Seq<char> {
    "/api/decks/"@ + game + match deck_id {
        Some(id) => "/"@ + dec_int(id as int),
        None => Seq::empty(),
    } + leaf
}

pub fn deck_route(game: &str, deck_id: Option<i64>, leaf: &str) -> (r: String)
    ensures
        r@ == spec_deck_route(game@, deck_id, leaf@),
{
    let mut out = String::from_str("/api/decks/");
    out.append(game);
    if let Some(id) = deck_id {
        out.append("/");
        let n = fmt_i64(id);
        out.append(n.as_str());
    }
    out.append(leaf);
    out
}

/// A value that can stand on the right of a `key=value` query pair.
pub trait QueryValue {
    /// The text the value is sent as.
    spec fn query_text(&self) -> Seq<char>;

    fn to_query(&self) -> (r: String)
        ensures
            r@ == self.query_text(),
    ;
}

impl QueryValue for String {
    open spec fn query_text(&self) -> Seq<char> {
        self@
    }

    fn to_query(&self) -> (r: String) {
        self.clone()
    }
}

impl QueryValue for i64 {
    open spec fn query_text(&self) -> Seq<char> {
        dec_int(*self as int)
    }

    fn to_query(&self) -> (r: String) {
        fmt_i64(*self)
    }
}

impl QueryValue for u32 {
    open spec fn query_text(&self) -> Seq<char> {
        dec_nat(*self as nat)
    }

    fn to_query(&self) -> (r: String) {
        fmt_u64(*self as u64)
    }
}

/// The pair `push_opt` adds for `val`, if any.
pub open spec fn opt_pair<T: QueryValue>(key: &'static str, val: Option<T>) -> Seq<(Seq<char>, Seq<char>)> {
    match val {
        Some(v) => seq![(key@, v.query_text())],
        None => Seq::empty(),
    }
}

/// The pair `push_flag` adds for `val`, if any.
pub open spec fn flag_pair(key: &'static str, val: bool) -> Seq<(Seq<char>, Seq<char>)> {
    if val {
        seq![(key@, "true"@)]
    } else {
        Seq::empty()
    }
}

proof fn lemma_query_view_push(q: Seq<(&'static str, String)>, p: (&'static str, String))
    ensures
        query_view(q.push(p)) == query_view(q).push((p.0@, p.1@)),
{
    assert(query_view(q.push(p)) =~= query_view(q).push((p.0@, p.1@)));
}

/// Push `key=val` onto a query vec when the option is set.
pub fn push_opt<T: QueryValue>(q: &mut Vec<(&'static str, String)>, key: &'static str, val: &Option<T>)
    ensures
        query_view(final(q)@) == query_view(old(q)@) + opt_pair(key, *val),
{
    if let Some(v) = val {
        let s = v.to_query();
        proof {
            lemma_query_view_push(q@, (key, s));
        }
        q.push((key, s));
        assert(query_view(q@) =~= query_view(old(q)@) + opt_pair(key, *val));
    } else {
        assert(query_view(q@) =~= query_view(old(q)@) + opt_pair(key, *val));
    }
}

/// Push `key=true` onto a query vec when the flag is set.
pub fn push_flag(q: &mut Vec<(&'static str, String)>, key: &'static str, val: bool)
    ensures
        query_view(final(q)@) == query_view(old(q)@) + flag_pair(key, val),
{
    if val {
        let s = String::from_str("true");
        proof {
            lemma_query_view_push(q@, (key, s));
        }
        q.push((key, s));
        assert(query_view(q@) =~= query_view(old(q)@) + flag_pair(key, val));
    } else {
        assert(query_view(q@) =~= query_view(old(q)@) + flag_pair(key, val));
    }
}

} // verus!
