//! Self-update decisions: whether a release is newer, whether the passive check is
//! due, what it remembers, and whether a prompt's answer accepts the update.
use crate::output::opt_view;
use crate::text::{chars_of, spec_trim, string_from_chars, trim_chars};
use vstd::prelude::*;

verus! {

broadcast use vstd::string::group_string_axioms;

/// How often the passive check hits the network (once/day).
pub const CHECK_INTERVAL_SECS: u64 = 86400;

/// Outcome of an explicit `tcglense update` run.
pub enum Outcome {
    UpToDate { current: String },
    Available { current: String, latest: String },
    Updated { version: String },
    Cancelled,
    NoAssetForPlatform { target: String, latest: String },
}

/// Whether semver `other` is greater than `current`, or nothing when either does
/// not parse as a version (a name for what `self_update::version::bump_is_greater`
/// answers).
pub uninterp spec fn bump_greater(current: Seq<char>, other: Seq<char>) -> Option<bool>;

/// `self_update::version::bump_is_greater`, its error read as "not a version".
#[verifier::external_body]
fn version_bump_is_greater(current: &str, other: &str) -> (r: Option<bool>)
    ensures
        r == bump_greater(current@, other@),
{
    self_update::version::bump_is_greater(current, other).ok()
}

/// Whether `latest` should replace `current`: semver says it is greater, or — when
/// either is not a version — the two simply differ.
pub open spec fn spec_is_newer(current: Seq<char>, latest: Seq<char>) -> bool {
    match bump_greater(current, latest) {
        Some(b) => b,
        None => latest != current,
    }
}

pub fn is_newer(current: &str, latest: &str) -> (r: bool)
    ensures
        r == spec_is_newer(current@, latest@),
{
    let bump = version_bump_is_greater(current, latest);
    newer_from(bump, current, latest)
}

/// Whether `latest` should replace `current`, given what semver said of the pair:
/// its answer when both are versions, else whether the two differ.
pub fn newer_from(bump: Option<bool>, current: &str, latest: &str) -> (r: bool)
    ensures
        r == match bump {
            Some(b) => b,
            None => latest@ != current@,
        },
{
    match bump {
        Some(b) => b,
        None => !crate::text::str_eq(latest, current),
    }
}

/// The passive notice shows only for a known release that semver says is greater.
pub open spec fn spec_should_notify(current: Seq<char>, latest: Option<Seq<char>>) -> bool {
    match latest {
        Some(l) => bump_greater(current, l) == Some(true),
        None => false,
    }
}

pub fn should_notify(current: &str, latest: &Option<String>) -> (r: bool)
    ensures
        r == spec_should_notify(current@, opt_view(*latest)),
{
    match latest {
        Some(l) => match version_bump_is_greater(current, l.as_str()) {
            Some(b) => b,
            None => false,
        },
        None => false,
    }
}

/// What the passive check remembers between runs.
#[derive(Debug, Clone)]
pub struct CheckCache {
    pub last_check: u64,
    pub latest_version: Option<String>,
}

/// Whether the passive check should ask the network again: the cached answer is a
/// day old (or from the future's clock skew of `saturating_sub`, never).
pub open spec fn spec_check_due(now: u64, last_check: u64) -> bool {
    !((if now >= last_check { now - last_check } else { 0 }) < CHECK_INTERVAL_SECS)
}

pub fn check_due(now: u64, last_check: u64) -> (r: bool)
    ensures
        r == spec_check_due(now, last_check),
{
    !(now.saturating_sub(last_check) < CHECK_INTERVAL_SECS)
}

/// The cache after a network check at `now`: even a failed fetch records the time
/// (so the next try waits a day) and keeps the previously known release.
pub fn refreshed_cache(now: u64, cache: &CheckCache, fetched: Option<String>) -> (r: CheckCache)
    ensures
        r.last_check == now,
        opt_view(r.latest_version) == match opt_view(fetched) {
            Some(f) => Some(f),
            None => opt_view(cache.latest_version),
        },
{
    let latest = match fetched {
        Some(f) => Some(f),
        None => cache.latest_version.clone(),
    };
    CheckCache { last_check: now, latest_version: latest }
}

/// A release tag without its leading `v`s (what `trim_start_matches('v')` leaves).
pub open spec fn strip_v(tag: Seq<char>) -> Seq<char>
    decreases tag.len(),
{
    if tag.len() > 0 && tag[0] == 'v' {
        strip_v(tag.drop_first())
    } else {
        tag
    }
}

pub fn tag_version(tag: &str) -> (r: String)
    ensures
        r@ == strip_v(tag@),
{
    let cs = chars_of(tag);
    let mut i: usize = 0;
    assert(cs@.skip(0) =~= cs@);
    while i < cs.len() && cs[i] == 'v'
        invariant
            i <= cs@.len(),
            strip_v(cs@) == strip_v(cs@.skip(i as int)),
        decreases cs.len() - i,
    {
        assert(cs@.skip(i as int).drop_first() =~= cs@.skip(i + 1));
        i += 1;
    }
    let rest = crate::text::slice_chars(cs.as_slice(), i, cs.len());
    assert(rest@ =~= cs@.skip(i as int));
    proof {
        assert(cs@.skip(0) =~= cs@);
    }
    string_from_chars(rest.as_slice())
}

/// The code point of `c` lowercased if it is an ASCII capital.
pub open spec fn ascii_lower(c: char) -> u32 {
    if 'A' <= c && c <= 'Z' {
        ((c as u32) + 32) as u32
    } else {
        c as u32
    }
}

/// Whether `a` and `b` are equal but for ASCII case (`eq_ignore_ascii_case`).
pub open spec fn eq_ignore_case(a: Seq<char>, b: Seq<char>) -> bool {
    a.len() == b.len() && forall|k: int| 0 <= k < a.len() ==> ascii_lower(#[trigger] a[k]) == ascii_lower(b[k])
}

fn eq_ignore_case_exec(a: &[char], b: &[char]) -> (r: bool)
    ensures
        r == eq_ignore_case(a@, b@),
{
    if a.len() != b.len() {
        return false;
    }
    let mut i: usize = 0;
    while i < a.len()
        invariant
            i <= a.len() == b.len(),
            forall|j: int| 0 <= j < i ==> ascii_lower(#[trigger] a@[j]) == ascii_lower(b@[j]),
        decreases a.len() - i,
    {
        let x = a[i];
        let y = b[i];
        let lx: u32 = if 'A' <= x && x <= 'Z' { (x as u32) + 32 } else { x as u32 };
        let ly: u32 = if 'A' <= y && y <= 'Z' { (y as u32) + 32 } else { y as u32 };
        if lx != ly {
            return false;
        }
        i += 1;
    }
    true
}

/// The confirmation prompt accepts an empty answer, `y` or `yes` (any ASCII case),
/// surrounding whitespace aside.
pub open spec fn spec_accepts(answer: Seq<char>) -> bool {
    let a = spec_trim(answer);
    a.len() == 0 || eq_ignore_case(a, seq!['y']) || eq_ignore_case(a, seq!['y', 'e', 's'])
}

pub fn accepts_update(answer: &str) -> (r: bool)
    ensures
        r == spec_accepts(answer@),
{
    let cs = chars_of(answer);
    let a = trim_chars(cs.as_slice());
    let y = vec!['y'];
    let yes = vec!['y', 'e', 's'];
    assert(y@ =~= seq!['y']);
    assert(yes@ =~= seq!['y', 'e', 's']);
    a.len() == 0 || eq_ignore_case_exec(a.as_slice(), y.as_slice()) || eq_ignore_case_exec(a.as_slice(), yes.as_slice())
}

/// What an explicit update does next, once the latest release is known.
pub enum UpdatePlan {
    /// Stop here with this outcome.
    Finish(Outcome),
    /// Ask with this prompt first; install on a yes, else cancel.
    Ask(String),
    /// Download and install the release.
    Install,
}

/// The confirmation prompt: `Update tcglense 1.2.0 → 1.3.0? [Y/n] `.
pub open spec fn spec_prompt(current: Seq<char>, latest: Seq<char>) -> Seq<char> {
    "Update tcglense "@ + current + " \u{2192} "@ + latest + "? [Y/n] "@
}

/// An up-to-date binary stops; a check only reports the newer release; a platform
/// the release ships no binary for stops with its target; otherwise the update
/// installs, after a prompt unless it was pre-confirmed.
pub open spec fn plan_matches(
    plan: UpdatePlan,
    current: Seq<char>,
    latest: Seq<char>,
    check_only: bool,
    yes: bool,
    target: Seq<char>,
    has_asset: bool,
) -> bool {
    if !spec_is_newer(current, latest) {
        plan matches UpdatePlan::Finish(Outcome::UpToDate { current: c }) && c@ == current
    } else if check_only {
        plan matches UpdatePlan::Finish(Outcome::Available { current: c, latest: l }) && c@ == current && l@ == latest
    } else if !has_asset {
        plan matches UpdatePlan::Finish(Outcome::NoAssetForPlatform { target: t, latest: l }) && t@ == target && l@
            == latest
    } else if !yes {
        plan matches UpdatePlan::Ask(p) && p@ == spec_prompt(current, latest)
    } else {
        plan is Install
    }
}

pub fn plan_update(current: &str, latest: &str, check_only: bool, yes: bool, target: &str, has_asset: bool) -> (r:
    UpdatePlan)
    ensures
        plan_matches(r, current@, latest@, check_only, yes, target@, has_asset),
{
    if !is_newer(current, latest) {
        return UpdatePlan::Finish(Outcome::UpToDate { current: String::from_str(current) });
    }
    if check_only {
        return UpdatePlan::Finish(
            Outcome::Available { current: String::from_str(current), latest: String::from_str(latest) },
        );
    }
    if !has_asset {
        return UpdatePlan::Finish(
            Outcome::NoAssetForPlatform { target: String::from_str(target), latest: String::from_str(latest) },
        );
    }
    if !yes {
        let mut p = String::from_str("Update tcglense ");
        p.append(current);
        p.append(" \u{2192} ");
        p.append(latest);
        p.append("? [Y/n] ");
        return UpdatePlan::Ask(p);
    }
    UpdatePlan::Install
}

/// The passive notice: the newer release, then how to upgrade or silence it.
pub open spec fn spec_notice(current: Seq<char>, latest: Seq<char>) -> Seq<Seq<char>> {
    seq![
        "\nA new tcglense release is available: "@ + current + " \u{2192} "@ + latest,
        "  Run `tcglense update` to upgrade (set TCGLENSE_NO_UPDATE_CHECK=1 to silence)."@,
    ]
}

pub fn notice(current: &str, latest: &str) -> (r: Vec<String>)
    ensures
        crate::text::views(r@) == spec_notice(current@, latest@),
{
    let mut a = String::from_str("\nA new tcglense release is available: ");
    a.append(current);
    a.append(" \u{2192} ");
    a.append(latest);
    let b = String::from_str("  Run `tcglense update` to upgrade (set TCGLENSE_NO_UPDATE_CHECK=1 to silence).");
    let r = vec![a, b];
    assert(crate::text::views(r@) =~= spec_notice(current@, latest@));
    r
}

} // verus!
