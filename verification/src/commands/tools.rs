//! The life tracker's request side: the counters a game can track, the `--player`
//! seat specs, the checks each write makes before it is sent, and the names the
//! tables show for seats and events.
use crate::models::{LifeChange, LifeCounter, LifeEvent, LifePlayer, LifeSession, LifeSessionDetail};
use crate::output::{
    block_view, dash, header_view, opt_view, push_block, push_cell, push_row, report_view, rows_view, spec_dash, truncate,
    Block, BlockView,
};
use crate::text::{
    chars_equal, chars_of, dec_int, find_char, first_index, parse_i64_chars, push_i64, slice_chars,
    spec_parse_i64, spec_trim, spec_truncate, split_char, split_chars, string_from_chars, trim_chars,
    views, vviews,
};
use vstd::prelude::*;

verus! {

broadcast use vstd::string::group_string_axioms;

/// A counter a game can track beyond life. `life` is always tracked and is never
/// one of these — it's what a life change moves when no counter is named.
#[derive(Debug, Clone, Copy, PartialEq, Eq, Structural)]
pub enum Counter {
    /// Damage from one seat's commander to another; every change names its source.
    CommanderDamage,
    Poison,
    Energy,
    Experience,
}

impl Counter {
    /// The wire name of the counter.
    pub open spec fn spec_name(self) -> Seq<char> {
        match self {
            Counter::CommanderDamage => "commander_damage"@,
            Counter::Poison => "poison"@,
            Counter::Energy => "energy"@,
            Counter::Experience => "experience"@,
        }
    }

    pub fn as_str(self) -> (r: &'static str)
        ensures
            r@ == self.spec_name(),
    {
        match self {
            Counter::CommanderDamage => "commander_damage",
            Counter::Poison => "poison",
            Counter::Energy => "energy",
            Counter::Experience => "experience",
        }
    }
}

/// `s` with every repeat dropped, each counter kept where it first appears.
pub open spec fn dedup(s: Seq<Counter>) -> Seq<Counter>
    decreases s.len(),
{
    if s.len() == 0 {
        Seq::empty()
    } else {
        let d = dedup(s.drop_last());
        if d.contains(s.last()) {
            d
        } else {
            d.push(s.last())
        }
    }
}

/// The wire names of a list of counters.
pub open spec fn counter_names(s: Seq<Counter>) -> Seq<Seq<char>> {
    s.map_values(|c: Counter| c.spec_name())
}

/// The views of a list of string slices.
pub open spec fn str_views(s: Seq<&'static str>) -> Seq<Seq<char>> {
    s.map_values(|x: &'static str| x@)
}

/// Turn a repeated `--counter` into the wire list, de-duplicated in the order
/// given. No flags at all is `None` — "leave the tracked set to the server".
pub fn counter_list(counters: &[Counter]) -> (r: Option<Vec<&'static str>>)
    ensures
        counters@.len() == 0 ==> r is None,
        counters@.len() > 0 ==> (r matches Some(v) && str_views(v@) == counter_names(dedup(counters@))),
{
    if counters.len() == 0 {
        return None;
    }
    let mut seen: Vec<Counter> = Vec::new();
    let mut out: Vec<&'static str> = Vec::new();
    let mut i: usize = 0;
    while i < counters.len()
        invariant
            i <= counters@.len(),
            seen@ == dedup(counters@.take(i as int)),
            str_views(out@) == counter_names(seen@),
        decreases counters.len() - i,
    {
        let c = counters[i];
        assert(counters@.take(i + 1).drop_last() =~= counters@.take(i as int));
        let mut found = false;
        let mut j: usize = 0;
        while j < seen.len()
            invariant
                j <= seen@.len(),
                found == (exists|k: int| 0 <= k < j && seen@[k] == c),
            decreases seen.len() - j,
        {
            if seen[j] == c {
                found = true;
            }
            j += 1;
        }
        proof {
            if found {
                let k = choose|k: int| 0 <= k < j && seen@[k] == c;
                assert(seen@.contains(c));
            } else {
                assert(!seen@.contains(c));
            }
        }
        if !found {
            let ghost s0 = seen@;
            let ghost o0 = out@;
            let name = c.as_str();
            seen.push(c);
            out.push(name);
            assert(str_views(out@) =~= str_views(o0).push(name@));
            assert(counter_names(seen@) =~= counter_names(s0).push(c.spec_name()));
        }
        i += 1;
    }
    assert(counters@.take(counters.len() as int) =~= counters@);
    Some(out)
}

/// The de-duplicated list holds every counter given, nothing else, and each at most
/// once.
pub proof fn counter_list_dedups(s: Seq<Counter>)
    ensures
        dedup(s).no_duplicates(),
        forall|c: Counter| dedup(s).contains(c) <==> s.contains(c),
    decreases s.len(),
{
    if s.len() > 0 {
        let p = s.drop_last();
        counter_list_dedups(p);
        assert forall|c: Counter| dedup(s).contains(c) <==> s.contains(c) by {
            if s.contains(c) && c != s.last() {
                let k = choose|k: int| 0 <= k < s.len() && s[k] == c;
                assert(p[k] == c);
            }
            if p.contains(c) {
                let k = choose|k: int| 0 <= k < p.len() && p[k] == c;
                assert(s[k] == c);
            }
            if dedup(s).contains(c) && !dedup(p).contains(c) {
                let k = choose|k: int| 0 <= k < dedup(s).len() && dedup(s)[k] == c;
                assert(k == dedup(p).len());
                assert(s[s.len() - 1] == c);
            }
            if c == s.last() {
                assert(s[s.len() - 1] == c);
                if !dedup(p).contains(c) {
                    assert(dedup(s)[dedup(p).len() as int] == c);
                }
            }
            if dedup(p).contains(c) {
                let k = choose|k: int| 0 <= k < dedup(p).len() && dedup(p)[k] == c;
                assert(dedup(s)[k] == c);
            }
        }
    }
}

// ---------------------------------------------------------------------------
// `--player` seat specs
// ---------------------------------------------------------------------------

/// A seat as a `--player` spec describes it; only the fields given are sent, so the
/// server fills the rest in (an unnamed seat becomes `Player {n}`).
#[derive(Debug, Clone)]
pub struct PlayerSeat {
    pub name: Option<String>,
    pub deck_id: Option<i64>,
    pub commander_card_id: Option<String>,
    pub rotation: Option<i64>,
    pub starting_life: Option<i64>,
}

/// A seat as plain values.
pub struct SeatView {
    pub name: Option<Seq<char>>,
    pub deck_id: Option<i64>,
    pub commander_card_id: Option<Seq<char>>,
    pub rotation: Option<i64>,
    pub starting_life: Option<i64>,
}

impl View for PlayerSeat {
    type V = SeatView;

    open spec fn view(&self) -> SeatView {
        SeatView {
            name: crate::output::opt_view(self.name),
            deck_id: self.deck_id,
            commander_card_id: crate::output::opt_view(self.commander_card_id),
            rotation: self.rotation,
            starting_life: self.starting_life,
        }
    }
}

impl PlayerSeat {
    /// How many fields the spec gave.
    pub open spec fn spec_field_count(self) -> nat {
        (if self.name is Some { 1nat } else { 0nat }) + (if self.deck_id is Some { 1nat } else { 0nat })
            + (if self.commander_card_id is Some { 1nat } else { 0nat }) + (if self.rotation is Some { 1nat } else { 0nat })
            + (if self.starting_life is Some { 1nat } else { 0nat })
    }

    /// How many fields the spec gave (what the request body carries).
    pub fn field_count(&self) -> (n: usize)
        ensures
            n == self.spec_field_count(),
    {
        let mut n: usize = 0;
        if self.name.is_some() {
            n += 1;
        }
        if self.deck_id.is_some() {
            n += 1;
        }
        if self.commander_card_id.is_some() {
            n += 1;
        }
        if self.rotation.is_some() {
            n += 1;
        }
        if self.starting_life.is_some() {
            n += 1;
        }
        n
    }
}

/// Why a `--player` spec was refused.
#[derive(Debug, Clone)]
pub enum PlayerSpecError {
    /// A token after the first that is not `key=value`.
    NotAnAttribute { part: String },
    /// A numeric attribute whose value is not an `i64`.
    NotANumber { key: String, value: String },
    /// An attribute name that is none of name / deck / commander / rotation / life.
    UnknownAttribute { key: String },
    /// A seat that names both a deck and a commander.
    DeckAndCommander,
}

/// A refusal as plain values.
pub enum SpecErrorView {
    NotAnAttribute(Seq<char>),
    NotANumber(Seq<char>, Seq<char>),
    UnknownAttribute(Seq<char>),
    DeckAndCommander,
}

impl View for PlayerSpecError {
    type V = SpecErrorView;

    open spec fn view(&self) -> SpecErrorView {
        match self {
            PlayerSpecError::NotAnAttribute { part } => SpecErrorView::NotAnAttribute(part@),
            PlayerSpecError::NotANumber { key, value } => SpecErrorView::NotANumber(key@, value@),
            PlayerSpecError::UnknownAttribute { key } => SpecErrorView::UnknownAttribute(key@),
            PlayerSpecError::DeckAndCommander => SpecErrorView::DeckAndCommander,
        }
    }
}

/// The message a refusal is reported with, for the spec `spec`.
pub open spec fn spec_error_message(e: SpecErrorView, spec: Seq<char>) -> Seq<char> {
    "player spec `"@ + spec + "`: "@ + match e {
        SpecErrorView::NotAnAttribute(part) => "`"@ + part + "` is not a key=value attribute"@,
        SpecErrorView::NotANumber(key, value) => "`"@ + key + "` wants a number, got `"@ + value + "`"@,
        SpecErrorView::UnknownAttribute(key) => "unknown attribute `"@ + key
            + "` (expected name / deck / commander / rotation / life)"@,
        SpecErrorView::DeckAndCommander => "a seat may name a deck or a commander, not both"@,
    }
}

impl PlayerSpecError {
    /// The message the refusal is reported with, for the spec `spec`.
    pub fn message(&self, spec: &str) -> (r: String)
        ensures
            r@ == spec_error_message(self@, spec@),
    {
        let mut out = String::from_str("player spec `");
        out.append(spec);
        out.append("`: ");
        match self {
            PlayerSpecError::NotAnAttribute { part } => {
                out.append("`");
                out.append(part.as_str());
                out.append("` is not a key=value attribute");
            },
            PlayerSpecError::NotANumber { key, value } => {
                out.append("`");
                out.append(key.as_str());
                out.append("` wants a number, got `");
                out.append(value.as_str());
                out.append("`");
            },
            PlayerSpecError::UnknownAttribute { key } => {
                out.append("unknown attribute `");
                out.append(key.as_str());
                out.append("` (expected name / deck / commander / rotation / life)");
            },
            PlayerSpecError::DeckAndCommander => {
                out.append("a seat may name a deck or a commander, not both");
            },
        }
        assert(out@ =~= spec_error_message(self@, spec@));
        out
    }
}

/// The seat no attribute has touched yet.
pub open spec fn empty_seat() -> SeatView {
    SeatView { name: None, deck_id: None, commander_card_id: None, rotation: None, starting_life: None }
}

/// Reads a numeric attribute's value.
pub open spec fn spec_num(key: Seq<char>, value: Seq<char>) -> Result<i64, SpecErrorView> {
    match spec_parse_i64(value) {
        Some(n) => Ok(n),
        None => Err(SpecErrorView::NotANumber(key, value)),
    }
}

/// What the comma-separated token at position `i`, `raw`, does to `seat`.
pub open spec fn apply_part(seat: SeatView, i: int, raw: Seq<char>) -> Result<SeatView, SpecErrorView> {
    let part = spec_trim(raw);
    if part.len() == 0 {
        Ok(seat)
    } else {
        match first_index(part, '=') {
            None => if i == 0 {
                Ok(SeatView { name: Some(part), ..seat })
            } else {
                Err(SpecErrorView::NotAnAttribute(part))
            },
            Some(k) => {
                let key = spec_trim(part.take(k));
                let value = spec_trim(part.skip(k + 1));
                if key == "name"@ {
                    Ok(SeatView { name: Some(value), ..seat })
                } else if key == "deck"@ {
                    match spec_num(key, value) {
                        Ok(n) => Ok(SeatView { deck_id: Some(n), ..seat }),
                        Err(e) => Err(e),
                    }
                } else if key == "commander"@ {
                    Ok(SeatView { commander_card_id: Some(value), ..seat })
                } else if key == "rotation"@ {
                    match spec_num(key, value) {
                        Ok(n) => Ok(SeatView { rotation: Some(n), ..seat }),
                        Err(e) => Err(e),
                    }
                } else if key == "life"@ {
                    match spec_num(key, value) {
                        Ok(n) => Ok(SeatView { starting_life: Some(n), ..seat }),
                        Err(e) => Err(e),
                    }
                } else {
                    Err(SpecErrorView::UnknownAttribute(key))
                }
            },
        }
    }
}

/// The tokens applied left to right; the first refusal stops the read.
pub open spec fn parse_parts(parts: Seq<Seq<char>>) -> Result<SeatView, SpecErrorView>
    decreases parts.len(),
{
    if parts.len() == 0 {
        Ok(empty_seat())
    } else {
        match parse_parts(parts.drop_last()) {
            Ok(seat) => apply_part(seat, parts.len() - 1, parts.last()),
            Err(e) => Err(e),
        }
    }
}

/// A `--player` spec: a name, optionally followed by comma-separated `key=value`
/// attributes (`deck`, `commander`, `rotation`, `life`). A bare leading token is the
/// seat's name, so `Alice`, `Alice,deck=12` and `name=Alice,deck=12` all describe
/// the same seat.
pub open spec fn spec_parse_player_spec(spec: Seq<char>) -> Result<SeatView, SpecErrorView> {
    match parse_parts(split_char(spec, ',')) {
        Ok(seat) => if seat.deck_id is Some && seat.commander_card_id is Some {
            Err(SpecErrorView::DeckAndCommander)
        } else {
            Ok(seat)
        },
        Err(e) => Err(e),
    }
}

proof fn lemma_parse_parts_err_sticks(parts: Seq<Seq<char>>, k: int, j: int)
    requires
        0 <= k <= j <= parts.len(),
        parse_parts(parts.take(k)) is Err,
    ensures
        parse_parts(parts.take(j)) == parse_parts(parts.take(k)),
    decreases j - k,
{
    if j > k {
        lemma_parse_parts_err_sticks(parts, k, j - 1);
        assert(parts.take(j).drop_last() =~= parts.take(j - 1));
    }
}

/// Whether an exec result is the spec's answer.
pub open spec fn matches_spec(r: Result<PlayerSeat, PlayerSpecError>, s: Result<SeatView, SpecErrorView>) -> bool {
    match (r, s) {
        (Ok(a), Ok(b)) => a@ == b,
        (Err(a), Err(b)) => a@ == b,
        _ => false,
    }
}

/// Reads a numeric attribute's value, `key` naming it in the refusal.
pub fn parse_num(key: &[char], value: &[char]) -> (r: Result<i64, PlayerSpecError>)
    ensures
        match (r, spec_num(key@, value@)) {
            (Ok(a), Ok(b)) => a == b,
            (Err(a), Err(b)) => a@ == b,
            _ => false,
        },
{
    match parse_i64_chars(value) {
        Some(n) => Ok(n),
        None => Err(PlayerSpecError::NotANumber { key: string_from_chars(key), value: string_from_chars(value) }),
    }
}

/// Applies one token to the seat.
fn apply_token(seat: PlayerSeat, i: usize, raw: &[char]) -> (r: Result<PlayerSeat, PlayerSpecError>)
    ensures
        matches_spec(r, apply_part(seat@, i as int, raw@)),
{
    let part = trim_chars(raw);
    if part.len() == 0 {
        return Ok(seat);
    }
    match find_char(part.as_slice(), '=') {
        None => {
            if i == 0 {
                Ok(PlayerSeat { name: Some(string_from_chars(part.as_slice())), ..seat })
            } else {
                Err(PlayerSpecError::NotAnAttribute { part: string_from_chars(part.as_slice()) })
            }
        },
        Some(k) => {
            let kr = slice_chars(part.as_slice(), 0, k);
            let vr = slice_chars(part.as_slice(), k + 1, part.len());
            assert(kr@ =~= part@.take(k as int));
            assert(vr@ =~= part@.skip(k + 1));
            let key = trim_chars(kr.as_slice());
            let value = trim_chars(vr.as_slice());
            if chars_equal(key.as_slice(), "name") {
                Ok(PlayerSeat { name: Some(string_from_chars(value.as_slice())), ..seat })
            } else if chars_equal(key.as_slice(), "deck") {
                let n = parse_num(key.as_slice(), value.as_slice())?;
                Ok(PlayerSeat { deck_id: Some(n), ..seat })
            } else if chars_equal(key.as_slice(), "commander") {
                Ok(PlayerSeat { commander_card_id: Some(string_from_chars(value.as_slice())), ..seat })
            } else if chars_equal(key.as_slice(), "rotation") {
                let n = parse_num(key.as_slice(), value.as_slice())?;
                Ok(PlayerSeat { rotation: Some(n), ..seat })
            } else if chars_equal(key.as_slice(), "life") {
                let n = parse_num(key.as_slice(), value.as_slice())?;
                Ok(PlayerSeat { starting_life: Some(n), ..seat })
            } else {
                Err(PlayerSpecError::UnknownAttribute { key: string_from_chars(key.as_slice()) })
            }
        },
    }
}

/// Parse a `--player` spec (see [`spec_parse_player_spec`]).
pub fn parse_player_spec(spec: &str) -> (r: Result<PlayerSeat, PlayerSpecError>)
    ensures
        matches_spec(r, spec_parse_player_spec(spec@)),
{
    let cs = chars_of(spec);
    let parts = split_chars(cs.as_slice(), ',');
    let ghost pv = vviews(parts@);
    let mut seat = PlayerSeat { name: None, deck_id: None, commander_card_id: None, rotation: None, starting_life: None };
    let mut i: usize = 0;
    while i < parts.len()
        invariant
            i <= parts@.len(),
            pv == vviews(parts@),
            pv == split_char(spec@, ','),
            parse_parts(pv.take(i as int)) == Ok::<SeatView, SpecErrorView>(seat@),
        decreases parts.len() - i,
    {
        assert(pv.take(i + 1).drop_last() =~= pv.take(i as int));
        assert(pv.take(i + 1).last() == parts@[i as int]@);
        let ghost old_seat = seat@;
        assert(parse_parts(pv.take(i + 1)) == apply_part(old_seat, i as int, pv[i as int]));
        let r = apply_token(seat, i, parts[i].as_slice());
        match r {
            Ok(s) => {
                seat = s;
            },
            Err(e) => {
                proof {
                    assert(parse_parts(pv.take(i + 1)) == Err::<SeatView, SpecErrorView>(e@));
                    lemma_parse_parts_err_sticks(pv, i + 1, pv.len() as int);
                    assert(pv.take(pv.len() as int) =~= pv);
                }
                return Err(e);
            },
        }
        i += 1;
    }
    assert(pv.take(parts.len() as int) =~= pv);
    if seat.deck_id.is_some() && seat.commander_card_id.is_some() {
        return Err(PlayerSpecError::DeckAndCommander);
    }
    Ok(seat)
}

// ---------------------------------------------------------------------------
// Checks made before a write is sent
// ---------------------------------------------------------------------------

/// Why a life-tracker command was refused before anything was sent.
#[derive(Debug, Clone, Copy, PartialEq, Eq, Structural)]
pub enum LifeArgError {
    /// `start` with neither `--player` nor `--from`.
    NoTable,
    /// `update` with nothing to change.
    NothingToUpdate,
    /// `finish` with neither `--winner` nor `--draw`.
    NoResult,
    /// `adjust` with both or neither of `--delta` and `--life`.
    DeltaXorLife,
    /// `adjust --counter commander_damage` without `--from`.
    DamageNeedsSource,
    /// `--from` on any counter but commander damage.
    SourceOnlyForDamage,
}

impl LifeArgError {
    pub open spec fn spec_message(self) -> Seq<char> {
        match self {
            LifeArgError::NoTable => "give the table with --player (repeatable), or --from <session-id> to rematch"@,
            LifeArgError::NothingToUpdate => "provide at least one of --name / --format / --layout / --counter / --no-counters"@,
            LifeArgError::NoResult => "say who won with --winner <player-id>, or --draw for a drawn game"@,
            LifeArgError::DeltaXorLife => "pass exactly one of --delta <change> or --life <total>"@,
            LifeArgError::DamageNeedsSource => "commander_damage needs --from <player-id> \u{2014} the seat whose commander dealt it"@,
            LifeArgError::SourceOnlyForDamage => "--from only applies to --counter commander_damage"@,
        }
    }

    pub fn message(self) -> (r: &'static str)
        ensures
            r@ == self.spec_message(),
    {
        match self {
            LifeArgError::NoTable => "give the table with --player (repeatable), or --from <session-id> to rematch",
            LifeArgError::NothingToUpdate => "provide at least one of --name / --format / --layout / --counter / --no-counters",
            LifeArgError::NoResult => "say who won with --winner <player-id>, or --draw for a drawn game",
            LifeArgError::DeltaXorLife => "pass exactly one of --delta <change> or --life <total>",
            LifeArgError::DamageNeedsSource => "commander_damage needs --from <player-id> \u{2014} the seat whose commander dealt it",
            LifeArgError::SourceOnlyForDamage => "--from only applies to --counter commander_damage",
        }
    }
}

/// A game starts from explicit seats or from a rematch.
pub fn check_start(player_count: usize, from: Option<i64>) -> (r: Result<(), LifeArgError>)
    ensures
        r is Err <==> (player_count == 0 && from is None),
        r is Err ==> r == Err::<(), LifeArgError>(LifeArgError::NoTable),
{
    if player_count == 0 && from.is_none() {
        Err(LifeArgError::NoTable)
    } else {
        Ok(())
    }
}

/// The counter set an `update` sends: `--no-counters` is the explicit empty set, an
/// empty `--counter` list leaves the set alone.
pub fn update_counter_set(counters: &[Counter], no_counters: bool) -> (r: Option<Vec<&'static str>>)
    ensures
        no_counters ==> (r matches Some(v) && v@.len() == 0),
        !no_counters && counters@.len() == 0 ==> r is None,
        !no_counters && counters@.len() > 0 ==> (r matches Some(v) && str_views(v@) == counter_names(dedup(counters@))),
{
    if no_counters {
        Some(Vec::new())
    } else {
        counter_list(counters)
    }
}

/// An `update` has to change something.
pub fn check_update(has_name: bool, has_format: bool, has_layout: bool, has_counters: bool) -> (r: Result<(), LifeArgError>)
    ensures
        r is Err <==> !(has_name || has_format || has_layout || has_counters),
        r is Err ==> r == Err::<(), LifeArgError>(LifeArgError::NothingToUpdate),
{
    if !has_name && !has_format && !has_layout && !has_counters {
        Err(LifeArgError::NothingToUpdate)
    } else {
        Ok(())
    }
}

/// A `finish` names a winner or declares a draw.
pub fn check_finish(winner: Option<i64>, draw: bool) -> (r: Result<(), LifeArgError>)
    ensures
        r is Err <==> (winner is None && !draw),
        r is Err ==> r == Err::<(), LifeArgError>(LifeArgError::NoResult),
{
    if winner.is_none() && !draw {
        Err(LifeArgError::NoResult)
    } else {
        Ok(())
    }
}

/// What `adjust` refuses: a change that is both or neither relative and absolute,
/// commander damage without the seat that dealt it, and a source on any other
/// counter.
pub open spec fn spec_check_adjust(delta: Option<i64>, life: Option<i64>, counter: Option<Counter>, source: Option<i64>) -> Result<(), LifeArgError> {
    if (delta is None) == (life is None) {
        Err(LifeArgError::DeltaXorLife)
    } else if counter == Some(Counter::CommanderDamage) && source is None {
        Err(LifeArgError::DamageNeedsSource)
    } else if source is Some && counter != Some(Counter::CommanderDamage) {
        Err(LifeArgError::SourceOnlyForDamage)
    } else {
        Ok(())
    }
}

pub fn check_adjust(delta: Option<i64>, life: Option<i64>, counter: Option<Counter>, source: Option<i64>) -> (r: Result<(), LifeArgError>)
    ensures
        r == spec_check_adjust(delta, life, counter, source),
{
    if delta.is_none() == life.is_none() {
        return Err(LifeArgError::DeltaXorLife);
    }
    let is_damage = match counter {
        Some(Counter::CommanderDamage) => true,
        _ => false,
    };
    if is_damage && source.is_none() {
        Err(LifeArgError::DamageNeedsSource)
    } else if source.is_some() && !is_damage {
        Err(LifeArgError::SourceOnlyForDamage)
    } else {
        Ok(())
    }
}

// ---------------------------------------------------------------------------
// Names the tables show
// ---------------------------------------------------------------------------

/// The index of the first seat with id `id`.
pub open spec fn find_seat(players: Seq<LifePlayer>, id: i64) -> Option<int>
    decreases players.len(),
{
    if players.len() == 0 {
        None
    } else if players[0].id == id {
        Some(0)
    } else {
        match find_seat(players.drop_first(), id) {
            Some(k) => Some(k + 1),
            None => None,
        }
    }
}

proof fn lemma_find_seat(players: Seq<LifePlayer>, id: i64, i: int)
    requires
        0 <= i <= players.len(),
        forall|j: int| 0 <= j < i ==> players[j].id != id,
        i < players.len() ==> players[i].id == id,
    ensures
        find_seat(players, id) == (if i < players.len() { Some(i) } else { None::<int> }),
    decreases i,
{
    if i > 0 {
        let d = players.drop_first();
        assert forall|j: int| 0 <= j < i - 1 implies d[j].id != id by {
            assert(d[j] == players[j + 1]);
        }
        if i < players.len() {
            assert(d[i - 1] == players[i]);
        }
        lemma_find_seat(d, id, i - 1);
    }
}

/// A seat's name, or its bare id once it has left the table (the history outlives
/// the seat).
pub open spec fn spec_seat_name(players: Seq<LifePlayer>, id: i64) -> Seq<char> {
    match find_seat(players, id) {
        Some(k) => spec_truncate(players[k].name@, 20),
        None => seq!['#'] + dec_int(id as int),
    }
}

pub fn seat_name(players: &[LifePlayer], player_id: i64) -> (r: String)
    ensures
        r@ == spec_seat_name(players@, player_id),
{
    let mut i: usize = 0;
    while i < players.len()
        invariant
            i <= players@.len(),
            forall|j: int| 0 <= j < i ==> players@[j].id != player_id,
        decreases players.len() - i,
    {
        if players[i].id == player_id {
            proof {
                lemma_find_seat(players@, player_id, i as int);
            }
            return truncate(players[i].name.as_str(), 20);
        }
        i += 1;
    }
    proof {
        lemma_find_seat(players@, player_id, i as int);
    }
    let mut out = String::new();
    crate::text::string_push(&mut out, '#');
    push_i64(&mut out, player_id);
    assert(out@ =~= spec_seat_name(players@, player_id));
    out
}

/// What an event moved, naming the source seat for commander damage.
pub open spec fn spec_counter_label(e: LifeEvent) -> Seq<char> {
    match e.source_player_id {
        Some(id) => e.counter@ + " from #"@ + dec_int(id as int),
        None => e.counter@,
    }
}

pub fn counter_label(e: &LifeEvent) -> (r: String)
    ensures
        r@ == spec_counter_label(*e),
{
    match e.source_player_id {
        Some(id) => {
            let mut out = e.counter.clone();
            out.append(" from #");
            push_i64(&mut out, id);
            out
        },
        None => e.counter.clone(),
    }
}

/// What a seat brought: their linked deck, else their commander, else nothing.
pub open spec fn spec_playing(p: LifePlayer) -> Seq<char> {
    match p.deck_name {
        Some(deck) => match p.deck_id {
            Some(id) => deck@ + " (deck "@ + dec_int(id as int) + ")"@,
            None => deck@,
        },
        None => match p.commander_name {
            Some(cmd) => cmd@,
            None => crate::output::em_dash(),
        },
    }
}

pub fn playing(p: &LifePlayer) -> (r: String)
    ensures
        r@ == spec_playing(*p),
{
    if let Some(deck) = &p.deck_name {
        match p.deck_id {
            Some(id) => {
                let mut out = deck.clone();
                out.append(" (deck ");
                push_i64(&mut out, id);
                out.append(")");
                out
            },
            None => deck.clone(),
        }
    } else if let Some(cmd) = &p.commander_name {
        cmd.clone()
    } else {
        crate::output::dash_string()
    }
}

/// `i` with its sign always written, as `{:+}` formats an integer.
pub open spec fn signed_int(i: int) -> Seq<char> {
    if i >= 0 {
        seq!['+'] + dec_int(i)
    } else {
        dec_int(i)
    }
}

/// Appends `i` with its sign always written.
pub fn push_signed(out: &mut String, i: i64)
    ensures
        final(out)@ == old(out)@ + signed_int(i as int),
{
    if i >= 0 {
        crate::text::string_push(out, '+');
    }
    push_i64(out, i);
    assert(final(out)@ =~= old(out)@ + signed_int(i as int));
}

// ---------------------------------------------------------------------------
// What the life tracker prints
// ---------------------------------------------------------------------------

/// A seat by name, or by id when it is gone, or a dash for no seat at all.
pub open spec fn spec_opt_seat(players: Seq<LifePlayer>, id: Option<i64>) -> Seq<char> {
    match id {
        Some(i) => spec_seat_name(players, i),
        None => crate::output::em_dash(),
    }
}

fn opt_seat(players: &[LifePlayer], id: Option<i64>) -> (r: String)
    ensures
        r@ == spec_opt_seat(players@, id),
{
    match id {
        Some(i) => seat_name(players, i),
        None => crate::output::dash_string(),
    }
}

pub open spec fn spec_player_row(p: LifePlayer) -> Seq<Seq<char>> {
    seq![
        dec_int(p.position as int),
        dec_int(p.id as int),
        spec_truncate(p.name@, 24),
        dec_int(p.life as int),
        dec_int(p.starting_life as int),
        spec_truncate(spec_playing(p), 32),
        dec_int(p.rotation as int) + "\u{b0}"@,
        p.result@,
    ]
}

pub open spec fn players_header() -> Seq<Seq<char>> {
    seq!["Seat"@, "ID"@, "Name"@, "Life"@, "Start"@, "Playing"@, "Rot"@, "Result"@]
}

fn player_row(p: &LifePlayer) -> (r: Vec<String>)
    ensures
        views(r@) == spec_player_row(*p),
{
    let mut row: Vec<String> = Vec::new();
    push_cell(&mut row, crate::text::fmt_i64(p.position));
    push_cell(&mut row, crate::text::fmt_i64(p.id));
    push_cell(&mut row, truncate(p.name.as_str(), 24));
    push_cell(&mut row, crate::text::fmt_i64(p.life));
    push_cell(&mut row, crate::text::fmt_i64(p.starting_life));
    let pl = playing(p);
    push_cell(&mut row, truncate(pl.as_str(), 32));
    let mut rot = crate::text::fmt_i64(p.rotation);
    rot.append("\u{b0}");
    push_cell(&mut row, rot);
    push_cell(&mut row, p.result.clone());
    assert(views(row@) =~= spec_player_row(*p));
    row
}

fn players_header_exec() -> (h: Vec<&'static str>)
    ensures
        header_view(h@) == players_header(),
{
    let header = vec!["Seat", "ID", "Name", "Life", "Start", "Playing", "Rot", "Result"];
    assert(header_view(header@) =~= players_header());
    header
}

/// The seats table.
pub fn players_table(players: &Vec<LifePlayer>) -> (b: Block)
    ensures
        block_view(b) == BlockView::Table(players_header(), players@.map_values(|p: LifePlayer| spec_player_row(p))),
{
    let header = players_header_exec();
    let rows = crate::output::table_rows(players, player_row, Ghost(|p: LifePlayer| spec_player_row(p)));
    Block::Table { header, rows }
}

/// The session's header lines: id, game, status, layout and start; name, format,
/// starting life and finish; what it tracks.
pub open spec fn spec_session_lines(s: LifeSession) -> Seq<BlockView> {
    seq![
        BlockView::Line("Game "@ + dec_int(s.id as int) + " \u{b7} "@ + s.game@ + " \u{b7} "@ + s.status@ + " \u{b7} layout "@
            + s.layout@ + " \u{b7} started "@ + s.started_at@),
        BlockView::Line("  name: "@ + spec_dash(opt_view(s.name)) + "   format: "@ + spec_dash(opt_view(s.format))
            + "   starting life: "@ + dec_int(s.starting_life as int) + match s.finished_at {
            Some(f) => "   finished: "@ + f@,
            None => Seq::empty(),
        }),
    ] + if s.counters@.len() > 0 {
        seq![BlockView::Line("  tracking: life, "@ + crate::text::seq_join(views(s.counters@), ", "@))]
    } else {
        Seq::empty()
    }
}

/// A session: its header lines and its seats.
pub open spec fn spec_session_report(s: LifeSession) -> Seq<BlockView> {
    spec_session_lines(s) + seq![
        BlockView::Table(players_header(), s.players@.map_values(|p: LifePlayer| spec_player_row(p))),
    ]
}

pub fn session_report(s: &LifeSession) -> (out: Vec<Block>)
    ensures
        report_view(out@) == spec_session_report(*s),
{
    let mut out: Vec<Block> = Vec::new();
    let mut l1 = String::from_str("Game ");
    push_i64(&mut l1, s.id);
    l1.append(" \u{b7} ");
    l1.append(s.game.as_str());
    l1.append(" \u{b7} ");
    l1.append(s.status.as_str());
    l1.append(" \u{b7} layout ");
    l1.append(s.layout.as_str());
    l1.append(" \u{b7} started ");
    l1.append(s.started_at.as_str());
    assert(l1@ =~= "Game "@ + dec_int(s.id as int) + " \u{b7} "@ + s.game@ + " \u{b7} "@ + s.status@ + " \u{b7} layout "@
        + s.layout@ + " \u{b7} started "@ + s.started_at@);
    push_block(&mut out, Block::Line(l1));
    let mut l2 = String::from_str("  name: ");
    l2.append(dash(&s.name).as_str());
    l2.append("   format: ");
    l2.append(dash(&s.format).as_str());
    l2.append("   starting life: ");
    push_i64(&mut l2, s.starting_life);
    if let Some(f) = &s.finished_at {
        l2.append("   finished: ");
        l2.append(f.as_str());
    }
    assert(l2@ =~= "  name: "@ + spec_dash(opt_view(s.name)) + "   format: "@ + spec_dash(opt_view(s.format))
        + "   starting life: "@ + dec_int(s.starting_life as int) + match s.finished_at {
        Some(f) => "   finished: "@ + f@,
        None => Seq::empty(),
    });
    push_block(&mut out, Block::Line(l2));
    assert(report_view(out@) =~= spec_session_lines(*s).take(2));
    if s.counters.len() > 0 {
        let mut l3 = String::from_str("  tracking: life, ");
        l3.append(crate::text::join(s.counters.as_slice(), ", ").as_str());
        push_block(&mut out, Block::Line(l3));
    }
    assert(report_view(out@) =~= spec_session_lines(*s));
    push_block(&mut out, players_table(&s.players));
    assert(report_view(out@) =~= spec_session_report(*s));
    out
}

pub open spec fn spec_counter_row(players: Seq<LifePlayer>, c: LifeCounter) -> Seq<Seq<char>> {
    seq![spec_seat_name(players, c.player_id), c.counter@, spec_opt_seat(players, c.source_player_id), dec_int(c.value as int)]
}

pub open spec fn spec_event_row(players: Seq<LifePlayer>, e: LifeEvent) -> Seq<Seq<char>> {
    seq![
        dec_int(e.id as int),
        spec_seat_name(players, e.player_id),
        e.counter@,
        spec_opt_seat(players, e.source_player_id),
        e.kind@,
        signed_int(e.delta as int),
        dec_int(e.life_after as int),
        e.created_at@,
    ]
}

pub open spec fn counters_header() -> Seq<Seq<char>> {
    seq!["Seat"@, "Counter"@, "From"@, "Value"@]
}

pub open spec fn events_header() -> Seq<Seq<char>> {
    seq!["ID"@, "Seat"@, "Counter"@, "From"@, "Kind"@, "Delta"@, "After"@, "When"@]
}

/// Where every non-life counter stands.
pub fn counters_table(players: &Vec<LifePlayer>, counters: &Vec<LifeCounter>) -> (b: Block)
    ensures
        block_view(b) == BlockView::Table(
            counters_header(),
            counters@.map_values(|c: LifeCounter| spec_counter_row(players@, c)),
        ),
{
    let header = vec!["Seat", "Counter", "From", "Value"];
    assert(header_view(header@) =~= counters_header());
    let mut rows: Vec<Vec<String>> = Vec::new();
    let mut i: usize = 0;
    while i < counters.len()
        invariant
            i <= counters@.len(),
            rows_view(rows@) == counters@.take(i as int).map_values(|c: LifeCounter| spec_counter_row(players@, c)),
        decreases counters.len() - i,
    {
        let c = &counters[i];
        let mut row: Vec<String> = Vec::new();
        push_cell(&mut row, seat_name(players.as_slice(), c.player_id));
        push_cell(&mut row, c.counter.clone());
        push_cell(&mut row, opt_seat(players.as_slice(), c.source_player_id));
        push_cell(&mut row, crate::text::fmt_i64(c.value));
        assert(views(row@) =~= spec_counter_row(players@, counters@[i as int]));
        push_row(&mut rows, row);
        assert(counters@.take(i + 1).map_values(|c: LifeCounter| spec_counter_row(players@, c)) =~= counters@.take(
            i as int,
        ).map_values(|c: LifeCounter| spec_counter_row(players@, c)).push(spec_counter_row(players@, counters@[i as int])));
        i += 1;
    }
    assert(counters@.take(counters@.len() as int) =~= counters@);
    Block::Table { header, rows }
}

/// The life history.
pub fn events_table(players: &Vec<LifePlayer>, events: &Vec<LifeEvent>) -> (b: Block)
    ensures
        block_view(b) == BlockView::Table(events_header(), events@.map_values(|e: LifeEvent| spec_event_row(players@, e))),
{
    let header = vec!["ID", "Seat", "Counter", "From", "Kind", "Delta", "After", "When"];
    assert(header_view(header@) =~= events_header());
    let mut rows: Vec<Vec<String>> = Vec::new();
    let mut i: usize = 0;
    while i < events.len()
        invariant
            i <= events@.len(),
            rows_view(rows@) == events@.take(i as int).map_values(|e: LifeEvent| spec_event_row(players@, e)),
        decreases events.len() - i,
    {
        let e = &events[i];
        let mut row: Vec<String> = Vec::new();
        push_cell(&mut row, crate::text::fmt_i64(e.id));
        push_cell(&mut row, seat_name(players.as_slice(), e.player_id));
        push_cell(&mut row, e.counter.clone());
        push_cell(&mut row, opt_seat(players.as_slice(), e.source_player_id));
        push_cell(&mut row, e.kind.clone());
        let mut d = String::new();
        push_signed(&mut d, e.delta);
        push_cell(&mut row, d);
        push_cell(&mut row, crate::text::fmt_i64(e.life_after));
        push_cell(&mut row, e.created_at.clone());
        assert(views(row@) =~= spec_event_row(players@, events@[i as int]));
        push_row(&mut rows, row);
        assert(events@.take(i + 1).map_values(|e: LifeEvent| spec_event_row(players@, e)) =~= events@.take(
            i as int,
        ).map_values(|e: LifeEvent| spec_event_row(players@, e)).push(spec_event_row(players@, events@[i as int])));
        i += 1;
    }
    assert(events@.take(events@.len() as int) =~= events@);
    Block::Table { header, rows }
}

/// A session read or write: the session, where its counters stand, and (for the
/// reads) its history.
pub open spec fn spec_life_report(d: LifeSessionDetail, with_history: bool) -> Seq<BlockView> {
    spec_session_report(d.session) + (if d.counters@.len() > 0 {
        seq![
            BlockView::Table(
                counters_header(),
                d.counters@.map_values(|c: LifeCounter| spec_counter_row(d.session.players@, c)),
            ),
        ]
    } else {
        Seq::empty()
    }) + if with_history {
        if d.events@.len() == 0 {
            seq![BlockView::Line("(no changes recorded yet)"@)]
        } else {
            seq![
                BlockView::Table(events_header(), d.events@.map_values(|e: LifeEvent| spec_event_row(d.session.players@, e))),
            ]
        }
    } else {
        Seq::empty()
    }
}

pub fn life_report(d: &LifeSessionDetail, with_history: bool) -> (out: Vec<Block>)
    ensures
        report_view(out@) == spec_life_report(*d, with_history),
{
    let mut out = session_report(&d.session);
    if d.counters.len() > 0 {
        push_block(&mut out, counters_table(&d.session.players, &d.counters));
    }
    if with_history {
        if d.events.len() == 0 {
            push_block(&mut out, Block::Line(String::from_str("(no changes recorded yet)")));
        } else {
            push_block(&mut out, events_table(&d.session.players, &d.events));
        }
    }
    assert(report_view(out@) =~= spec_life_report(*d, with_history));
    out
}

pub open spec fn spec_session_row(s: LifeSession) -> Seq<Seq<char>> {
    seq![
        dec_int(s.id as int),
        spec_truncate(spec_dash(opt_view(s.name)), 28),
        s.status@,
        spec_dash(opt_view(s.format)),
        crate::text::dec_nat(s.players@.len()),
        s.started_at@,
    ]
}

/// The tracked games, or a line saying there are none.
pub open spec fn spec_sessions_report(ss: Seq<LifeSession>) -> Seq<BlockView> {
    if ss.len() == 0 {
        seq![BlockView::Line("No tracked games."@)]
    } else {
        seq![
            BlockView::Table(
                seq!["ID"@, "Name"@, "Status"@, "Format"@, "Seats"@, "Started"@],
                ss.map_values(|s: LifeSession| spec_session_row(s)),
            ),
        ]
    }
}

pub fn sessions_report(ss: &Vec<LifeSession>) -> (out: Vec<Block>)
    ensures
        report_view(out@) == spec_sessions_report(ss@),
{
    let mut out: Vec<Block> = Vec::new();
    if ss.len() == 0 {
        push_block(&mut out, Block::Line(String::from_str("No tracked games.")));
        assert(report_view(out@) =~= spec_sessions_report(ss@));
        return out;
    }
    let header = vec!["ID", "Name", "Status", "Format", "Seats", "Started"];
    assert(header_view(header@) =~= seq!["ID"@, "Name"@, "Status"@, "Format"@, "Seats"@, "Started"@]);
    let mut rows: Vec<Vec<String>> = Vec::new();
    let mut i: usize = 0;
    while i < ss.len()
        invariant
            i <= ss@.len(),
            rows_view(rows@) == ss@.take(i as int).map_values(|s: LifeSession| spec_session_row(s)),
        decreases ss.len() - i,
    {
        let s = &ss[i];
        let mut row: Vec<String> = Vec::new();
        push_cell(&mut row, crate::text::fmt_i64(s.id));
        let name = dash(&s.name);
        push_cell(&mut row, truncate(name.as_str(), 28));
        push_cell(&mut row, s.status.clone());
        push_cell(&mut row, dash(&s.format));
        push_cell(&mut row, crate::output::fmt_count(s.players.len()));
        push_cell(&mut row, s.started_at.clone());
        assert(views(row@) =~= spec_session_row(ss@[i as int]));
        push_row(&mut rows, row);
        assert(ss@.take(i + 1).map_values(|s: LifeSession| spec_session_row(s)) =~= ss@.take(i as int).map_values(
            |s: LifeSession| spec_session_row(s),
        ).push(spec_session_row(ss@[i as int])));
        i += 1;
    }
    assert(ss@.take(ss@.len() as int) =~= ss@);
    push_block(&mut out, Block::Table { header, rows });
    assert(report_view(out@) =~= spec_sessions_report(ss@));
    out
}

/// The line a life change is reported with: the seat, what moved from where to
/// where, and the change itself.
pub open spec fn spec_change_line(c: LifeChange) -> Seq<char> {
    c.player.name@ + " (seat "@ + dec_int(c.player.id as int) + ") "@ + spec_counter_label(c.event) + ": "@ + dec_int(
        c.event.life_after - c.event.delta,
    ) + " \u{2192} "@ + dec_int(c.event.life_after as int) + "   ("@ + signed_int(c.event.delta as int) + " \u{b7} "@
        + c.event.kind@ + " \u{b7} event "@ + dec_int(c.event.id as int) + ")"@
}

pub fn change_line(c: &LifeChange) -> (r: String)
    requires
        i64::MIN <= c.event.life_after - c.event.delta <= i64::MAX,
    ensures
        r@ == spec_change_line(*c),
{
    let e = &c.event;
    let mut out = c.player.name.clone();
    out.append(" (seat ");
    push_i64(&mut out, c.player.id);
    out.append(") ");
    out.append(counter_label(e).as_str());
    out.append(": ");
    push_i64(&mut out, e.life_after - e.delta);
    out.append(" \u{2192} ");
    push_i64(&mut out, e.life_after);
    out.append("   (");
    push_signed(&mut out, e.delta);
    out.append(" \u{b7} ");
    out.append(e.kind.as_str());
    out.append(" \u{b7} event ");
    push_i64(&mut out, e.id);
    out.append(")");
    assert(out@ =~= spec_change_line(*c));
    out
}

/// Where a game's tracked sessions live: `/api/tools/{game}/life`.
pub fn life_base(game: &str) -> (r: String)
    ensures
        r@ == "/api/tools/"@ + game@ + "/life"@,
{
    let mut out = String::from_str("/api/tools/");
    out.append(game);
    out.append("/life");
    out
}

/// A route under one tracked session: the game's life route, `/sessions/{id}`
/// and `leaf`.
pub fn session_route(game: &str, session_id: i64, leaf: &str) -> (r: String)
    ensures
        r@ == "/api/tools/"@ + game@ + "/life"@ + "/sessions/"@ + dec_int(session_id as int) + leaf@,
{
    let mut out = life_base(game);
    out.append("/sessions/");
    push_i64(&mut out, session_id);
    out.append(leaf);
    assert(out@ =~= "/api/tools/"@ + game@ + "/life"@ + "/sessions/"@ + dec_int(session_id as int) + leaf@);
    out
}

/// The note once a game is started: `Started tracked game 12.`
pub fn started_note(session_id: i64) -> (r: String)
    ensures
        r@ == "Started tracked game "@ + dec_int(session_id as int) + "."@,
{
    let mut out = String::from_str("Started tracked game ");
    push_i64(&mut out, session_id);
    out.append(".");
    out
}

/// The note once a game is deleted: `Deleted tracked game 12.`
pub fn deleted_note(session_id: i64) -> (r: String)
    ensures
        r@ == "Deleted tracked game "@ + dec_int(session_id as int) + "."@,
{
    let mut out = String::from_str("Deleted tracked game ");
    push_i64(&mut out, session_id);
    out.append(".");
    out
}

/// One seat on its own, as the seat edit echoes it.
pub fn seat_table(p: &LifePlayer) -> (b: Block)
    ensures
        block_view(b) == BlockView::Table(players_header(), seq![spec_player_row(*p)]),
{
    let header = players_header_exec();
    let mut rows: Vec<Vec<String>> = Vec::new();
    push_row(&mut rows, player_row(p));
    assert(rows_view(rows@) =~= seq![spec_player_row(*p)]);
    Block::Table { header, rows }
}

} // verus!
