//! One tracked match ("bout") between two teams: identity, schedule, and the
//! ordered map slots that operators assign players to. Two bouts denote the
//! same match exactly when their provider-assigned ids are equal; every other
//! field may differ between fetches of an unchanged match.

use vstd::prelude::*;

use crate::clock::{format_local_date, format_local_time, now_epoch_seconds};
use crate::response::{Response, ResponseType};
use crate::text::{decimal_of, i128_to_string, signed_decimal_of, usize_to_string};

verus! {

/// The mathematical content of a `Bout`.
#[verifier::ext_equal]
pub ghost struct BoutView {
    pub id: int,
    pub tournament: Seq<char>,
    pub scheduled_at: int,
    pub maps: Seq<(Seq<char>, Option<Seq<char>>)>,
    pub home: Seq<char>,
    pub away: Seq<char>,
}

/// The content of one map slot: the map's name and the assigned player, if any.
pub open spec fn slot_view(slot: (String, Option<String>)) -> (Seq<char>, Option<Seq<char>>) {
    (
        slot.0@,
        match slot.1 {
            Some(player) => Some(player@),
            None => None,
        },
    )
}

/// The slots a bout starts with: each map name paired with no assigned player.
pub open spec fn fresh_slots(names: Seq<String>) -> Seq<(Seq<char>, Option<Seq<char>>)> {
    Seq::new(names.len(), |i: int| (names[i]@, None::<Seq<char>>))
}

/// `after` is `before` with the player of slot `index` (1-based) set.
pub open spec fn with_player_at(before: BoutView, after: BoutView, index: int, player: Seq<char>) -> bool {
    after == (BoutView {
        maps: before.maps.update(index - 1, (before.maps[index - 1].0, Some(player))),
        ..before
    })
}

/// `after` is `before` with the player of slot `index` (1-based) cleared.
pub open spec fn with_slot_cleared(before: BoutView, after: BoutView, index: int) -> bool {
    after == (BoutView {
        maps: before.maps.update(index - 1, (before.maps[index - 1].0, None::<Seq<char>>)),
        ..before
    })
}

/// One rendered slot line: the assigned player if present — else the slot's
/// positional marker, numeric except for the final (tiebreaker) slot — then
/// the map's name.
pub open spec fn slot_line(slot: (Seq<char>, Option<Seq<char>>), pos: int, slot_count: int) -> Seq<char> {
    let label = match slot.1 {
        Some(player) => player,
        None => if pos < slot_count - 1 {
            "["@ + decimal_of((pos + 1) as nat) + "]"@
        } else {
            "[ACE]"@
        },
    };
    label + ": "@ + slot.0 + "\n"@
}

/// The first `upto` slot lines, concatenated.
pub open spec fn map_lines(
    maps: Seq<(Seq<char>, Option<Seq<char>>)>,
    slot_count: int,
    upto: int,
) -> Seq<char>
    decreases upto,
{
    if upto <= 0 {
        Seq::empty()
    } else {
        map_lines(maps, slot_count, upto - 1) + slot_line(maps[upto - 1], upto - 1, slot_count)
    }
}

/// The rendered map list of a bout: one line per slot.
pub open spec fn maps_text(b: BoutView) -> Seq<char> {
    map_lines(b.maps, b.maps.len() as int, b.maps.len() as int)
}

/// Integer division truncated toward zero, for a positive divisor.
pub open spec fn trunc_div(a: int, b: int) -> int {
    if a >= 0 {
        a / b
    } else {
        -((-a) / b)
    }
}

/// The countdown from `now` to `scheduled_at`, in whole days, then leftover
/// hours, then leftover minutes, each truncated toward zero.
pub open spec fn countdown_text(scheduled_at: int, now: int) -> Seq<char> {
    let remaining = scheduled_at - now;
    let days = trunc_div(remaining, 86400);
    let hours = trunc_div(remaining, 3600) - days * 24;
    let minutes = trunc_div(remaining, 60) - days * 1440 - hours * 60;
    signed_decimal_of(days) + "d "@ + signed_decimal_of(hours) + "hr "@ + signed_decimal_of(
        minutes,
    ) + "min"@
}

/// The provider's public page for a match.
pub open spec fn match_url(id: int) -> Seq<char> {
    "https://spire.gg/match/"@ + decimal_of(id as nat)
}

/// The rendered schedule of a bout: its date and clock time (formatted by the
/// caller), the countdown from `now`, and where to watch.
pub open spec fn schedule_text(b: BoutView, date: Seq<char>, time: Seq<char>, now: int) -> Seq<char> {
    "Date: "@ + date + "\nTime: "@ + time + " (in: "@ + countdown_text(b.scheduled_at, now)
        + ")\nChannel: spire"@ + decimal_of(b.id as nat) + "\n"@ + match_url(b.id)
}

/// The error reported when an edit names a slot outside `1..=slot_count`.
pub open spec fn is_invalid_index_response(r: Response, slot_count: nat) -> bool {
    &&& r.response_type == ResponseType::Error
    &&& r.title@ == "Invalid index."@
    &&& r.contents@ == "Please enter a number between 1 and "@ + decimal_of(slot_count)
}

/// One tracked match between two teams, with per-map player assignments.
#[derive(Debug)]
pub struct Bout {
    id: usize,
    tournament: String,
    /// Non-leap seconds since the Unix epoch, UTC.
    scheduled_at: i64,
    maps: Vec<(String, Option<String>)>,
    home: String,
    away: String,
}

impl View for Bout {
    type V = BoutView;

    closed spec fn view(&self) -> BoutView {
        BoutView {
            id: self.id as int,
            tournament: self.tournament@,
            scheduled_at: self.scheduled_at as int,
            maps: Seq::new(self.maps@.len(), |i: int| slot_view(self.maps@[i])),
            home: self.home@,
            away: self.away@,
        }
    }
}

impl PartialEq for Bout {
    fn eq(&self, other: &Self) -> bool {
        self.id == other.id
    }
}

impl vstd::std_specs::cmp::PartialEqSpecImpl for Bout {
    open spec fn obeys_eq_spec() -> bool {
        true
    }

    open spec fn eq_spec(&self, other: &Bout) -> bool {
        self@.id == other@.id
    }
}

impl Eq for Bout {}

impl Bout {
    pub fn new(
        id: usize,
        tournament: String,
        scheduled_at: i64,
        maps: Vec<String>,
        home: String,
        away: String,
    ) -> (b: Bout)
        ensures
            b@ == (BoutView {
                id: id as int,
                tournament: tournament@,
                scheduled_at: scheduled_at as int,
                maps: fresh_slots(maps@),
                home: home@,
                away: away@,
            }),
    {
        let mut slots: Vec<(String, Option<String>)> = Vec::new();
        let mut i: usize = 0;
        while i < maps.len()
            invariant
                i <= maps@.len(),
                slots@.len() == i as int,
                forall|j: int|
                    0 <= j < i as int ==> slots@[j].0 == maps@[j] && slots@[j].1 is None,
            decreases maps@.len() - i,
        {
            slots.push((maps[i].clone(), None));
            i += 1;
        }
        let b = Bout { id, tournament, scheduled_at, maps: slots, home, away };
        proof {
            assert(b@.maps =~= fresh_slots(maps@));
            assert(b@ =~= (BoutView {
                id: id as int,
                tournament: tournament@,
                scheduled_at: scheduled_at as int,
                maps: fresh_slots(maps@),
                home: home@,
                away: away@,
            }));
        }
        b
    }

    /// The provider-assigned match identifier.
    pub fn id(&self) -> (r: usize)
        ensures
            r as int == self@.id,
    {
        self.id
    }

    /// Read-only access to the ordered map slots.
    pub fn map_slots(&self) -> (r: &Vec<(String, Option<String>)>)
        ensures
            r@.len() == self@.maps.len(),
            forall|i: int| 0 <= i < r@.len() ==> self@.maps[i] == slot_view(r@[i]),
    {
        &self.maps
    }

    fn is_valid_index(&self, index: usize) -> (r: Result<(), Response>)
        ensures
            r is Ok <==> 1 <= index <= self@.maps.len(),
            r is Err ==> is_invalid_index_response(r->Err_0, self@.maps.len() as nat),
    {
        if index == 0 || index > self.maps.len() {
            let mut text = String::from_str("Please enter a number between 1 and ");
            text.append(usize_to_string(self.maps.len()).as_str());
            let response = Response::new_error(String::from_str("Invalid index."), text);
            return Err(response);
        }
        Ok(())
    }

    /// Assigns `player` to slot `index` (1-based). Succeeds exactly for the
    /// indices `1..=n` where `n` is the slot count; `0` and anything above `n`
    /// are rejected with the invalid-index error, and the bout is unchanged.
    pub fn insert_player(&mut self, index: usize, player: String) -> (r: Result<(), Response>)
        ensures
            r is Ok <==> 1 <= index <= old(self)@.maps.len(),
            r is Ok ==> with_player_at(old(self)@, final(self)@, index as int, player@),
            r is Err ==> *final(self) == *old(self) && is_invalid_index_response(
                r->Err_0,
                old(self)@.maps.len() as nat,
            ),
    {
        if let Err(why) = self.is_valid_index(index) {
            return Err(why);
        }
        let name = self.maps[index - 1].0.clone();
        self.maps[index - 1] = (name, Some(player));
        proof {
            assert(self@.maps =~= old(self)@.maps.update(
                index - 1,
                (old(self)@.maps[index - 1].0, Some(player@)),
            ));
            assert(self@ =~= (BoutView {
                maps: old(self)@.maps.update(
                    index - 1,
                    (old(self)@.maps[index - 1].0, Some(player@)),
                ),
                ..old(self)@
            }));
        }
        Ok(())
    }

    /// Clears the player of slot `index` (1-based), with the same index
    /// validation as `insert_player`. Clearing an already-empty slot succeeds.
    pub fn remove_player(&mut self, index: usize) -> (r: Result<(), Response>)
        ensures
            r is Ok <==> 1 <= index <= old(self)@.maps.len(),
            r is Ok ==> with_slot_cleared(old(self)@, final(self)@, index as int),
            r is Err ==> *final(self) == *old(self) && is_invalid_index_response(
                r->Err_0,
                old(self)@.maps.len() as nat,
            ),
    {
        if let Err(why) = self.is_valid_index(index) {
            return Err(why);
        }
        let name = self.maps[index - 1].0.clone();
        self.maps[index - 1] = (name, None);
        proof {
            assert(self@.maps =~= old(self)@.maps.update(
                index - 1,
                (old(self)@.maps[index - 1].0, None::<Seq<char>>),
            ));
            assert(self@ =~= (BoutView {
                maps: old(self)@.maps.update(
                    index - 1,
                    (old(self)@.maps[index - 1].0, None::<Seq<char>>),
                ),
                ..old(self)@
            }));
        }
        Ok(())
    }

    /// The headline for rendering: home team versus away team.
    pub fn get_title(&self) -> (r: String)
        ensures
            r@ == self@.home + " vs "@ + self@.away,
    {
        let mut r = self.home.clone();
        r.append(" vs ");
        r.append(self.away.as_str());
        proof {
            assert(r@ =~= self@.home + " vs "@ + self@.away);
        }
        r
    }

    /// The rendered map list: one line per slot, labelled by the assigned
    /// player where present, else by the slot's positional marker.
    pub fn get_maps(&self) -> (r: String)
        ensures
            r@ == maps_text(self@),
    {
        let mut result = String::new();
        let n = self.maps.len();
        let mut i: usize = 0;
        while i < n
            invariant
                n == self.maps@.len(),
                n == self@.maps.len(),
                i <= n,
                result@ == map_lines(self@.maps, n as int, i as int),
            decreases n - i,
        {
            match &self.maps[i].1 {
                Some(player) => {
                    result.append(player.as_str());
                },
                None => {
                    if i < n - 1 {
                        result.append("[");
                        result.append(usize_to_string(i + 1).as_str());
                        result.append("]");
                    } else {
                        result.append("[ACE]");
                    }
                },
            }
            result.append(": ");
            result.append(self.maps[i].0.as_str());
            result.append("\n");
            i += 1;
            proof {
                assert(self@.maps[i - 1] == slot_view(self.maps@[i - 1]));
                assert(result@ =~= map_lines(self@.maps, n as int, i as int));
            }
        }
        result
    }

    /// The rendered schedule, composed from a pre-formatted date and clock
    /// time and the countdown measured against `now` (in epoch seconds).
    pub fn describe_at(&self, now: i64, date: &str, time: &str) -> (r: String)
        ensures
            r@ == schedule_text(self@, date@, time@, now as int),
    {
        let remaining: i128 = (self.scheduled_at as i128) - (now as i128);
        let days = trunc_div_i128(remaining, 86400);
        let total_hours = trunc_div_i128(remaining, 3600);
        let total_minutes = trunc_div_i128(remaining, 60);
        let hours = total_hours - days * 24;
        let minutes = total_minutes - days * 1440 - hours * 60;
        let mut r = String::from_str("Date: ");
        r.append(date);
        r.append("\nTime: ");
        r.append(time);
        r.append(" (in: ");
        r.append(i128_to_string(days).as_str());
        r.append("d ");
        r.append(i128_to_string(hours).as_str());
        r.append("hr ");
        r.append(i128_to_string(minutes).as_str());
        r.append("min");
        r.append(")\nChannel: spire");
        r.append(usize_to_string(self.id).as_str());
        r.append("\n");
        r.append("https://spire.gg/match/");
        r.append(usize_to_string(self.id).as_str());
        proof {
            assert(r@ =~= schedule_text(self@, date@, time@, now as int));
        }
        r
    }

    /// The rendered schedule against the wall clock: formatted date, clock
    /// time and countdown are all taken at the moment of the call, so two
    /// renders of the same bout at different times differ.
    pub fn get_description(&self) -> (r: String)
        ensures
            exists|date: Seq<char>, time: Seq<char>, now: int|
                r@ == schedule_text(self@, date, time, now),
    {
        let now = now_epoch_seconds();
        let date = format_local_date(self.scheduled_at);
        let time = format_local_time(self.scheduled_at);
        let r = self.describe_at(now, date.as_str(), time.as_str());
        proof {
            assert(r@ == schedule_text(self@, date@, time@, now as int));
        }
        r
    }
}

/// Division of `a` by a positive divisor, truncated toward zero as the
/// countdown arithmetic wants.
fn trunc_div_i128(a: i128, b: i128) -> (q: i128)
    requires
        b > 0,
        a > i128::MIN,
    ensures
        q == trunc_div(a as int, b as int),
        a >= 0 ==> 0 <= q <= a,
        a < 0 ==> a <= q <= 0,
{
    if a >= 0 {
        let qu: u128 = (a as u128) / (b as u128);
        proof {
            assert(qu <= a as u128) by (nonlinear_arith)
                requires
                    qu == (a as u128) / (b as u128),
                    b as u128 >= 1,
            ;
        }
        qu as i128
    } else {
        let m: u128 = (-a) as u128;
        let qu: u128 = m / (b as u128);
        proof {
            assert(qu <= m) by (nonlinear_arith)
                requires
                    qu == m / (b as u128),
                    b as u128 >= 1,
            ;
        }
        -(qu as i128)
    }
}

} // verus!
