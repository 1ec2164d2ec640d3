//! The computing side of the match provider interface: choosing the bout that
//! concerns a team from the provider's tournament listing, building a `Bout`
//! from the provider's fields, and the responses that report provider
//! failures. The fetching itself is transport and stays outside the library.

use vstd::prelude::*;

use crate::bout::{fresh_slots, Bout, BoutView};
use crate::clock::{parse_utc_epoch, utc_epoch_of};
use crate::response::{Response, ResponseType};
use crate::text::{decimal_of, usize_to_string};

verus! {

/// What the provider's tournament listing says of one bout: the match id and
/// the ids of the two teams in its lineups.
#[derive(Debug, Clone, Copy, PartialEq, Eq, Structural)]
pub struct BoutSummary {
    pub id: usize,
    pub home_team_id: usize,
    pub away_team_id: usize,
}

/// Whether the bout's lineups involve the team.
pub open spec fn involves_team(summary: BoutSummary, team_id: usize) -> bool {
    summary.home_team_id == team_id || summary.away_team_id == team_id
}

/// The error reported when a tournament listing holds no bout for the team,
/// and when a removal names an untracked (tournament, team) pair.
pub open spec fn is_not_found_response(r: Response, tournament_id: usize) -> bool {
    &&& r.response_type == ResponseType::Error
    &&& r.title@ == "No active matches found"@
    &&& r.contents@ == "For further information see https://spire.gg/tournament/"@ + decimal_of(
        tournament_id as nat,
    ) + "#brackets."@
}

/// The error reported when the provider's answer cannot be fetched or parsed.
pub open spec fn is_api_error_response(r: Response, why: Seq<char>, address: Seq<char>) -> bool {
    &&& r.response_type == ResponseType::Error
    &&& r.title@ == "API error"@
    &&& r.contents@ == "Error parsing response of \""@ + address + "\"!\n\t"@ + why
}

/// The id of the first bout in the listing whose lineups involve the team,
/// or `None` where no bout does.
pub fn select_team_bout(bouts: &Vec<BoutSummary>, team_id: usize) -> (r: Option<usize>)
    ensures
        match r {
            Some(id) => exists|i: int|
                0 <= i < bouts@.len() && involves_team(bouts@[i], team_id) && bouts@[i].id == id
                    && (forall|j: int| 0 <= j < i ==> !involves_team(bouts@[j], team_id)),
            None => forall|i: int| 0 <= i < bouts@.len() ==> !involves_team(bouts@[i], team_id),
        },
{
    let mut i: usize = 0;
    while i < bouts.len()
        invariant
            i <= bouts@.len(),
            forall|j: int| 0 <= j < i as int ==> !involves_team(bouts@[j], team_id),
        decreases bouts@.len() - i,
    {
        if bouts[i].home_team_id == team_id || bouts[i].away_team_id == team_id {
            return Some(bouts[i].id);
        }
        i += 1;
    }
    None
}

/// A `Bout` from the fields the provider reports for a match, with every slot
/// unassigned; `None` where the provider's datetime text does not parse.
pub fn bout_from_api(
    id: usize,
    tournament: String,
    datetime_raw: &str,
    maps: Vec<String>,
    home: String,
    away: String,
) -> (r: Option<Bout>)
    ensures
        match r {
            Some(b) => utc_epoch_of(datetime_raw@) matches Some(epoch) && b@ == (BoutView {
                id: id as int,
                tournament: tournament@,
                scheduled_at: epoch as int,
                maps: fresh_slots(maps@),
                home: home@,
                away: away@,
            }),
            None => utc_epoch_of(datetime_raw@) is None,
        },
{
    match parse_utc_epoch(datetime_raw) {
        Some(epoch) => Some(Bout::new(id, tournament, epoch, maps, home, away)),
        None => None,
    }
}

/// The response for a tournament listing that holds no bout for the team.
pub fn no_active_matches_response(tournament_id: usize) -> (r: Response)
    ensures
        is_not_found_response(r, tournament_id),
{
    let title = String::from_str("No active matches found");
    let mut message = String::from_str("For further information see https://spire.gg/tournament/");
    message.append(usize_to_string(tournament_id).as_str());
    message.append("#brackets.");
    Response::new_error(title, message)
}

/// The response for a provider answer that could not be fetched or parsed.
pub fn create_api_error_response(why: String, address: String) -> (r: Response)
    ensures
        is_api_error_response(r, why@, address@),
{
    let title = String::from_str("API error");
    let mut message = String::from_str("Error parsing response of \"");
    message.append(address.as_str());
    message.append("\"!\n\t");
    message.append(why.as_str());
    Response::new_error(title, message)
}

} // verus!
