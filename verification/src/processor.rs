//! The reconciliation engine: a table of tracked bouts keyed by
//! (tournament, team). Each `Insert` invocation merges the provider's freshly
//! fetched bout with the tracked one by match identity — a new id replaces the
//! entry wholesale, the same id keeps the tracked entry and its accumulated
//! player edits — and then applies the requested edit.

use vstd::hash_map::HashMapWithView;
use vstd::prelude::*;

use crate::api::{is_not_found_response, no_active_matches_response};
use crate::bout::{is_invalid_index_response, with_player_at, with_slot_cleared, Bout};
use crate::registry::{Arguments, InternalCommand};
use crate::response::{Response, ResponseType};

verus! {

broadcast use vstd::std_specs::hash::group_hash_axioms;

/// The table key for a (tournament, team) pair: the two ids packed into the
/// high and low halves of one integer.
pub open spec fn bout_key(tournament_id: usize, team_id: usize) -> u128 {
    (tournament_id * 0x1_0000_0000_0000_0000 + team_id) as u128
}

fn make_key(tournament_id: usize, team_id: usize) -> (k: u128)
    ensures
        k == bout_key(tournament_id, team_id),
{
    (tournament_id as u128) * 0x1_0000_0000_0000_0000 + (team_id as u128)
}

/// The identity-based merge: the first sighting of a key inserts the fetched
/// bout verbatim; a fetched bout with a different id replaces the tracked
/// entry wholesale; a fetched bout with the same id is discarded and the
/// tracked entry — with its accumulated player edits — is kept untouched.
pub open spec fn reconcile(table: Map<u128, Bout>, key: u128, fetched: Bout) -> Map<u128, Bout> {
    if table.contains_key(key) && table[key]@.id == fetched@.id {
        table
    } else {
        table.insert(key, fetched)
    }
}

/// The error reported when a removal arrives without a slot index.
pub open spec fn is_missing_index_response(r: Response) -> bool {
    &&& r.response_type == ResponseType::Error
    &&& r.title@ == "Missing map number"@
    &&& r.contents@ == "Please specify which map to remove a player from"@
}

fn missing_index_response() -> (r: Response)
    ensures
        is_missing_index_response(r),
{
    Response::new_error(
        String::from_str("Missing map number"),
        String::from_str("Please specify which map to remove a player from"),
    )
}

/// What one invocation asks the transport to do next: render the tracked bout
/// (possibly after reporting an edit error that left the reconciliation in
/// place), or only report a failure.
#[derive(Debug)]
pub enum ProcessResult {
    Rendered(Option<Response>),
    Failed(Response),
}

/// What an `Insert` invocation does to the table and returns: a provider
/// failure is propagated unchanged; otherwise the fetched bout is reconciled
/// into the table, the requested player assignment (if any) is applied to the
/// now-current entry, and an invalid index is reported without rolling back
/// the reconciliation.
pub open spec fn insert_outcome(
    pre: Map<u128, Bout>,
    post: Map<u128, Bout>,
    tournament_id: usize,
    team_id: usize,
    fetched: Result<Bout, Response>,
    args: Option<Arguments>,
    result: ProcessResult,
) -> bool {
    let key = bout_key(tournament_id, team_id);
    match fetched {
        Err(why) => post == pre && result == ProcessResult::Failed(why),
        Ok(next_bout) => {
            let merged = reconcile(pre, key, next_bout);
            match args {
                Some(Arguments::Insert(player, index)) => {
                    let current = merged[key];
                    if 1 <= index <= current@.maps.len() {
                        &&& post == merged.insert(key, post[key])
                        &&& with_player_at(current@, post[key]@, index as int, player@)
                        &&& result == ProcessResult::Rendered(None::<Response>)
                    } else {
                        &&& post == merged
                        &&& result matches ProcessResult::Rendered(Some(why))
                            && is_invalid_index_response(why, current@.maps.len() as nat)
                    }
                },
                _ => post == merged && result == ProcessResult::Rendered(None::<Response>),
            }
        },
    }
}

/// What a `Remove` invocation does to the table and returns: an untracked key
/// fails with not-found (no remote reconciliation is attempted), a missing
/// index argument fails without touching the table, and otherwise the slot is
/// cleared on the tracked entry, an invalid index leaving it unchanged.
pub open spec fn remove_outcome(
    pre: Map<u128, Bout>,
    post: Map<u128, Bout>,
    tournament_id: usize,
    team_id: usize,
    args: Option<Arguments>,
    result: ProcessResult,
) -> bool {
    let key = bout_key(tournament_id, team_id);
    if !pre.contains_key(key) {
        &&& post == pre
        &&& result matches ProcessResult::Failed(why) && is_not_found_response(why, tournament_id)
    } else {
        match args {
            Some(Arguments::Remove(index)) => {
                let current = pre[key];
                if 1 <= index <= current@.maps.len() {
                    &&& post == pre.insert(key, post[key])
                    &&& with_slot_cleared(current@, post[key]@, index as int)
                    &&& result == ProcessResult::Rendered(None::<Response>)
                } else {
                    &&& post == pre
                    &&& result matches ProcessResult::Rendered(Some(why))
                        && is_invalid_index_response(why, current@.maps.len() as nat)
                }
            },
            _ => {
                &&& post == pre
                &&& result matches ProcessResult::Failed(why) && is_missing_index_response(why)
            },
        }
    }
}

/// The table of tracked bouts, one entry per (tournament, team) pair that an
/// invocation has referenced, owned exclusively by the processor.
pub struct Processor {
    bouts: HashMapWithView<u128, Bout>,
}

impl View for Processor {
    type V = Map<u128, Bout>;

    closed spec fn view(&self) -> Map<u128, Bout> {
        self.bouts@
    }
}

impl Processor {
    /// A processor tracking nothing.
    pub fn new() -> (r: Processor)
        ensures
            r@ == Map::<u128, Bout>::empty(),
    {
        Processor { bouts: HashMapWithView::new() }
    }

    /// Read-only access to the tracked bout of a (tournament, team) pair.
    pub fn get_bout(&self, tournament_id: usize, team_id: usize) -> (r: Option<&Bout>)
        ensures
            match r {
                Some(b) => self@.contains_key(bout_key(tournament_id, team_id)) && *b == self@[
                    bout_key(tournament_id, team_id)
                ],
                None => !self@.contains_key(bout_key(tournament_id, team_id)),
            },
    {
        let key = make_key(tournament_id, team_id);
        self.bouts.get(&key)
    }

    /// Drops the tracked entry of a (tournament, team) pair and hands it back;
    /// idempotent, with no error when the pair was not tracked.
    pub fn drop_entry(&mut self, id: (usize, usize)) -> (r: Option<Bout>)
        ensures
            match r {
                Some(b) => old(self)@.contains_key(bout_key(id.0, id.1)) && b == old(self)@[
                    bout_key(id.0, id.1)
                ] && final(self)@ == old(self)@.remove(bout_key(id.0, id.1)),
                None => !old(self)@.contains_key(bout_key(id.0, id.1)) && final(self)@ == old(
                    self,
                )@,
            },
    {
        let key = make_key(id.0, id.1);
        self.bouts.remove(&key)
    }

    /// Handles one `Insert` invocation, `fetched` being what the match
    /// provider returned for the pair.
    pub fn insert(
        &mut self,
        tournament_id: usize,
        team_id: usize,
        fetched: Result<Bout, Response>,
        args: Option<Arguments>,
    ) -> (result: ProcessResult)
        ensures
            insert_outcome(
                old(self)@,
                final(self)@,
                tournament_id,
                team_id,
                fetched,
                args,
                result,
            ),
    {
        let key = make_key(tournament_id, team_id);
        let next_bout = match fetched {
            Ok(b) => b,
            Err(why) => {
                return ProcessResult::Failed(why);
            },
        };
        let ghost pre = self.bouts@;
        let keep = match self.bouts.get(&key) {
            Some(current) => *current == next_bout,
            None => false,
        };
        if !keep {
            self.bouts.insert(key, next_bout);
        }
        let ghost merged = reconcile(pre, key, next_bout);
        proof {
            assert(self.bouts@ == merged);
        }
        match args {
            Some(Arguments::Insert(player, index)) => {
                let mut bout = self.bouts.remove(&key).unwrap();
                let edit = bout.insert_player(index, player);
                self.bouts.insert(key, bout);
                match edit {
                    Ok(()) => {
                        proof {
                            assert(self.bouts@ =~= merged.insert(key, self.bouts@[key]));
                        }
                        ProcessResult::Rendered(None)
                    },
                    Err(why) => {
                        proof {
                            assert(self.bouts@ =~= merged);
                        }
                        ProcessResult::Rendered(Some(why))
                    },
                }
            },
            _ => ProcessResult::Rendered(None),
        }
    }

    /// Handles one `Remove` invocation: clearing a player from the tracked
    /// bout of the pair. No fetch is involved — a match that was never tracked
    /// cannot be edited, and fails with not-found.
    pub fn remove(
        &mut self,
        tournament_id: usize,
        team_id: usize,
        args: Option<Arguments>,
    ) -> (result: ProcessResult)
        ensures
            remove_outcome(old(self)@, final(self)@, tournament_id, team_id, args, result),
    {
        let key = make_key(tournament_id, team_id);
        if !self.bouts.contains_key(&key) {
            return ProcessResult::Failed(no_active_matches_response(tournament_id));
        }
        let index = match args {
            Some(Arguments::Remove(index)) => index,
            _ => {
                return ProcessResult::Failed(missing_index_response());
            },
        };
        let ghost pre = self.bouts@;
        let mut bout = self.bouts.remove(&key).unwrap();
        let edit = bout.remove_player(index);
        self.bouts.insert(key, bout);
        match edit {
            Ok(()) => {
                proof {
                    assert(self.bouts@ =~= pre.insert(key, self.bouts@[key]));
                }
                ProcessResult::Rendered(None)
            },
            Err(why) => {
                proof {
                    assert(self.bouts@ =~= pre);
                }
                ProcessResult::Rendered(Some(why))
            },
        }
    }

    /// Dispatches one alias invocation to the action it is bound to. For an
    /// `Insert` action the caller fetches first and hands the provider's
    /// result in; a `Remove` action involves no fetch.
    pub fn process(
        &mut self,
        command: &InternalCommand,
        fetched: Option<Result<Bout, Response>>,
        args: Option<Arguments>,
    ) -> (result: ProcessResult)
        requires
            (*command) matches InternalCommand::Insert(_, _) ==> fetched is Some,
        ensures
            match *command {
                InternalCommand::Insert(tournament_id, team_id) => insert_outcome(
                    old(self)@,
                    final(self)@,
                    tournament_id,
                    team_id,
                    fetched.unwrap(),
                    args,
                    result,
                ),
                InternalCommand::Remove(tournament_id, team_id) => remove_outcome(
                    old(self)@,
                    final(self)@,
                    tournament_id,
                    team_id,
                    args,
                    result,
                ),
            },
    {
        match *command {
            InternalCommand::Remove(tournament_id, team_id) => self.remove(
                tournament_id,
                team_id,
                args,
            ),
            InternalCommand::Insert(tournament_id, team_id) => self.insert(
                tournament_id,
                team_id,
                fetched.unwrap(),
                args,
            ),
        }
    }
}

/// Reconciliation idempotence: as long as the provider keeps returning the
/// same match id, reconciliation never discards previously applied player
/// edits — the table is left exactly as it was, however often it runs.
pub proof fn lemma_reconcile_same_id_keeps_edits(table: Map<u128, Bout>, key: u128, fetched: Bout)
    requires
        table.contains_key(key),
        table[key]@.id == fetched@.id,
    ensures
        reconcile(table, key, fetched) == table,
{
}

/// Reconciliation replacement: a fetched bout with a new id — and likewise the
/// first sighting of a key — discards whatever was tracked for that key and
/// starts from the freshly fetched bout, edits and all.
pub proof fn lemma_reconcile_replaces(table: Map<u128, Bout>, key: u128, fetched: Bout)
    requires
        !table.contains_key(key) || table[key]@.id != fetched@.id,
    ensures
        reconcile(table, key, fetched) == table.insert(key, fetched),
{
}

/// After a key's entry is dropped, the next reconciliation for that key starts
/// fresh: it tracks the fetched bout verbatim, whatever was tracked before.
pub proof fn lemma_dropped_entry_starts_fresh(table: Map<u128, Bout>, key: u128, fetched: Bout)
    ensures
        reconcile(table.remove(key), key, fetched) == table.remove(key).insert(key, fetched),
        reconcile(table.remove(key), key, fetched)[key] == fetched,
{
    assert(!table.remove(key).contains_key(key));
}

} // verus!
