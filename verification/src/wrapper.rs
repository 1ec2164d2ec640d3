//! The single owned context object that one invocation handler acquires
//! exclusively: the command registry together with the processor's state
//! table, and the alias lifecycle that couples them — unregistering an
//! `Insert` binding also drops the pair's tracked state.

use vstd::prelude::*;

use crate::processor::{bout_key, Processor};
use crate::registry::{DiscordCommands, InternalCommand};
use crate::response::{Response, ResponseType};

verus! {

/// The registry and the state table, bundled so one lock can guard both.
pub struct Wrapper {
    pub commands: DiscordCommands,
    pub processor: Processor,
}

/// The confirmation after registering an alias.
pub open spec fn is_added_response(r: Response, alias: Seq<char>) -> bool {
    &&& r.response_type == ResponseType::Success
    &&& r.title@ == "Added command"@
    &&& r.contents@ == "Successfully added command `"@ + alias + "`."@
}

/// The confirmation after unregistering an alias.
pub open spec fn is_removed_response(r: Response, alias: Seq<char>) -> bool {
    &&& r.response_type == ResponseType::Success
    &&& r.title@ == "Removed command"@
    &&& r.contents@ == "Successfully removed command `"@ + alias + "`."@
}

/// The warning after trying to unregister an alias that was never registered —
/// a benign user mistake, not an error.
pub open spec fn is_unknown_command_response(r: Response, alias: Seq<char>) -> bool {
    &&& r.response_type == ResponseType::Warning
    &&& r.title@ == "Command not found"@
    &&& r.contents@ == "The command `"@ + alias + "` could not be found."@
}

impl Wrapper {
    /// An empty registry beside a processor tracking nothing.
    pub fn new() -> (r: Wrapper)
        ensures
            r.commands@ == Map::<Seq<char>, InternalCommand>::empty(),
            r.processor@ == Map::<u128, crate::bout::Bout>::empty(),
    {
        Wrapper { commands: DiscordCommands::new(), processor: Processor::new() }
    }

    /// Registers an alias. Registration always succeeds: an existing binding
    /// is overwritten, and the tracked state table is not touched.
    pub fn add_command(&mut self, discord_command: String, command: InternalCommand) -> (r:
        Response)
        ensures
            final(self).commands@ == old(self).commands@.insert(discord_command@, command),
            final(self).processor == old(self).processor,
            is_added_response(r, discord_command@),
    {
        let mut message = String::from_str("Successfully added command `");
        message.append(discord_command.as_str());
        message.append("`.");
        self.commands.add_command(discord_command, command);
        Response::new_success(String::from_str("Added command"), message)
    }

    /// Unregisters an alias. When the removed binding was an `Insert`, the
    /// pair's tracked state row is dropped with it; a removed `Remove` binding
    /// leaves the table alone. An unknown alias is reported as a warning.
    pub fn remove_command(&mut self, discord_command: &str) -> (r: Response)
        ensures
            final(self).commands@ == old(self).commands@.remove(discord_command@),
            (if old(self).commands@.contains_key(discord_command@) {
                &&& (match old(self).commands@[discord_command@] {
                    InternalCommand::Insert(tournament_id, team_id) => final(self).processor@
                        == old(self).processor@.remove(bout_key(tournament_id, team_id)),
                    InternalCommand::Remove(_, _) => final(self).processor == old(self).processor,
                })
                &&& is_removed_response(r, discord_command@)
            } else {
                &&& final(self).processor == old(self).processor
                &&& is_unknown_command_response(r, discord_command@)
            }),
    {
        match self.commands.remove_command(discord_command) {
            Some(command) => {
                match command {
                    InternalCommand::Insert(tournament_id, team_id) => {
                        self.processor.drop_entry((tournament_id, team_id));
                        proof {
                            assert(self.processor@ =~= old(self).processor@.remove(
                                bout_key(tournament_id, team_id),
                            ));
                        }
                    },
                    InternalCommand::Remove(_, _) => {},
                }
                let mut message = String::from_str("Successfully removed command `");
                message.append(discord_command);
                message.append("`.");
                Response::new_success(String::from_str("Removed command"), message)
            },
            None => {
                let mut message = String::from_str("The command `");
                message.append(discord_command);
                message.append("` could not be found.");
                Response::new_warning(String::from_str("Command not found"), message)
            },
        }
    }
}

} // verus!
