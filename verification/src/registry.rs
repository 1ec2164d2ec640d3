//! The command registry: user-chosen aliases bound to typed action
//! descriptors. Aliases are process-wide unique keys; registering an existing
//! alias overwrites it (last-write-wins).

use vstd::hash_map::StringHashMap;
use vstd::prelude::*;

verus! {

/// An action an alias can be bound to, on a (tournament, team) pair.
#[derive(Debug, Clone, Copy, PartialEq, Eq, Structural)]
pub enum InternalCommand {
    /// Clears a player from a slot of the pair's tracked bout.
    Remove(usize, usize),
    /// Reconciles the pair's tracked bout and optionally assigns a player.
    Insert(usize, usize),
}

/// The optional edit argument an invocation supplies alongside the action.
#[derive(Debug, Clone)]
pub enum Arguments {
    /// Clears the player at the given 1-based slot index.
    Remove(usize),
    /// Assigns the given player at the given 1-based slot index.
    Insert(String, usize),
}

/// The alias table: each registered alias resolves to one action descriptor.
pub struct DiscordCommands {
    commands: StringHashMap<InternalCommand>,
}

impl View for DiscordCommands {
    type V = Map<Seq<char>, InternalCommand>;

    closed spec fn view(&self) -> Map<Seq<char>, InternalCommand> {
        self.commands@
    }
}

impl DiscordCommands {
    /// An empty alias table.
    pub fn new() -> (r: DiscordCommands)
        ensures
            r@ == Map::<Seq<char>, InternalCommand>::empty(),
    {
        DiscordCommands { commands: StringHashMap::new() }
    }

    /// Binds the alias to the action, overwriting any previous binding
    /// without warning: the previous descriptor is simply lost.
    pub fn add_command(&mut self, discord_command: String, command: InternalCommand)
        ensures
            final(self)@ == old(self)@.insert(discord_command@, command),
    {
        self.commands.insert(discord_command, command);
    }

    /// Unbinds the alias and hands back what it was bound to, so the caller
    /// can perform paired cleanup; an absent alias is not an error.
    pub fn remove_command(&mut self, discord_command: &str) -> (r: Option<InternalCommand>)
        ensures
            final(self)@ == old(self)@.remove(discord_command@),
            r == (if old(self)@.contains_key(discord_command@) {
                Some(old(self)@[discord_command@])
            } else {
                None::<InternalCommand>
            }),
    {
        let existing = match self.commands.get(discord_command) {
            Some(command) => Some(*command),
            None => None,
        };
        self.commands.remove(discord_command);
        existing
    }

    /// Read-only resolution of an alias.
    pub fn get(&self, discord_command: &str) -> (r: Option<&InternalCommand>)
        ensures
            r == (if self@.contains_key(discord_command@) {
                Some(&self@[discord_command@])
            } else {
                None::<&InternalCommand>
            }),
    {
        self.commands.get(discord_command)
    }
}

/// Registering the same alias twice leaves only the second binding resolvable:
/// the table is as if the first registration had never happened.
pub proof fn lemma_register_overwrites(
    commands: Map<Seq<char>, InternalCommand>,
    alias: Seq<char>,
    first: InternalCommand,
    second: InternalCommand,
)
    ensures
        commands.insert(alias, first).insert(alias, second) == commands.insert(alias, second),
        commands.insert(alias, first).insert(alias, second)[alias] == second,
{
    assert(commands.insert(alias, first).insert(alias, second) =~= commands.insert(
        alias,
        second,
    ));
}

} // verus!
