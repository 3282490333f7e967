//! What each guild has configured: its mute role, its logs channel and its command prefix.

use crate::text::clone_opt_string;
use crate::types::opt_chars;
use std::collections::HashMap;
use vstd::prelude::*;
use vstd::string::*;

verus! {

broadcast use vstd::std_specs::hash::group_hash_axioms;

/// What a guild has configured, with its prefix as a sequence of characters.
pub struct SettingsView {
    pub mute_role_id: Option<u64>,
    pub logs_channel_id: Option<u64>,
    pub prefix: Option<Seq<char>>,
}

/// What a guild has configured. A field that was never set is `None`.
#[derive(Debug)]
pub struct GuildSettings {
    pub mute_role_id: Option<u64>,
    pub logs_channel_id: Option<u64>,
    pub prefix: Option<String>,
}

impl View for GuildSettings {
    type V = SettingsView;

    open spec fn view(&self) -> SettingsView {
        SettingsView {
            mute_role_id: self.mute_role_id,
            logs_channel_id: self.logs_channel_id,
            prefix: opt_chars(self.prefix),
        }
    }
}

impl Clone for GuildSettings {
    fn clone(&self) -> (copy: Self)
        ensures
            copy == *self,
    {
        GuildSettings {
            mute_role_id: self.mute_role_id,
            logs_channel_id: self.logs_channel_id,
            prefix: clone_opt_string(&self.prefix),
        }
    }
}

/// The settings of a guild that has configured nothing.
pub open spec fn unset() -> SettingsView {
    SettingsView { mute_role_id: None, logs_channel_id: None, prefix: None }
}

/// The settings of a guild: those stored for it, and nothing set where none are stored.
pub open spec fn settings_of(table: Map<u64, SettingsView>, guild_id: u64) -> SettingsView {
    if table.contains_key(guild_id) {
        table[guild_id]
    } else {
        unset()
    }
}

/// The settings of every guild that has configured something, by guild id.
#[derive(Debug)]
pub struct SettingsTable {
    rows: HashMap<u64, GuildSettings>,
}

impl View for SettingsTable {
    type V = Map<u64, SettingsView>;

    closed spec fn view(&self) -> Map<u64, SettingsView> {
        self.rows@.map_values(|s: GuildSettings| s@)
    }
}

impl SettingsTable {
    /// A table in which no guild has configured anything.
    pub fn new() -> (table: SettingsTable)
        ensures
            table@ == Map::<u64, SettingsView>::empty(),
    {
        let table = SettingsTable { rows: HashMap::new() };
        assert(table@ =~= Map::<u64, SettingsView>::empty());
        table
    }

    /// The settings of a guild.
    pub fn get(&self, guild_id: u64) -> (settings: GuildSettings)
        ensures
            settings@ == settings_of(self@, guild_id),
    {
        match self.rows.get(&guild_id) {
            Some(stored) => stored.clone(),
            None => GuildSettings { mute_role_id: None, logs_channel_id: None, prefix: None },
        }
    }

    /// Stores the settings of a guild in the place of what was stored for it.
    pub fn put(&mut self, guild_id: u64, settings: GuildSettings)
        ensures
            final(self)@ == old(self)@.insert(guild_id, settings@),
    {
        self.rows.insert(guild_id, settings);
        assert(self@ =~= old(self)@.insert(guild_id, settings@));
    }
}

} // verus!
