//! The store of the bot, and the operations that commands run on it.

use crate::error::Error;
use crate::ledger::Ledger;
use crate::model::{
    highest_id, max_page, page_in_bounds, page_of, position_of, recorded, selection, views,
    without_active, without_id, MAX_ID,
};
use crate::settings::{settings_of, SettingsTable, SettingsView};
use crate::types::{EntryView, ModerationType, ModlogEntry};
use vstd::prelude::*;
use vstd::string::*;

verus! {

/// The two tables of the store: the ledger of moderations and the settings of the guilds.
#[derive(Debug)]
pub struct Database {
    pub moderations: Ledger,
    pub guild_settings: SettingsTable,
}

impl Database {
    /// The invariant of the store: its ledger is well-formed.
    pub open spec fn wf(&self) -> bool {
        self.moderations.wf()
    }

    /// Tells whether the invariant of the store holds.
    pub fn is_well_formed(&self) -> (b: bool)
        ensures
            b == self.wf(),
    {
        self.moderations.is_well_formed()
    }

    /// A store without moderations and without settings.
    pub fn new() -> (database: Database)
        ensures
            database.wf(),
            database.moderations@ == Seq::<EntryView>::empty(),
            database.guild_settings@ == Map::<u64, SettingsView>::empty(),
    {
        Database { moderations: Ledger::new(), guild_settings: SettingsTable::new() }
    }
}

/// The characters of an optional string slice.
pub open spec fn opt_str_chars(text: Option<&str>) -> Option<Seq<char>> {
    match text {
        Some(s) => Some(s@),
        None => None,
    }
}

/// Deactivates every moderation of this kind of a user in a guild, whatever the kind.
pub fn clear_moderations(
    database: &mut Database,
    guild_id: u64,
    user_id: u64,
    moderation_type: ModerationType,
)
    requires
        old(database).wf(),
    ensures
        final(database).wf(),
        final(database).guild_settings == old(database).guild_settings,
        final(database).moderations@ == without_active(
            old(database).moderations@,
            guild_id,
            user_id,
            moderation_type,
        ),
{
    database.moderations.deactivate_by_kind(guild_id, user_id, moderation_type);
}

/// Deactivates the moderation with this id. It is the caller who makes sure that the
/// moderation belongs to the guild on whose behalf it is cleared.
pub fn clear_single_moderation(database: &mut Database, id: u64)
    requires
        old(database).wf(),
    ensures
        final(database).wf(),
        final(database).guild_settings == old(database).guild_settings,
        final(database).moderations@ == without_id(old(database).moderations@, id),
{
    database.moderations.deactivate_by_id(id);
}

/// Records a moderation.
///
/// A ban, mute or timeout takes the place of the active one of its kind against the user;
/// kicks and reversals are recorded as inactive, everything else as active. Where the guild
/// has no id left, nothing changes and the result is `StorageError`.
pub fn add_moderation(
    database: &mut Database,
    guild_id: u64,
    user_id: u64,
    moderator_id: u64,
    moderation_type: ModerationType,
    administered_at: i64,
    expiry_date: Option<i64>,
    reason: Option<&str>,
) -> (r: Result<(), Error>)
    requires
        old(database).wf(),
    ensures
        final(database).wf(),
        final(database).guild_settings == old(database).guild_settings,
        match r {
            Ok(_) => {
                &&& highest_id(old(database).moderations@, guild_id) < MAX_ID
                &&& final(database).moderations@ == recorded(
                    old(database).moderations@,
                    EntryView {
                        id: 0,
                        guild_id,
                        moderation_type,
                        user_id,
                        moderator_id,
                        administered_at,
                        expiry_date,
                        reason: opt_str_chars(reason),
                        active: true,
                    },
                )
            },
            Err(e) => {
                &&& highest_id(old(database).moderations@, guild_id) >= MAX_ID
                &&& e == Error::StorageError
                &&& final(database).moderations@ == old(database).moderations@
            },
        },
{
    let reason = match reason {
        Some(text) => Some(String::from_str(text)),
        None => None,
    };
    match database.moderations.record(
        guild_id,
        user_id,
        moderator_id,
        moderation_type,
        administered_at,
        expiry_date,
        reason,
    ) {
        Ok(_) => Ok(()),
        Err(e) => Err(e),
    }
}

/// Sets the role that muted members of a guild are given.
pub fn set_mute_role(database: &mut Database, guild_id: u64, role_id: u64)
    ensures
        final(database).moderations == old(database).moderations,
        final(database).guild_settings@ == old(database).guild_settings@.insert(
            guild_id,
            SettingsView {
                mute_role_id: Some(role_id),
                ..settings_of(old(database).guild_settings@, guild_id)
            },
        ),
{
    let mut settings = database.guild_settings.get(guild_id);
    settings.mute_role_id = Some(role_id);
    database.guild_settings.put(guild_id, settings);
}

/// The role that muted members of a guild are given, if one is set.
pub fn get_mute_role(database: &Database, guild_id: u64) -> (role_id: Option<u64>)
    ensures
        role_id == settings_of(database.guild_settings@, guild_id).mute_role_id,
{
    database.guild_settings.get(guild_id).mute_role_id
}

/// Sets the channel in which the moderations of a guild are logged.
pub fn set_logs_channel(database: &mut Database, guild_id: u64, channel_id: u64)
    ensures
        final(database).moderations == old(database).moderations,
        final(database).guild_settings@ == old(database).guild_settings@.insert(
            guild_id,
            SettingsView {
                logs_channel_id: Some(channel_id),
                ..settings_of(old(database).guild_settings@, guild_id)
            },
        ),
{
    let mut settings = database.guild_settings.get(guild_id);
    settings.logs_channel_id = Some(channel_id);
    database.guild_settings.put(guild_id, settings);
}

/// The channel in which the moderations of a guild are logged, if one is set.
pub fn get_logs_channel(database: &Database, guild_id: u64) -> (channel_id: Option<u64>)
    ensures
        channel_id == settings_of(database.guild_settings@, guild_id).logs_channel_id,
{
    database.guild_settings.get(guild_id).logs_channel_id
}

/// The prefix of text commands in a guild, if one is set.
pub fn get_prefix(database: &Database, guild_id: u64) -> (prefix: Option<String>)
    ensures
        crate::types::opt_chars(prefix) == settings_of(
            database.guild_settings@,
            guild_id,
        ).prefix,
{
    database.guild_settings.get(guild_id).prefix
}

/// Sets the prefix of text commands in a guild.
pub fn set_prefix(database: &mut Database, guild_id: u64, prefix: &str)
    ensures
        final(database).moderations == old(database).moderations,
        final(database).guild_settings@ == old(database).guild_settings@.insert(
            guild_id,
            SettingsView {
                prefix: Some(prefix@),
                ..settings_of(old(database).guild_settings@, guild_id)
            },
        ),
{
    let mut settings = database.guild_settings.get(guild_id);
    settings.prefix = Some(String::from_str(prefix));
    database.guild_settings.put(guild_id, settings);
}

/// How many moderations of a user a guild has recorded, active or not.
pub fn get_modlog_count(database: &Database, guild_id: u64, user_id: u64) -> (count: usize)
    ensures
        count == selection(database.moderations@, guild_id, user_id, None).len(),
{
    database.moderations.count(guild_id, user_id, None)
}

/// One page of the moderations of a user in a guild, newest first. Pages count from 1.
pub fn get_modlog_page(
    database: &Database,
    guild_id: u64,
    user_id: u64,
    page: usize,
    page_size: usize,
) -> (r: Result<Vec<ModlogEntry>, Error>)
    ensures
        match r {
            Ok(entries) => page_in_bounds(
                selection(database.moderations@, guild_id, user_id, None).len(),
                page as nat,
                page_size as nat,
            ) && views(entries@) == page_of(
                selection(database.moderations@, guild_id, user_id, None),
                page as nat,
                page_size as nat,
            ),
            Err(e) => !page_in_bounds(
                selection(database.moderations@, guild_id, user_id, None).len(),
                page as nat,
                page_size as nat,
            ) && e == Error::PageOutOfBounds(
                page,
                max_page(
                    selection(database.moderations@, guild_id, user_id, None).len(),
                    page_size as nat,
                ) as usize,
            ),
        },
{
    database.moderations.page(guild_id, user_id, None, page, page_size)
}

/// How many warnings of a user in a guild are active.
pub fn get_warning_count(database: &Database, guild_id: u64, user_id: u64) -> (count: usize)
    ensures
        count == selection(
            database.moderations@,
            guild_id,
            user_id,
            Some(ModerationType::Warning),
        ).len(),
{
    database.moderations.count(guild_id, user_id, Some(ModerationType::Warning))
}

/// One page of the active warnings of a user in a guild, newest first. Pages count from 1.
pub fn get_warning_page(
    database: &Database,
    guild_id: u64,
    user_id: u64,
    page: usize,
    page_size: usize,
) -> (r: Result<Vec<ModlogEntry>, Error>)
    ensures
        match r {
            Ok(entries) => page_in_bounds(
                selection(
                    database.moderations@,
                    guild_id,
                    user_id,
                    Some(ModerationType::Warning),
                ).len(),
                page as nat,
                page_size as nat,
            ) && views(entries@) == page_of(
                selection(
                    database.moderations@,
                    guild_id,
                    user_id,
                    Some(ModerationType::Warning),
                ),
                page as nat,
                page_size as nat,
            ),
            Err(e) => !page_in_bounds(
                selection(
                    database.moderations@,
                    guild_id,
                    user_id,
                    Some(ModerationType::Warning),
                ).len(),
                page as nat,
                page_size as nat,
            ) && e == Error::PageOutOfBounds(
                page,
                max_page(
                    selection(
                        database.moderations@,
                        guild_id,
                        user_id,
                        Some(ModerationType::Warning),
                    ).len(),
                    page_size as nat,
                ) as usize,
            ),
        },
{
    database.moderations.page(guild_id, user_id, Some(ModerationType::Warning), page, page_size)
}

/// The moderation with this id. Where there is none, the result is `NotFound`.
pub fn get_single_modlog(database: &Database, id: u64) -> (r: Result<ModlogEntry, Error>)
    ensures
        match r {
            Ok(entry) => position_of(database.moderations@, id) < database.moderations@.len()
                && entry@ == database.moderations@[position_of(database.moderations@, id)],
            Err(e) => position_of(database.moderations@, id) == database.moderations@.len() && e
                == Error::NotFound,
        },
{
    database.moderations.get_by_id(id)
}

} // verus!
