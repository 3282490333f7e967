//! The kinds of moderation actions and the entries that record them.

use crate::error::Error;
use crate::text::clone_opt_string;
use vstd::prelude::*;
use vstd::string::*;

verus! {

/// The kind of a moderation action.
#[derive(Clone, Copy, Debug, PartialEq, Eq, Structural)]
pub enum ModerationType {
    Warning,
    Kick,
    Mute,
    Timeout,
    Ban,
    Unmute,
    Untimeout,
    Unban,
}

impl ModerationType {
    /// The small integer under which the kind is stored.
    pub open spec fn tag(self) -> u8 {
        match self {
            ModerationType::Warning => 0,
            ModerationType::Kick => 1,
            ModerationType::Mute => 2,
            ModerationType::Timeout => 3,
            ModerationType::Ban => 4,
            ModerationType::Unmute => 5,
            ModerationType::Untimeout => 6,
            ModerationType::Unban => 7,
        }
    }

    /// The kind stored under `tag`, if there is one.
    pub open spec fn of_tag(tag: int) -> Option<ModerationType> {
        if tag == 0 {
            Some(ModerationType::Warning)
        } else if tag == 1 {
            Some(ModerationType::Kick)
        } else if tag == 2 {
            Some(ModerationType::Mute)
        } else if tag == 3 {
            Some(ModerationType::Timeout)
        } else if tag == 4 {
            Some(ModerationType::Ban)
        } else if tag == 5 {
            Some(ModerationType::Unmute)
        } else if tag == 6 {
            Some(ModerationType::Untimeout)
        } else if tag == 7 {
            Some(ModerationType::Unban)
        } else {
            None
        }
    }

    /// A sanction that stays in force for a while: at most one of each such kind is active for
    /// a user in a guild, and a new one takes the place of the old.
    pub open spec fn is_sanction(self) -> bool {
        self == ModerationType::Ban || self == ModerationType::Mute || self
            == ModerationType::Timeout
    }

    /// Whether an entry of this kind is active when it is recorded. Kicks and the three
    /// reversals are events, not states: they are never active.
    pub open spec fn starts_active(self) -> bool {
        !(self == ModerationType::Kick || self == ModerationType::Unban || self
            == ModerationType::Unmute || self == ModerationType::Untimeout)
    }

    /// The name of the kind, over the characters of the result.
    pub open spec fn name(self) -> Seq<char> {
        match self {
            ModerationType::Warning => "Warning"@,
            ModerationType::Kick => "Kick"@,
            ModerationType::Mute => "Mute"@,
            ModerationType::Timeout => "Timeout"@,
            ModerationType::Ban => "Ban"@,
            ModerationType::Unmute => "Unmute"@,
            ModerationType::Untimeout => "Untimeout"@,
            ModerationType::Unban => "Unban"@,
        }
    }

    /// Returns the integer under which the kind is stored.
    pub fn as_u8(self) -> (tag: u8)
        ensures
            tag == self.tag(),
            ModerationType::of_tag(tag as int) == Some(self),
    {
        match self {
            ModerationType::Warning => 0,
            ModerationType::Kick => 1,
            ModerationType::Mute => 2,
            ModerationType::Timeout => 3,
            ModerationType::Ban => 4,
            ModerationType::Unmute => 5,
            ModerationType::Untimeout => 6,
            ModerationType::Unban => 7,
        }
    }

    /// Tells whether the kind is a ban, a mute or a timeout.
    pub fn supersedes(self) -> (b: bool)
        ensures
            b == self.is_sanction(),
    {
        match self {
            ModerationType::Ban | ModerationType::Mute | ModerationType::Timeout => true,
            _ => false,
        }
    }

    /// Tells whether an entry of this kind is active when it is recorded.
    pub fn active_when_recorded(self) -> (b: bool)
        ensures
            b == self.starts_active(),
    {
        match self {
            ModerationType::Kick
            | ModerationType::Unban
            | ModerationType::Unmute
            | ModerationType::Untimeout => false,
            _ => true,
        }
    }

    /// The name of the kind, as it is shown to users.
    pub fn to_string(&self) -> (s: String)
        ensures
            s@ == self.name(),
    {
        let name = match self {
            ModerationType::Warning => "Warning",
            ModerationType::Kick => "Kick",
            ModerationType::Mute => "Mute",
            ModerationType::Timeout => "Timeout",
            ModerationType::Ban => "Ban",
            ModerationType::Unmute => "Unmute",
            ModerationType::Untimeout => "Untimeout",
            ModerationType::Unban => "Unban",
        };
        String::from_str(name)
    }
}

impl TryFrom<u8> for ModerationType {
    type Error = Error;

    /// Decodes a stored tag. A tag that names no kind gives `IntEnumError`.
    fn try_from(value: u8) -> (r: Result<Self, Self::Error>)
        ensures
            match r {
                Ok(kind) => ModerationType::of_tag(value as int) == Some(kind) && kind.tag()
                    == value,
                Err(e) => ModerationType::of_tag(value as int).is_none() && e
                    == Error::IntEnumError,
            },
    {
        match value {
            0 => Ok(ModerationType::Warning),
            1 => Ok(ModerationType::Kick),
            2 => Ok(ModerationType::Mute),
            3 => Ok(ModerationType::Timeout),
            4 => Ok(ModerationType::Ban),
            5 => Ok(ModerationType::Unmute),
            6 => Ok(ModerationType::Untimeout),
            7 => Ok(ModerationType::Unban),
            _ => Err(Error::IntEnumError),
        }
    }
}

impl vstd::std_specs::convert::TryFromSpecImpl<u8> for ModerationType {
    open spec fn obeys_try_from_spec() -> bool {
        true
    }

    open spec fn try_from_spec(value: u8) -> Result<Self, Self::Error> {
        match ModerationType::of_tag(value as int) {
            Some(kind) => Ok(kind),
            None => Err(Error::IntEnumError),
        }
    }
}

/// Encoding and decoding are inverse to each other: every kind is stored under a tag below
/// eight that decodes to it, and every tag that decodes is the tag of what it decodes to.
pub proof fn lemma_tag_round_trip(kind: ModerationType, tag: u8)
    ensures
        kind.tag() <= 7,
        ModerationType::of_tag(kind.tag() as int) == Some(kind),
        ModerationType::of_tag(tag as int).is_some() <==> tag <= 7,
        ModerationType::of_tag(tag as int) == Some(kind) <==> kind.tag() == tag,
{
}

/// A platform identifier as the store keeps it: the same 64 bits, read as a signed number.
pub open spec fn to_stored(id: u64) -> i64 {
    if id <= 0x7fff_ffff_ffff_ffff {
        id as i64
    } else {
        (id - 0x1_0000_0000_0000_0000) as i64
    }
}

/// The platform identifier that the store keeps as `value`.
pub open spec fn from_stored(value: i64) -> u64 {
    if value >= 0 {
        value as u64
    } else {
        (value + 0x1_0000_0000_0000_0000) as u64
    }
}

/// Reads the bits of an identifier as a signed number.
pub fn id_to_stored(id: u64) -> (value: i64)
    ensures
        value == to_stored(id),
        from_stored(value) == id,
{
    if id <= 0x7fff_ffff_ffff_ffff {
        id as i64
    } else {
        let low: u64 = id - 0x8000_0000_0000_0000;
        (low as i64) + i64::MIN
    }
}

/// Reads the bits of a stored number as an identifier.
pub fn id_from_stored(value: i64) -> (id: u64)
    ensures
        id == from_stored(value),
        to_stored(id) == value,
{
    if value >= 0 {
        value as u64
    } else {
        let low: i64 = value - i64::MIN;
        (low as u64) + 0x8000_0000_0000_0000
    }
}

/// What an entry holds, with its text as a sequence of characters.
pub struct EntryView {
    pub id: u64,
    pub guild_id: u64,
    pub moderation_type: ModerationType,
    pub user_id: u64,
    pub moderator_id: u64,
    pub administered_at: i64,
    pub expiry_date: Option<i64>,
    pub reason: Option<Seq<char>>,
    pub active: bool,
}

impl EntryView {
    /// The same entry, no longer active.
    pub open spec fn deactivated(self) -> EntryView {
        EntryView { active: false, ..self }
    }

    /// Whether the entry is about this user in this guild and of this kind.
    pub open spec fn concerns(self, guild_id: u64, user_id: u64, kind: ModerationType) -> bool {
        self.guild_id == guild_id && self.user_id == user_id && self.moderation_type == kind
    }

    /// Whether the entry carries an expiry date that lies before `now`.
    pub open spec fn expired(self, now: i64) -> bool {
        self.expiry_date matches Some(at) && at < now
    }
}

/// One moderation action as the ledger records it. Times are seconds since the epoch.
#[derive(Debug)]
pub struct ModlogEntry {
    pub id: u64,
    pub guild_id: u64,
    pub moderation_type: ModerationType,
    pub user_id: u64,
    pub moderator_id: u64,
    pub administered_at: i64,
    pub expiry_date: Option<i64>,
    pub reason: Option<String>,
    pub active: bool,
}

/// The characters of an optional string.
pub open spec fn opt_chars(text: Option<String>) -> Option<Seq<char>> {
    match text {
        Some(s) => Some(s@),
        None => None,
    }
}

impl View for ModlogEntry {
    type V = EntryView;

    open spec fn view(&self) -> EntryView {
        EntryView {
            id: self.id,
            guild_id: self.guild_id,
            moderation_type: self.moderation_type,
            user_id: self.user_id,
            moderator_id: self.moderator_id,
            administered_at: self.administered_at,
            expiry_date: self.expiry_date,
            reason: opt_chars(self.reason),
            active: self.active,
        }
    }
}

impl Clone for ModlogEntry {
    fn clone(&self) -> (copy: Self)
        ensures
            copy == *self,
    {
        ModlogEntry {
            id: self.id,
            guild_id: self.guild_id,
            moderation_type: self.moderation_type,
            user_id: self.user_id,
            moderator_id: self.moderator_id,
            administered_at: self.administered_at,
            expiry_date: self.expiry_date,
            reason: clone_opt_string(&self.reason),
            active: self.active,
        }
    }
}

/// One row of the table of moderations, with the column types of the store: identifiers
/// are kept as signed numbers with the same bits, the kind as its tag.
#[derive(Debug)]
pub struct ModerationRow {
    pub id: i64,
    pub guild_id: i64,
    pub moderation_type: i64,
    pub user_id: i64,
    pub moderator_id: i64,
    pub administered_at: i64,
    pub expiry_date: Option<i64>,
    pub reason: Option<String>,
    pub active: bool,
}

impl ModerationRow {
    /// The entry that the row stands for, where its tag names a kind.
    pub open spec fn decoded(self) -> Option<ModlogEntry> {
        match ModerationType::of_tag(self.moderation_type as int) {
            Some(kind) => Some(
                ModlogEntry {
                    id: from_stored(self.id),
                    guild_id: from_stored(self.guild_id),
                    moderation_type: kind,
                    user_id: from_stored(self.user_id),
                    moderator_id: from_stored(self.moderator_id),
                    administered_at: self.administered_at,
                    expiry_date: self.expiry_date,
                    reason: self.reason,
                    active: self.active,
                },
            ),
            None => None,
        }
    }
}

impl ModlogEntry {
    /// The row under which the entry is stored.
    pub open spec fn encoded(self) -> ModerationRow {
        ModerationRow {
            id: to_stored(self.id),
            guild_id: to_stored(self.guild_id),
            moderation_type: self.moderation_type.tag() as i64,
            user_id: to_stored(self.user_id),
            moderator_id: to_stored(self.moderator_id),
            administered_at: self.administered_at,
            expiry_date: self.expiry_date,
            reason: self.reason,
            active: self.active,
        }
    }

    /// Decodes a stored row. A row whose tag names no kind gives `IntEnumError`.
    pub fn from_row(row: &ModerationRow) -> (r: Result<ModlogEntry, Error>)
        ensures
            match r {
                Ok(entry) => row.decoded() == Some(entry),
                Err(e) => row.decoded().is_none() && e == Error::IntEnumError,
            },
    {
        if row.moderation_type < 0 || row.moderation_type > 7 {
            return Err(Error::IntEnumError);
        }
        let tag: u8 = row.moderation_type as u8;
        match ModerationType::try_from(tag) {
            Ok(kind) => Ok(
                ModlogEntry {
                    id: id_from_stored(row.id),
                    guild_id: id_from_stored(row.guild_id),
                    moderation_type: kind,
                    user_id: id_from_stored(row.user_id),
                    moderator_id: id_from_stored(row.moderator_id),
                    administered_at: row.administered_at,
                    expiry_date: row.expiry_date,
                    reason: clone_opt_string(&row.reason),
                    active: row.active,
                },
            ),
            Err(e) => Err(e),
        }
    }

    /// Encodes the entry as a row of the store. Decoding the row gives the entry back.
    pub fn to_row(&self) -> (row: ModerationRow)
        ensures
            row == self.encoded(),
            row.decoded() == Some(*self),
    {
        ModerationRow {
            id: id_to_stored(self.id),
            guild_id: id_to_stored(self.guild_id),
            moderation_type: self.moderation_type.as_u8() as i64,
            user_id: id_to_stored(self.user_id),
            moderator_id: id_to_stored(self.moderator_id),
            administered_at: self.administered_at,
            expiry_date: self.expiry_date,
            reason: clone_opt_string(&self.reason),
            active: self.active,
        }
    }
}

} // verus!
