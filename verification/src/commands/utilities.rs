//! What the moderation commands share: their wording, their notices and the test for
//! moderators.

use crate::database::{get_logs_channel, Database};
use crate::embed::{blank, with_reason, Color, Embed, EmbedView, FieldView};
use crate::settings::settings_of;
use crate::text::{decimal, push_i64, push_u64, signed_decimal};
use crate::types::{opt_chars, EntryView, ModlogEntry};
use vstd::prelude::*;
use vstd::string::*;

verus! {

/// A message followed by the date on which a sanction ends, if it ends.
pub open spec fn with_expiry(message: Seq<char>, expiry_date: Option<i64>) -> Seq<char> {
    match expiry_date {
        Some(at) => message + " until <t:"@ + signed_decimal(at as int) + ":F>"@,
        None => message,
    }
}

/// Appends to a message the date on which a sanction ends, if it ends. The date is written
/// so that the platform shows it in the reader's own time zone.
pub fn append_expiry_date(message: &str, expiry_date: Option<i64>) -> (text: String)
    ensures
        text@ == with_expiry(message@, expiry_date),
{
    let mut text = String::from_str(message);
    match expiry_date {
        Some(at) => {
            text.append(" until <t:");
            push_i64(&mut text, at);
            text.append(":F>");
        },
        None => {},
    }
    text
}

pub const KICK_MEMBERS: u64 = 0x2;

pub const BAN_MEMBERS: u64 = 0x4;

pub const ADMINISTRATOR: u64 = 0x8;

pub const MANAGE_CHANNELS: u64 = 0x10;

pub const MANAGE_GUILD: u64 = 0x20;

pub const MANAGE_MESSAGES: u64 = 0x2000;

pub const MUTE_MEMBERS: u64 = 0x40_0000;

pub const DEAFEN_MEMBERS: u64 = 0x80_0000;

pub const MOVE_MEMBERS: u64 = 0x100_0000;

pub const MANAGE_NICKNAMES: u64 = 0x800_0000;

pub const MANAGE_ROLES: u64 = 0x1000_0000;

pub const MANAGE_WEBHOOKS: u64 = 0x2000_0000;

pub const MANAGE_THREADS: u64 = 0x4_0000_0000;

pub const MODERATE_MEMBERS: u64 = 0x100_0000_0000;

/// Whether a set of permissions, given by its bits, holds a permission.
pub open spec fn holds(permissions: u64, permission: u64) -> bool {
    permissions & permission == permission
}

/// Whether a set of permissions holds one that only moderators have.
pub open spec fn moderates(permissions: u64) -> bool {
    holds(permissions, KICK_MEMBERS) || holds(permissions, BAN_MEMBERS) || holds(
        permissions,
        ADMINISTRATOR,
    ) || holds(permissions, MANAGE_CHANNELS) || holds(permissions, MANAGE_GUILD) || holds(
        permissions,
        MANAGE_MESSAGES,
    ) || holds(permissions, MUTE_MEMBERS) || holds(permissions, DEAFEN_MEMBERS) || holds(
        permissions,
        MOVE_MEMBERS,
    ) || holds(permissions, MANAGE_NICKNAMES) || holds(permissions, MANAGE_ROLES) || holds(
        permissions,
        MANAGE_WEBHOOKS,
    ) || holds(permissions, MANAGE_THREADS) || holds(permissions, MODERATE_MEMBERS)
}

fn has(permissions: u64, permission: u64) -> (b: bool)
    ensures
        b == holds(permissions, permission),
{
    permissions & permission == permission
}

/// Tells whether a member with these permissions is a moderator, whom the bot does not
/// moderate.
pub fn is_member_moderator(permissions: u64) -> (b: bool)
    ensures
        b == moderates(permissions),
{
    has(permissions, KICK_MEMBERS) || has(permissions, BAN_MEMBERS) || has(
        permissions,
        ADMINISTRATOR,
    ) || has(permissions, MANAGE_CHANNELS) || has(permissions, MANAGE_GUILD) || has(
        permissions,
        MANAGE_MESSAGES,
    ) || has(permissions, MUTE_MEMBERS) || has(permissions, DEAFEN_MEMBERS) || has(
        permissions,
        MOVE_MEMBERS,
    ) || has(permissions, MANAGE_NICKNAMES) || has(permissions, MANAGE_ROLES) || has(
        permissions,
        MANAGE_WEBHOOKS,
    ) || has(permissions, MANAGE_THREADS) || has(permissions, MODERATE_MEMBERS)
}

/// How a truth value is written.
pub open spec fn truth(b: bool) -> Seq<char> {
    if b {
        "true"@
    } else {
        "false"@
    }
}

/// The heading under which an entry is listed.
pub open spec fn entry_heading(e: EntryView) -> Seq<char> {
    "ID "@ + decimal(e.id as nat)
}

/// The line that names the moderator of an entry.
pub open spec fn moderator_line(e: EntryView) -> Seq<char> {
    "\n**Moderator:** <@"@ + decimal(e.moderator_id as nat) + ">"@
}

/// The line that tells when an entry was recorded.
pub open spec fn administered_line(e: EntryView) -> Seq<char> {
    "\n**Administered At:** <t:"@ + signed_decimal(e.administered_at as int) + ":F>"@
}

/// The line that gives the reason of an entry, if it has one.
pub open spec fn reason_line(e: EntryView) -> Seq<char> {
    match e.reason {
        Some(reason) => "\n**Reason:** "@ + reason,
        None => Seq::empty(),
    }
}

/// The line that tells when an entry expires, if it does.
pub open spec fn expiry_line(e: EntryView) -> Seq<char> {
    match e.expiry_date {
        Some(at) => "\n**Expires:** <t:"@ + signed_decimal(at as int) + ":F>"@,
        None => Seq::empty(),
    }
}

/// The line that tells whether an entry is active. Kicks and reversals have none.
pub open spec fn active_line(e: EntryView) -> Seq<char> {
    if e.moderation_type.starts_active() {
        "\n**Active:** "@ + truth(e.active)
    } else {
        Seq::empty()
    }
}

/// What the history of a user shows of an entry.
pub open spec fn modlog_text(e: EntryView) -> Seq<char> {
    moderator_line(e) + ("\n**Type:** "@ + e.moderation_type.name()) + administered_line(e)
        + reason_line(e) + expiry_line(e) + active_line(e)
}

/// The field under which the history of a user shows an entry.
pub open spec fn modlog_field(e: EntryView) -> FieldView {
    FieldView { name: entry_heading(e), value: modlog_text(e), inline: false }
}

/// What the list of warnings of a user shows of an entry.
pub open spec fn warning_text(e: EntryView) -> Seq<char> {
    moderator_line(e) + administered_line(e) + reason_line(e)
}

/// The field under which the list of warnings of a user shows an entry.
pub open spec fn warning_field(e: EntryView) -> FieldView {
    FieldView { name: entry_heading(e), value: warning_text(e), inline: false }
}

fn heading_of(entry: &ModlogEntry) -> (text: String)
    ensures
        text@ == entry_heading(entry@),
{
    let mut text = String::from_str("ID ");
    push_u64(&mut text, entry.id);
    text
}

fn push_moderator(text: &mut String, entry: &ModlogEntry)
    ensures
        final(text)@ == old(text)@ + moderator_line(entry@),
{
    text.append("\n**Moderator:** <@");
    push_u64(text, entry.moderator_id);
    text.append(">");
    assert(final(text)@ =~= old(text)@ + moderator_line(entry@));
}

fn push_administered(text: &mut String, entry: &ModlogEntry)
    ensures
        final(text)@ == old(text)@ + administered_line(entry@),
{
    text.append("\n**Administered At:** <t:");
    push_i64(text, entry.administered_at);
    text.append(":F>");
    assert(final(text)@ =~= old(text)@ + administered_line(entry@));
}

fn push_reason(text: &mut String, entry: &ModlogEntry)
    ensures
        final(text)@ == old(text)@ + reason_line(entry@),
{
    match &entry.reason {
        Some(reason) => {
            text.append("\n**Reason:** ");
            text.append(reason.as_str());
        },
        None => {},
    }
    assert(final(text)@ =~= old(text)@ + reason_line(entry@));
}

fn push_expiry(text: &mut String, entry: &ModlogEntry)
    ensures
        final(text)@ == old(text)@ + expiry_line(entry@),
{
    match entry.expiry_date {
        Some(at) => {
            text.append("\n**Expires:** <t:");
            push_i64(text, at);
            text.append(":F>");
        },
        None => {},
    }
    assert(final(text)@ =~= old(text)@ + expiry_line(entry@));
}

fn push_active(text: &mut String, entry: &ModlogEntry)
    ensures
        final(text)@ == old(text)@ + active_line(entry@),
{
    if entry.moderation_type.active_when_recorded() {
        text.append("\n**Active:** ");
        if entry.active {
            text.append("true");
        } else {
            text.append("false");
        }
    }
    assert(final(text)@ =~= old(text)@ + active_line(entry@));
}

/// Adds to a message one field for each entry, in their order: the id as its name, and as
/// its value the moderator, the kind, the time, the reason and the expiry date where there
/// are any, and whether the entry is active where its kind can be.
pub fn modlog_embed(embed: Embed, modlogs: Vec<ModlogEntry>) -> (shown: Embed)
    ensures
        shown@ == (EmbedView {
            fields: embed@.fields + crate::model::views(modlogs@).map_values(
                |e: EntryView| modlog_field(e),
            ),
            ..embed@
        }),
{
    let ghost start = embed@;
    let ghost entries = crate::model::views(modlogs@);
    let ghost show = |e: EntryView| modlog_field(e);
    let mut shown = embed;
    let mut i: usize = 0;
    while i < modlogs.len()
        invariant
            i <= modlogs.len(),
            entries == crate::model::views(modlogs@),
            show == (|e: EntryView| modlog_field(e)),
            shown@ == (EmbedView {
                fields: start.fields + entries.take(i as int).map_values(show),
                ..start
            }),
        decreases modlogs.len() - i,
    {
        let entry = &modlogs[i];
        let mut text = String::new();
        push_moderator(&mut text, entry);
        text.append("\n**Type:** ");
        let kind = entry.moderation_type.to_string();
        text.append(kind.as_str());
        push_administered(&mut text, entry);
        push_reason(&mut text, entry);
        push_expiry(&mut text, entry);
        push_active(&mut text, entry);
        assert(text@ =~= modlog_text(entry@));
        shown = shown.field(heading_of(entry), text, false);
        proof {
            assert(entries[i as int] == entry@);
            assert(entries.take(i + 1).map_values(show) =~= entries.take(i as int).map_values(
                show,
            ).push(modlog_field(entry@)));
            assert(shown@.fields =~= start.fields + entries.take(i + 1).map_values(show));
        }
        i = i + 1;
    }
    assert(entries.take(i as int) =~= entries);
    shown
}

/// Adds to a message one field for each warning, in their order: the id as its name, and
/// as its value the moderator, the time, and the reason where there is one.
pub fn warnings_embed(embed: Embed, warnings: Vec<ModlogEntry>) -> (shown: Embed)
    ensures
        shown@ == (EmbedView {
            fields: embed@.fields + crate::model::views(warnings@).map_values(
                |e: EntryView| warning_field(e),
            ),
            ..embed@
        }),
{
    let ghost start = embed@;
    let ghost entries = crate::model::views(warnings@);
    let ghost show = |e: EntryView| warning_field(e);
    let mut shown = embed;
    let mut i: usize = 0;
    while i < warnings.len()
        invariant
            i <= warnings.len(),
            entries == crate::model::views(warnings@),
            show == (|e: EntryView| warning_field(e)),
            shown@ == (EmbedView {
                fields: start.fields + entries.take(i as int).map_values(show),
                ..start
            }),
        decreases warnings.len() - i,
    {
        let entry = &warnings[i];
        let mut text = String::new();
        push_moderator(&mut text, entry);
        push_administered(&mut text, entry);
        push_reason(&mut text, entry);
        assert(text@ =~= warning_text(entry@));
        shown = shown.field(heading_of(entry), text, false);
        proof {
            assert(entries[i as int] == entry@);
            assert(entries.take(i + 1).map_values(show) =~= entries.take(i as int).map_values(
                show,
            ).push(warning_field(entry@)));
            assert(shown@.fields =~= start.fields + entries.take(i + 1).map_values(show));
        }
        i = i + 1;
    }
    assert(entries.take(i as int) =~= entries);
    shown
}

/// What a moderation tells the people it concerns, with its texts as sequences of
/// characters.
pub struct NoticeView {
    pub dm_message: Seq<char>,
    pub dm_color: Color,
    pub message_header: Seq<char>,
    pub message: Seq<char>,
    pub color: Color,
    pub dm_fail_message: Seq<char>,
    pub dm_fail_color: Color,
    pub reason: Option<Seq<char>>,
}

/// What a moderation tells the people it concerns: the user by direct message, the
/// moderator by a reply, and the guild in its logs channel.
#[derive(Debug)]
pub struct ModerationNotice {
    pub dm_message: String,
    pub dm_color: Color,
    pub message_header: String,
    pub message: String,
    pub color: Color,
    pub dm_fail_message: String,
    pub dm_fail_color: Color,
    pub reason: Option<String>,
}

impl View for ModerationNotice {
    type V = NoticeView;

    open spec fn view(&self) -> NoticeView {
        NoticeView {
            dm_message: self.dm_message@,
            dm_color: self.dm_color,
            message_header: self.message_header@,
            message: self.message@,
            color: self.color,
            dm_fail_message: self.dm_fail_message@,
            dm_fail_color: self.dm_fail_color,
            reason: opt_chars(self.reason),
        }
    }
}

/// A message to send, with its texts as sequences of characters.
pub enum OutgoingView {
    Reply(EmbedView),
    Log { channel_id: u64, embed: EmbedView },
}

/// A message to send: in reply to the command, or to a channel.
#[derive(Debug)]
pub enum Outgoing {
    Reply(Embed),
    Log { channel_id: u64, embed: Embed },
}

impl View for Outgoing {
    type V = OutgoingView;

    open spec fn view(&self) -> OutgoingView {
        match self {
            Outgoing::Reply(embed) => OutgoingView::Reply(embed@),
            Outgoing::Log { channel_id, embed } => OutgoingView::Log {
                channel_id: *channel_id,
                embed: embed@,
            },
        }
    }
}

/// The views of a sequence of messages, in the same order.
pub open spec fn outgoing_views(messages: Seq<Outgoing>) -> Seq<OutgoingView> {
    messages.map_values(|m: Outgoing| m@)
}

/// A message of one field in a colour, with the reason below it if there is one.
pub open spec fn announcement(
    color: Color,
    header: Seq<char>,
    message: Seq<char>,
    reason: Option<Seq<char>>,
) -> EmbedView {
    with_reason(
        EmbedView {
            color: Some(color),
            fields: seq![FieldView { name: header, value: message, inline: true }],
            ..blank()
        },
        reason,
    )
}

/// The direct message to the user.
pub open spec fn direct_message(notice: NoticeView) -> EmbedView {
    announcement(notice.dm_color, notice.message_header, notice.dm_message, notice.reason)
}

/// The reply to the moderator.
pub open spec fn confirmation(notice: NoticeView) -> EmbedView {
    announcement(notice.color, notice.message_header, notice.message, notice.reason)
}

/// The reply that says that the user could not be told.
pub open spec fn dm_failure(notice: NoticeView) -> EmbedView {
    EmbedView {
        color: Some(notice.dm_fail_color),
        description: Some(notice.dm_fail_message),
        ..blank()
    }
}

/// The line in the logs channel.
pub open spec fn log_line(notice: NoticeView) -> EmbedView {
    with_reason(
        EmbedView {
            color: Some(Color::Blue),
            title: Some("INFO"@),
            description: Some(notice.message),
            ..blank()
        },
        notice.reason,
    )
}

/// The messages that follow the attempt to tell the user: the reply to the moderator; the
/// reply that the user could not be told, if so; the line in the logs channel, if the guild
/// has one.
pub open spec fn messages_after_dm(
    notice: NoticeView,
    dm_delivered: bool,
    logs_channel: Option<u64>,
) -> Seq<OutgoingView> {
    seq![OutgoingView::Reply(confirmation(notice))] + (if dm_delivered {
        Seq::<OutgoingView>::empty()
    } else {
        seq![OutgoingView::Reply(dm_failure(notice))]
    }) + (match logs_channel {
        Some(channel_id) => seq![OutgoingView::Log { channel_id, embed: log_line(notice) }],
        None => Seq::<OutgoingView>::empty(),
    })
}

fn opt_str(text: &Option<String>) -> (r: Option<&str>)
    ensures
        crate::database::opt_str_chars(r) == opt_chars(*text),
{
    match text {
        Some(s) => Some(s.as_str()),
        None => None,
    }
}

impl ModerationNotice {
    /// The direct message that tells the user of the moderation.
    pub fn direct_message(&self) -> (embed: Embed)
        ensures
            embed@ == direct_message(self@),
    {
        let embed = Embed::new().color(self.dm_color).field(
            self.message_header.clone(),
            self.dm_message.clone(),
            true,
        ).reason(opt_str(&self.reason));
        assert(embed@.fields =~= direct_message(self@).fields);
        embed
    }
}

/// The messages to send once the user was told of a moderation, or could not be told: the
/// reply to the moderator; if the direct message failed, a reply that says so; and, if the
/// guild has a logs channel, a line there.
pub fn send_moderation_messages(
    database: &Database,
    guild_id: u64,
    notice: &ModerationNotice,
    dm_delivered: bool,
) -> (messages: Vec<Outgoing>)
    ensures
        outgoing_views(messages@) == messages_after_dm(
            notice@,
            dm_delivered,
            settings_of(database.guild_settings@, guild_id).logs_channel_id,
        ),
{
    let mut messages: Vec<Outgoing> = Vec::new();
    let reply = Embed::new().color(notice.color).field(
        notice.message_header.clone(),
        notice.message.clone(),
        true,
    ).reason(opt_str(&notice.reason));
    assert(reply@.fields =~= confirmation(notice@).fields);
    messages.push(Outgoing::Reply(reply));
    if !dm_delivered {
        let failure = Embed::new().color(notice.dm_fail_color).description(
            notice.dm_fail_message.clone(),
        );
        messages.push(Outgoing::Reply(failure));
    }
    match get_logs_channel(database, guild_id) {
        Some(channel_id) => {
            let line = Embed::new().color(Color::Blue).title(String::from_str("INFO")).description(
                notice.message.clone(),
            ).reason(opt_str(&notice.reason));
            assert(line@.fields =~= log_line(notice@).fields);
            messages.push(Outgoing::Log { channel_id, embed: line });
        },
        None => {},
    }
    assert(outgoing_views(messages@) =~= messages_after_dm(
        notice@,
        dm_delivered,
        settings_of(database.guild_settings@, guild_id).logs_channel_id,
    ));
    messages
}

} // verus!
