//! The moderation commands.
//!
//! A command decides what is to happen and in which order: whom to tell, what to record,
//! and what the platform is to enforce. The caller carries the steps out, one after the
//! other, and stops at the first that fails.

use crate::commands::utilities::{
    is_member_moderator, moderates, modlog_embed, modlog_field, warning_field, warnings_embed,
    with_expiry, ModerationNotice, NoticeView,
};
use crate::database::{
    add_moderation, clear_moderations, clear_single_moderation, get_modlog_count,
    get_modlog_page, get_mute_role, get_single_modlog, get_warning_count, get_warning_page,
    Database,
};
use crate::embed::{blank, Color, Embed, EmbedView, FieldView};
use crate::error::{Error, ModerationError};
use crate::model::{
    highest_id, max_page, page_in_bounds, page_of, position_of, recorded, selection, views,
    without_active, without_id, MAX_ID,
};
use crate::settings::settings_of;
use crate::text::{clone_opt_string, decimal, push_u64};
use crate::timestamps::{end_of, expiry_date, timestamp_accepted};
use crate::types::{opt_chars, EntryView, ModerationType};
use vstd::prelude::*;
use vstd::string::*;

verus! {

/// Who moderates whom, where, when and why, with its texts as sequences of characters.
pub struct RequestView {
    pub guild_id: u64,
    pub guild_name: Seq<char>,
    pub user_id: u64,
    pub moderator_id: u64,
    pub administered_at: i64,
    pub reason: Option<Seq<char>>,
}

/// Who moderates whom, where, when and why.
#[derive(Debug)]
pub struct ModerationRequest {
    pub guild_id: u64,
    pub guild_name: String,
    pub user_id: u64,
    pub moderator_id: u64,
    pub administered_at: i64,
    pub reason: Option<String>,
}

impl View for ModerationRequest {
    type V = RequestView;

    open spec fn view(&self) -> RequestView {
        RequestView {
            guild_id: self.guild_id,
            guild_name: self.guild_name@,
            user_id: self.user_id,
            moderator_id: self.moderator_id,
            administered_at: self.administered_at,
            reason: opt_chars(self.reason),
        }
    }
}

/// What the platform is to do to the user of a request, with its texts as sequences of
/// characters.
pub enum EnforcementView {
    Ban { reason: Option<Seq<char>> },
    Unban,
    Kick { reason: Option<Seq<char>> },
    TimeoutUntil { until: i64 },
    EndTimeout,
    GrantRole { role_id: u64 },
    RevokeRole { role_id: u64 },
}

/// What the platform is to do to the user of a request.
#[derive(Debug)]
pub enum Enforcement {
    Ban { reason: Option<String> },
    Unban,
    Kick { reason: Option<String> },
    TimeoutUntil { until: i64 },
    EndTimeout,
    GrantRole { role_id: u64 },
    RevokeRole { role_id: u64 },
}

impl View for Enforcement {
    type V = EnforcementView;

    open spec fn view(&self) -> EnforcementView {
        match self {
            Enforcement::Ban { reason } => EnforcementView::Ban { reason: opt_chars(*reason) },
            Enforcement::Unban => EnforcementView::Unban,
            Enforcement::Kick { reason } => EnforcementView::Kick { reason: opt_chars(*reason) },
            Enforcement::TimeoutUntil { until } => EnforcementView::TimeoutUntil {
                until: *until,
            },
            Enforcement::EndTimeout => EnforcementView::EndTimeout,
            Enforcement::GrantRole { role_id } => EnforcementView::GrantRole {
                role_id: *role_id,
            },
            Enforcement::RevokeRole { role_id } => EnforcementView::RevokeRole {
                role_id: *role_id,
            },
        }
    }
}

/// One step of a command, with its texts as sequences of characters.
pub enum StepView {
    Notify(NoticeView),
    Clear(ModerationType),
    Record { moderation_type: ModerationType, expiry_date: Option<i64> },
    Enforce(EnforcementView),
}

/// One step of a command.
#[derive(Debug)]
pub enum Step {
    /// Tell the user, the moderator and the logs channel.
    Notify(ModerationNotice),
    /// Deactivate what is active of this kind against the user.
    Clear(ModerationType),
    /// Record the moderation in the ledger.
    Record { moderation_type: ModerationType, expiry_date: Option<i64> },
    /// Have the platform act on the user.
    Enforce(Enforcement),
}

impl View for Step {
    type V = StepView;

    open spec fn view(&self) -> StepView {
        match self {
            Step::Notify(notice) => StepView::Notify(notice@),
            Step::Clear(kind) => StepView::Clear(*kind),
            Step::Record { moderation_type, expiry_date } => StepView::Record {
                moderation_type: *moderation_type,
                expiry_date: *expiry_date,
            },
            Step::Enforce(action) => StepView::Enforce(action@),
        }
    }
}

/// The views of a sequence of steps, in the same order.
pub open spec fn step_views(steps: Seq<Step>) -> Seq<StepView> {
    steps.map_values(|s: Step| s@)
}

/// The reply that says that the user could not be told of the moderation.
pub open spec fn dm_failed_text(user_id: u64) -> Seq<char> {
    "I was unable to DM <@"@ + decimal(user_id as nat) + "> about their moderation."@
}

/// The notice of a moderation. The direct message names the guild between an opening and
/// a closing; the reply names the user and what was done; both end with the expiry date if
/// there is one.
pub open spec fn notice_of(
    request: RequestView,
    dm_opening: Seq<char>,
    dm_closing: Seq<char>,
    dm_color: Color,
    header: Seq<char>,
    done: Seq<char>,
    expiry_date: Option<i64>,
) -> NoticeView {
    NoticeView {
        dm_message: with_expiry(dm_opening + request.guild_name + dm_closing, expiry_date),
        dm_color,
        message_header: header,
        message: with_expiry(
            "User <@"@ + decimal(request.user_id as nat) + "> has been "@ + done,
            expiry_date,
        ),
        color: Color::Green,
        dm_fail_message: dm_failed_text(request.user_id),
        dm_fail_color: Color::Red,
        reason: request.reason,
    }
}

fn notice(
    request: &ModerationRequest,
    dm_opening: &str,
    dm_closing: &str,
    dm_color: Color,
    header: &str,
    done: &str,
    expiry_date: Option<i64>,
) -> (r: ModerationNotice)
    ensures
        r@ == notice_of(
            request@,
            dm_opening@,
            dm_closing@,
            dm_color,
            header@,
            done@,
            expiry_date,
        ),
{
    let mut dm = String::from_str(dm_opening);
    dm.append(request.guild_name.as_str());
    dm.append(dm_closing);
    let dm_message = crate::commands::utilities::append_expiry_date(dm.as_str(), expiry_date);
    let mut said = String::from_str("User <@");
    push_u64(&mut said, request.user_id);
    said.append("> has been ");
    said.append(done);
    let message = crate::commands::utilities::append_expiry_date(said.as_str(), expiry_date);
    let mut failed = String::from_str("I was unable to DM <@");
    push_u64(&mut failed, request.user_id);
    failed.append("> about their moderation.");
    ModerationNotice {
        dm_message,
        dm_color,
        message_header: String::from_str(header),
        message,
        color: Color::Green,
        dm_fail_message: failed,
        dm_fail_color: Color::Red,
        reason: clone_opt_string(&request.reason),
    }
}

/// The error that refuses to moderate a moderator.
pub open spec fn is_moderator_error(e: Error, user_id: u64) -> bool {
    e matches Error::ModerationError(ModerationError::MemberIsModerator(user)) && user
        == user_id
}

/// The error that says that the guild has set no mute role.
pub open spec fn is_mute_role_missing(e: Error) -> bool {
    e matches Error::ConfigNotSetError(name) && name@ == "%muterole"@
}

/// The steps of a warning.
pub open spec fn warn_steps(request: RequestView) -> Seq<StepView> {
    seq![
        StepView::Notify(
            notice_of(
                request,
                "You have been warned in **"@,
                "**"@,
                Color::Red,
                "Zap!"@,
                "warned"@,
                None,
            ),
        ),
        StepView::Record { moderation_type: ModerationType::Warning, expiry_date: None },
    ]
}

/// Warns a user: the user is told, then the warning is recorded. A moderator is not warned.
pub fn warn(request: &ModerationRequest, target_permissions: u64) -> (r: Result<Vec<Step>, Error>)
    ensures
        match r {
            Ok(steps) => !moderates(target_permissions) && step_views(steps@) == warn_steps(
                request@,
            ),
            Err(e) => moderates(target_permissions) && is_moderator_error(e, request.user_id),
        },
{
    if is_member_moderator(target_permissions) {
        return Err(Error::ModerationError(ModerationError::MemberIsModerator(request.user_id)));
    }
    let mut steps: Vec<Step> = Vec::new();
    steps.push(
        Step::Notify(
            notice(request, "You have been warned in **", "**", Color::Red, "Zap!", "warned", None),
        ),
    );
    steps.push(Step::Record { moderation_type: ModerationType::Warning, expiry_date: None });
    assert(step_views(steps@) =~= warn_steps(request@));
    Ok(steps)
}

/// The date on which a sanction of an optional length ends, if the length is given and the
/// platform can represent the date.
pub open spec fn expiry_of(administered_at: i64, length: Option<u64>) -> Option<Option<i64>> {
    match length {
        None => Some(None),
        Some(secs) => match end_of(administered_at, secs) {
            Some(end) => if timestamp_accepted(end) {
                Some(Some(end))
            } else {
                None
            },
            None => None,
        },
    }
}

/// The date on which a sanction of an optional length ends.
///
/// Where the platform cannot represent that date, the result is `InvalidTimestamp`.
pub fn optional_expiry(administered_at: i64, length: Option<u64>) -> (r: Result<
    Option<i64>,
    Error,
>)
    ensures
        match r {
            Ok(expiry) => expiry_of(administered_at, length) == Some(expiry),
            Err(e) => expiry_of(administered_at, length).is_none() && e
                == Error::InvalidTimestamp,
        },
{
    match length {
        None => Ok(None),
        Some(secs) => match expiry_date(administered_at, secs) {
            Ok(end) => Ok(Some(end)),
            Err(e) => Err(e),
        },
    }
}

/// The steps of a ban that ends at `expiry_date`, if it ends.
pub open spec fn ban_steps(request: RequestView, expiry_date: Option<i64>) -> Seq<StepView> {
    seq![
        StepView::Notify(
            notice_of(
                request,
                "You have been banned from **"@,
                "**"@,
                Color::Red,
                "Zap!"@,
                "banned"@,
                expiry_date,
            ),
        ),
        StepView::Record { moderation_type: ModerationType::Ban, expiry_date },
        StepView::Enforce(EnforcementView::Ban { reason: request.reason }),
    ]
}

/// Bans a user, for a length of time if one is given: the user is told, the ban is recorded,
/// then the platform bans. The length must give a date that the platform can represent, and
/// a moderator is not banned.
pub fn ban(request: &ModerationRequest, target_permissions: u64, length: Option<u64>) -> (r:
    Result<Vec<Step>, Error>)
    ensures
        match r {
            Ok(steps) => {
                &&& !moderates(target_permissions)
                &&& expiry_of(request.administered_at, length) matches Some(expiry)
                &&& step_views(steps@) == ban_steps(request@, expiry)
            },
            Err(e) => if expiry_of(request.administered_at, length).is_none() {
                e == Error::InvalidTimestamp
            } else {
                moderates(target_permissions) && is_moderator_error(e, request.user_id)
            },
        },
{
    let expiry = match optional_expiry(request.administered_at, length) {
        Ok(expiry) => expiry,
        Err(e) => {
            return Err(e);
        },
    };
    if is_member_moderator(target_permissions) {
        return Err(Error::ModerationError(ModerationError::MemberIsModerator(request.user_id)));
    }
    let mut steps: Vec<Step> = Vec::new();
    steps.push(
        Step::Notify(
            notice(
                request,
                "You have been banned from **",
                "**",
                Color::Red,
                "Zap!",
                "banned",
                expiry,
            ),
        ),
    );
    steps.push(Step::Record { moderation_type: ModerationType::Ban, expiry_date: expiry });
    steps.push(Step::Enforce(Enforcement::Ban { reason: clone_opt_string(&request.reason) }));
    assert(step_views(steps@) =~= ban_steps(request@, expiry));
    Ok(steps)
}

/// The steps of lifting a ban.
pub open spec fn unban_steps(request: RequestView) -> Seq<StepView> {
    seq![
        StepView::Notify(
            notice_of(
                request,
                "You have been unbanned from **"@,
                "**"@,
                Color::Green,
                "!paZ"@,
                "unbanned"@,
                None,
            ),
        ),
        StepView::Enforce(EnforcementView::Unban),
        StepView::Clear(ModerationType::Ban),
        StepView::Record { moderation_type: ModerationType::Unban, expiry_date: None },
    ]
}

/// Lifts the ban of a user: the user is told, the platform lifts the ban, the active ban is
/// deactivated, and the lifting is recorded.
pub fn unban(request: &ModerationRequest) -> (steps: Vec<Step>)
    ensures
        step_views(steps@) == unban_steps(request@),
{
    let mut steps: Vec<Step> = Vec::new();
    steps.push(
        Step::Notify(
            notice(
                request,
                "You have been unbanned from **",
                "**",
                Color::Green,
                "!paZ",
                "unbanned",
                None,
            ),
        ),
    );
    steps.push(Step::Enforce(Enforcement::Unban));
    steps.push(Step::Clear(ModerationType::Ban));
    steps.push(Step::Record { moderation_type: ModerationType::Unban, expiry_date: None });
    assert(step_views(steps@) =~= unban_steps(request@));
    steps
}

/// The steps of a kick.
pub open spec fn kick_steps(request: RequestView) -> Seq<StepView> {
    seq![
        StepView::Notify(
            notice_of(
                request,
                "You have been kicked from **"@,
                "**!"@,
                Color::Red,
                "Zap!"@,
                "kicked"@,
                None,
            ),
        ),
        StepView::Record { moderation_type: ModerationType::Kick, expiry_date: None },
        StepView::Enforce(EnforcementView::Kick { reason: request.reason }),
    ]
}

/// Kicks a user: the user is told, the kick is recorded, then the platform kicks. A
/// moderator is not kicked.
pub fn kick(request: &ModerationRequest, target_permissions: u64) -> (r: Result<Vec<Step>, Error>)
    ensures
        match r {
            Ok(steps) => !moderates(target_permissions) && step_views(steps@) == kick_steps(
                request@,
            ),
            Err(e) => moderates(target_permissions) && is_moderator_error(e, request.user_id),
        },
{
    if is_member_moderator(target_permissions) {
        return Err(Error::ModerationError(ModerationError::MemberIsModerator(request.user_id)));
    }
    let mut steps: Vec<Step> = Vec::new();
    steps.push(
        Step::Notify(
            notice(request, "You have been kicked from **", "**!", Color::Red, "Zap!", "kicked", None),
        ),
    );
    steps.push(Step::Record { moderation_type: ModerationType::Kick, expiry_date: None });
    steps.push(Step::Enforce(Enforcement::Kick { reason: clone_opt_string(&request.reason) }));
    assert(step_views(steps@) =~= kick_steps(request@));
    Ok(steps)
}

/// The steps of a timeout that ends at `until`.
pub open spec fn timeout_steps(request: RequestView, until: i64) -> Seq<StepView> {
    seq![
        StepView::Enforce(EnforcementView::TimeoutUntil { until }),
        StepView::Notify(
            notice_of(
                request,
                "You have been timed out from **"@,
                "**"@,
                Color::Red,
                "Zap!"@,
                "timed out"@,
                Some(until),
            ),
        ),
        StepView::Record { moderation_type: ModerationType::Timeout, expiry_date: Some(until) },
    ]
}

/// Times a user out for a length of time: the platform is asked first, since it refuses
/// timeouts that are too long; then the user is told and the timeout is recorded. The
/// length must give a date that the platform can represent, and a moderator is not timed
/// out.
pub fn timeout(request: &ModerationRequest, target_permissions: u64, length: u64) -> (r: Result<
    Vec<Step>,
    Error,
>)
    ensures
        match r {
            Ok(steps) => {
                &&& !moderates(target_permissions)
                &&& expiry_of(request.administered_at, Some(length)) matches Some(Some(until))
                &&& step_views(steps@) == timeout_steps(request@, until)
            },
            Err(e) => if expiry_of(request.administered_at, Some(length)).is_none() {
                e == Error::InvalidTimestamp
            } else {
                moderates(target_permissions) && is_moderator_error(e, request.user_id)
            },
        },
{
    let until = match expiry_date(request.administered_at, length) {
        Ok(until) => until,
        Err(e) => {
            return Err(e);
        },
    };
    if is_member_moderator(target_permissions) {
        return Err(Error::ModerationError(ModerationError::MemberIsModerator(request.user_id)));
    }
    let mut steps: Vec<Step> = Vec::new();
    steps.push(Step::Enforce(Enforcement::TimeoutUntil { until }));
    steps.push(
        Step::Notify(
            notice(
                request,
                "You have been timed out from **",
                "**",
                Color::Red,
                "Zap!",
                "timed out",
                Some(until),
            ),
        ),
    );
    steps.push(
        Step::Record { moderation_type: ModerationType::Timeout, expiry_date: Some(until) },
    );
    assert(step_views(steps@) =~= timeout_steps(request@, until));
    Ok(steps)
}

/// What the moderator is told when the platform refuses a timeout.
pub fn timeout_refused() -> (embed: Embed)
    ensures
        embed@ == (EmbedView {
            color: Some(Color::Red),
            description: Some("Timeouts must be shorter than 28 days."@),
            ephemeral: true,
            ..blank()
        }),
{
    Embed::new().color(Color::Red).description(
        String::from_str("Timeouts must be shorter than 28 days."),
    ).ephemeral(true)
}

/// The steps of ending a timeout.
pub open spec fn untimeout_steps(request: RequestView) -> Seq<StepView> {
    seq![
        StepView::Clear(ModerationType::Timeout),
        StepView::Enforce(EnforcementView::EndTimeout),
        StepView::Notify(
            notice_of(
                request,
                "You have been untimed out from **"@,
                "**"@,
                Color::Green,
                "!paZ"@,
                "untimed out"@,
                None,
            ),
        ),
        StepView::Record { moderation_type: ModerationType::Untimeout, expiry_date: None },
    ]
}

/// Ends the timeout of a user: the active timeout is deactivated, the platform ends the
/// timeout, the user is told, and the ending is recorded.
pub fn untimeout(request: &ModerationRequest) -> (steps: Vec<Step>)
    ensures
        step_views(steps@) == untimeout_steps(request@),
{
    let mut steps: Vec<Step> = Vec::new();
    steps.push(Step::Clear(ModerationType::Timeout));
    steps.push(Step::Enforce(Enforcement::EndTimeout));
    steps.push(
        Step::Notify(
            notice(
                request,
                "You have been untimed out from **",
                "**",
                Color::Green,
                "!paZ",
                "untimed out",
                None,
            ),
        ),
    );
    steps.push(Step::Record { moderation_type: ModerationType::Untimeout, expiry_date: None });
    assert(step_views(steps@) =~= untimeout_steps(request@));
    steps
}

/// The steps of a mute with the role `role_id` that ends at `expiry_date`, if it ends.
pub open spec fn mute_steps(request: RequestView, role_id: u64, expiry_date: Option<i64>) -> Seq<
    StepView,
> {
    seq![
        StepView::Notify(
            notice_of(
                request,
                "You have been muted in **"@,
                "**"@,
                Color::Red,
                "Zap!"@,
                "muted"@,
                expiry_date,
            ),
        ),
        StepView::Record { moderation_type: ModerationType::Mute, expiry_date },
        StepView::Enforce(EnforcementView::GrantRole { role_id }),
    ]
}

/// Mutes a user, for a length of time if one is given: the user is told, the mute is
/// recorded, then the user is given the mute role of the guild. A moderator is not muted;
/// the guild must have set a mute role; and the length must give a date that the platform
/// can represent.
pub fn mute(
    database: &Database,
    request: &ModerationRequest,
    target_permissions: u64,
    length: Option<u64>,
) -> (r: Result<Vec<Step>, Error>)
    ensures
        match r {
            Ok(steps) => {
                &&& !moderates(target_permissions)
                &&& settings_of(database.guild_settings@, request.guild_id).mute_role_id
                    matches Some(role_id)
                &&& expiry_of(request.administered_at, length) matches Some(expiry)
                &&& step_views(steps@) == mute_steps(request@, role_id, expiry)
            },
            Err(e) => if moderates(target_permissions) {
                is_moderator_error(e, request.user_id)
            } else if settings_of(
                database.guild_settings@,
                request.guild_id,
            ).mute_role_id.is_none() {
                is_mute_role_missing(e)
            } else {
                expiry_of(request.administered_at, length).is_none() && e
                    == Error::InvalidTimestamp
            },
        },
{
    if is_member_moderator(target_permissions) {
        return Err(Error::ModerationError(ModerationError::MemberIsModerator(request.user_id)));
    }
    let role_id = match get_mute_role(database, request.guild_id) {
        Some(role_id) => role_id,
        None => {
            return Err(Error::ConfigNotSetError(String::from_str("%muterole")));
        },
    };
    let expiry = match optional_expiry(request.administered_at, length) {
        Ok(expiry) => expiry,
        Err(e) => {
            return Err(e);
        },
    };
    let mut steps: Vec<Step> = Vec::new();
    steps.push(
        Step::Notify(
            notice(request, "You have been muted in **", "**", Color::Red, "Zap!", "muted", expiry),
        ),
    );
    steps.push(Step::Record { moderation_type: ModerationType::Mute, expiry_date: expiry });
    steps.push(Step::Enforce(Enforcement::GrantRole { role_id }));
    assert(step_views(steps@) =~= mute_steps(request@, role_id, expiry));
    Ok(steps)
}

/// The steps of ending a mute with the role `role_id`. The notice names the date that the
/// length gives, if one is given.
pub open spec fn unmute_steps(request: RequestView, role_id: u64, expiry_date: Option<i64>) -> Seq<
    StepView,
> {
    seq![
        StepView::Notify(
            notice_of(
                request,
                "You have been unmuted in **"@,
                "**"@,
                Color::Red,
                "!paZ"@,
                "unmuted"@,
                expiry_date,
            ),
        ),
        StepView::Clear(ModerationType::Mute),
        StepView::Enforce(EnforcementView::RevokeRole { role_id }),
        StepView::Record { moderation_type: ModerationType::Unmute, expiry_date: None },
    ]
}

/// Ends the mute of a user: the user is told, the active mute is deactivated, the mute role
/// of the guild is taken from the user, and the ending is recorded. The guild must have set
/// a mute role, and a length, if given, must give a date that the platform can represent.
pub fn unmute(database: &Database, request: &ModerationRequest, length: Option<u64>) -> (r:
    Result<Vec<Step>, Error>)
    ensures
        match r {
            Ok(steps) => {
                &&& settings_of(database.guild_settings@, request.guild_id).mute_role_id
                    matches Some(role_id)
                &&& expiry_of(request.administered_at, length) matches Some(expiry)
                &&& step_views(steps@) == unmute_steps(request@, role_id, expiry)
            },
            Err(e) => if settings_of(
                database.guild_settings@,
                request.guild_id,
            ).mute_role_id.is_none() {
                is_mute_role_missing(e)
            } else {
                expiry_of(request.administered_at, length).is_none() && e
                    == Error::InvalidTimestamp
            },
        },
{
    let role_id = match get_mute_role(database, request.guild_id) {
        Some(role_id) => role_id,
        None => {
            return Err(Error::ConfigNotSetError(String::from_str("%muterole")));
        },
    };
    let expiry = match optional_expiry(request.administered_at, length) {
        Ok(expiry) => expiry,
        Err(e) => {
            return Err(e);
        },
    };
    let mut steps: Vec<Step> = Vec::new();
    steps.push(
        Step::Notify(
            notice(
                request,
                "You have been unmuted in **",
                "**",
                Color::Red,
                "!paZ",
                "unmuted",
                expiry,
            ),
        ),
    );
    steps.push(Step::Clear(ModerationType::Mute));
    steps.push(Step::Enforce(Enforcement::RevokeRole { role_id }));
    steps.push(Step::Record { moderation_type: ModerationType::Unmute, expiry_date: None });
    assert(step_views(steps@) =~= unmute_steps(request@, role_id, expiry));
    Ok(steps)
}

/// The ledger after a step of a command was carried out on it. Only clearing and recording
/// change the ledger.
pub open spec fn ledger_after(
    ledger: Seq<EntryView>,
    request: RequestView,
    step: StepView,
) -> Seq<EntryView> {
    match step {
        StepView::Clear(kind) => without_active(
            ledger,
            request.guild_id,
            request.user_id,
            kind,
        ),
        StepView::Record { moderation_type, expiry_date } => if highest_id(
            ledger,
            request.guild_id,
        ) < MAX_ID {
            recorded(
                ledger,
                EntryView {
                    id: 0,
                    guild_id: request.guild_id,
                    moderation_type,
                    user_id: request.user_id,
                    moderator_id: request.moderator_id,
                    administered_at: request.administered_at,
                    expiry_date,
                    reason: request.reason,
                    active: true,
                },
            )
        } else {
            ledger
        },
        _ => ledger,
    }
}

/// Carries out on the store what a step of a command asks of it: a clearing deactivates,
/// a recording records with the data of the request, and the other steps, which are for the
/// platform, leave the store alone. Only a recording can fail: with `StorageError`, where
/// the guild has no id left.
pub fn apply_step(database: &mut Database, request: &ModerationRequest, step: &Step) -> (r:
    Result<(), Error>)
    requires
        old(database).wf(),
    ensures
        final(database).wf(),
        final(database).guild_settings == old(database).guild_settings,
        final(database).moderations@ == ledger_after(old(database).moderations@, request@, step@),
        match r {
            Ok(_) => !(step is Record && highest_id(old(database).moderations@, request.guild_id)
                >= MAX_ID),
            Err(e) => step is Record && highest_id(old(database).moderations@, request.guild_id)
                >= MAX_ID && e == Error::StorageError,
        },
{
    match step {
        Step::Clear(kind) => {
            clear_moderations(database, request.guild_id, request.user_id, *kind);
            Ok(())
        },
        Step::Record { moderation_type, expiry_date } => {
            let reason = match &request.reason {
                Some(text) => Some(text.as_str()),
                None => None,
            };
            add_moderation(
                database,
                request.guild_id,
                request.user_id,
                request.moderator_id,
                *moderation_type,
                request.administered_at,
                *expiry_date,
                reason,
            )
        },
        _ => Ok(()),
    }
}

/// The reply that confirms that a warning was deleted.
pub open spec fn warning_deleted(id: u64) -> EmbedView {
    EmbedView {
        color: Some(Color::Green),
        fields: seq![
            FieldView {
                name: "Done!"@,
                value: "Deleted warning **"@ + decimal(id as nat) + "**"@,
                inline: true,
            },
        ],
        ..blank()
    }
}

/// Why a warning cannot be deleted on behalf of a guild.
#[derive(Debug, Clone, Copy, PartialEq, Eq, Structural)]
pub enum Refusal {
    /// No entry has the id.
    Unknown,
    /// The entry belongs to another guild.
    OtherGuild,
    /// The entry is no warning.
    NotAWarning,
}

/// Why the entry with this id cannot be deleted as a warning of this guild, if it cannot.
pub open spec fn delwarn_refusal(ledger: Seq<EntryView>, guild_id: u64, id: u64) -> Option<
    Refusal,
> {
    let at = position_of(ledger, id);
    if at >= ledger.len() {
        Some(Refusal::Unknown)
    } else if ledger[at].guild_id != guild_id {
        Some(Refusal::OtherGuild)
    } else if ledger[at].moderation_type != ModerationType::Warning {
        Some(Refusal::NotAWarning)
    } else {
        None
    }
}

/// Whether an error reports this refusal for this id and this guild.
pub open spec fn reports(e: Error, refusal: Refusal, id: u64, guild_name: Seq<char>) -> bool {
    match refusal {
        Refusal::Unknown => e == Error::NotFound,
        Refusal::OtherGuild => e matches Error::ModerationError(
            ModerationError::ModlogNotInGuild(what, guild),
        ) && what == id && guild@ == guild_name,
        Refusal::NotAWarning => e matches Error::ModerationError(
            ModerationError::NotAWarning(what),
        ) && what == id,
    }
}

/// Deletes a warning on behalf of a guild: the entry with this id is deactivated, and the
/// result is the reply that says so.
///
/// Nothing changes and the result is an error where no entry has the id (`NotFound`), where
/// the entry belongs to another guild (`ModlogNotInGuild`, with the id and the name of the
/// guild), or where it is no warning (`NotAWarning`).
pub fn delwarn(database: &mut Database, guild_id: u64, guild_name: &str, id: u64) -> (r: Result<
    Embed,
    Error,
>)
    requires
        old(database).wf(),
    ensures
        final(database).wf(),
        final(database).guild_settings == old(database).guild_settings,
        match r {
            Ok(reply) => delwarn_refusal(old(database).moderations@, guild_id, id).is_none()
                && final(database).moderations@ == without_id(old(database).moderations@, id)
                && reply@ == warning_deleted(id),
            Err(e) => {
                &&& final(database).moderations@ == old(database).moderations@
                &&& delwarn_refusal(old(database).moderations@, guild_id, id) matches Some(refusal)
                &&& reports(e, refusal, id, guild_name@)
            },
        },
{
    let modlog = match get_single_modlog(database, id) {
        Ok(modlog) => modlog,
        Err(e) => {
            return Err(e);
        },
    };
    if modlog.guild_id != guild_id {
        return Err(
            Error::ModerationError(
                ModerationError::ModlogNotInGuild(id, String::from_str(guild_name)),
            ),
        );
    }
    if modlog.moderation_type != ModerationType::Warning {
        return Err(Error::ModerationError(ModerationError::NotAWarning(id)));
    }
    clear_single_moderation(database, id);
    let mut text = String::from_str("Deleted warning **");
    push_u64(&mut text, id);
    text.append("**");
    let reply = Embed::new().color(Color::Green).field(String::from_str("Done!"), text, true);
    assert(reply@.fields =~= warning_deleted(id).fields);
    Ok(reply)
}

/// The number of entries on a page of a listing.
pub const LISTING_PAGE_SIZE: usize = 10;

/// The footer of a listing: the page shown, and how many pages can be shown, which is one
/// more than the number of full pages.
pub open spec fn listing_footer(page: usize, count: nat) -> Seq<char> {
    "Page "@ + decimal(page as nat) + " of "@ + decimal(count / 10 + 1)
}

fn footer_of(page: usize, count: usize) -> (text: String)
    ensures
        text@ == listing_footer(page, count as nat),
{
    let mut text = String::from_str("Page ");
    push_u64(&mut text, page as u64);
    text.append(" of ");
    push_u64(&mut text, (count / 10 + 1) as u64);
    text
}

/// The page that a listing shows where none is asked for: the first.
pub open spec fn page_or_first(page: Option<usize>) -> usize {
    match page {
        Some(page) => page,
        None => 1,
    }
}

/// The listing of the active warnings of a user.
pub open spec fn warnings_listing(
    ledger: Seq<EntryView>,
    guild_id: u64,
    user_id: u64,
    user_name: Seq<char>,
    page: usize,
) -> EmbedView {
    let picked = selection(ledger, guild_id, user_id, Some(ModerationType::Warning));
    EmbedView {
        color: Some(Color::Blue),
        title: Some("Warnings for "@ + user_name),
        fields: page_of(picked, page as nat, 10).map_values(|e: EntryView| warning_field(e)),
        footer: Some(listing_footer(page, picked.len())),
        ..blank()
    }
}

/// Lists one page of the active warnings of a user in a guild, newest first; without a page
/// number, the first page.
///
/// Where the page lies beyond the warnings, the result is `PageOutOfBounds`.
pub fn warnings(
    database: &Database,
    guild_id: u64,
    user_id: u64,
    user_name: &str,
    page: Option<usize>,
) -> (r: Result<Embed, Error>)
    ensures
        ({
            let count = selection(
                database.moderations@,
                guild_id,
                user_id,
                Some(ModerationType::Warning),
            ).len();
            let page = page_or_first(page);
            match r {
                Ok(listing) => page_in_bounds(count, page as nat, 10) && listing@
                    == warnings_listing(
                    database.moderations@,
                    guild_id,
                    user_id,
                    user_name@,
                    page,
                ),
                Err(e) => !page_in_bounds(count, page as nat, 10) && e == Error::PageOutOfBounds(
                    page,
                    max_page(count, 10) as usize,
                ),
            }
        }),
{
    let page = match page {
        Some(page) => page,
        None => 1,
    };
    let count = get_warning_count(database, guild_id, user_id);
    let entries = match get_warning_page(database, guild_id, user_id, page, LISTING_PAGE_SIZE) {
        Ok(entries) => entries,
        Err(e) => {
            return Err(e);
        },
    };
    let mut title = String::from_str("Warnings for ");
    title.append(user_name);
    let listing = warnings_embed(Embed::new().title(title), entries).footer(
        footer_of(page, count),
    ).color(Color::Blue);
    assert(listing@.fields =~= warnings_listing(
        database.moderations@,
        guild_id,
        user_id,
        user_name@,
        page,
    ).fields);
    Ok(listing)
}

/// The listing of the moderations of a user.
pub open spec fn modlogs_listing(
    ledger: Seq<EntryView>,
    guild_id: u64,
    user_id: u64,
    user_name: Seq<char>,
    page: usize,
) -> EmbedView {
    let picked = selection(ledger, guild_id, user_id, None);
    EmbedView {
        color: Some(Color::Blue),
        title: Some("Modlogs for "@ + user_name),
        fields: page_of(picked, page as nat, 10).map_values(|e: EntryView| modlog_field(e)),
        footer: Some(listing_footer(page, picked.len())),
        ..blank()
    }
}

/// Lists one page of the moderations of a user in a guild, newest first; without a page
/// number, the first page.
///
/// Where the page lies beyond the moderations, the result is `PageOutOfBounds`.
pub fn modlogs(
    database: &Database,
    guild_id: u64,
    user_id: u64,
    user_name: &str,
    page: Option<usize>,
) -> (r: Result<Embed, Error>)
    ensures
        ({
            let count = selection(database.moderations@, guild_id, user_id, None).len();
            let page = page_or_first(page);
            match r {
                Ok(listing) => page_in_bounds(count, page as nat, 10) && listing@
                    == modlogs_listing(
                    database.moderations@,
                    guild_id,
                    user_id,
                    user_name@,
                    page,
                ),
                Err(e) => !page_in_bounds(count, page as nat, 10) && e == Error::PageOutOfBounds(
                    page,
                    max_page(count, 10) as usize,
                ),
            }
        }),
{
    let page = match page {
        Some(page) => page,
        None => 1,
    };
    let count = get_modlog_count(database, guild_id, user_id);
    let entries = match get_modlog_page(database, guild_id, user_id, page, LISTING_PAGE_SIZE) {
        Ok(entries) => entries,
        Err(e) => {
            return Err(e);
        },
    };
    let mut title = String::from_str("Modlogs for ");
    title.append(user_name);
    let listing = modlog_embed(Embed::new().title(title), entries).footer(
        footer_of(page, count),
    ).color(Color::Blue);
    assert(listing@.fields =~= modlogs_listing(
        database.moderations@,
        guild_id,
        user_id,
        user_name@,
        page,
    ).fields);
    Ok(listing)
}

/// The reason that the rest of a command line gives: the rest itself, and none where
/// nothing is left.
pub open spec fn reason_of(rest: Seq<char>) -> Option<Seq<char>> {
    if rest.len() == 0 {
        None
    } else {
        Some(rest)
    }
}

fn reason_from(rest: &str) -> (reason: Option<String>)
    ensures
        opt_chars(reason) == reason_of(rest@),
{
    if rest.is_empty() {
        None
    } else {
        Some(String::from_str(rest))
    }
}

/// What a text command says of a moderation without a length.
#[derive(Debug)]
pub struct ModerationInfo {
    pub guild_id: u64,
    pub user_id: u64,
    pub administered_at: i64,
    pub reason: Option<String>,
}

/// What a text command says of a moderation with a length.
#[derive(Debug)]
pub struct TimedModerationInfo {
    pub guild_id: u64,
    pub user_id: u64,
    pub administered_at: i64,
    pub expiry_date: i64,
    pub reason: Option<String>,
}

/// Reads a moderation from a text command: whom it is about, and as its reason whatever
/// follows on the command line.
pub fn get_moderation_info(guild_id: u64, user_id: u64, now: i64, rest: &str) -> (info:
    ModerationInfo)
    ensures
        info.guild_id == guild_id,
        info.user_id == user_id,
        info.administered_at == now,
        opt_chars(info.reason) == reason_of(rest@),
{
    ModerationInfo { guild_id, user_id, administered_at: now, reason: reason_from(rest) }
}

/// Reads a moderation with a length from a text command: whom it is about, for how long,
/// and as its reason whatever follows on the command line.
///
/// Where the length cannot be read, the result is `InvalidDuration`; where it gives an
/// expiry date that the platform cannot represent, `InvalidTimestamp`.
pub fn get_timed_moderation_info(
    guild_id: u64,
    user_id: u64,
    now: i64,
    time_string: &str,
    rest: &str,
) -> (r: Result<TimedModerationInfo, Error>)
    ensures
        match r {
            Ok(info) => {
                &&& crate::durations::length_of(time_string) matches Some(secs)
                &&& expiry_of(now, Some(secs)) == Some(Some(info.expiry_date))
                &&& info.guild_id == guild_id
                &&& info.user_id == user_id
                &&& info.administered_at == now
                &&& opt_chars(info.reason) == reason_of(rest@)
            },
            Err(e) => match crate::durations::length_of(time_string) {
                None => e == Error::InvalidDuration,
                Some(secs) => expiry_of(now, Some(secs)).is_none() && e
                    == Error::InvalidTimestamp,
            },
        },
{
    let secs = match crate::durations::parse_length(time_string) {
        Ok(secs) => secs,
        Err(e) => {
            return Err(e);
        },
    };
    let expiry_date = match expiry_date(now, secs) {
        Ok(end) => end,
        Err(e) => {
            return Err(e);
        },
    };
    Ok(
        TimedModerationInfo {
            guild_id,
            user_id,
            administered_at: now,
            expiry_date,
            reason: reason_from(rest),
        },
    )
}

/// The help text of the command that warns a user.
pub fn warn_help() -> (text: String)
    ensures
        text@ == "Warn a user in the server (with an optional reason).\nExample: %warn @Joshument#0001 I am feeling evil today\n        "@,
{
    String::from_str("Warn a user in the server (with an optional reason).\nExample: %warn @Joshument#0001 I am feeling evil today\n        ")
}

/// The help text of the command that deletes a warning.
pub fn delwarn_help() -> (text: String)
    ensures
        text@ == "Delete a warn from a user.\nExample: %delwarn 3872\n        "@,
{
    String::from_str("Delete a warn from a user.\nExample: %delwarn 3872\n        ")
}

/// The help text of the command that lists the warnings of a user.
pub fn warnings_help() -> (text: String)
    ensures
        text@ == "Get the warnings for the specified user.\nExample: %warnings @Joshument#0001 1\n        "@,
{
    String::from_str("Get the warnings for the specified user.\nExample: %warnings @Joshument#0001 1\n        ")
}

/// The help text of the command that bans a user.
pub fn ban_help() -> (text: String)
    ensures
        text@ == "Ban a user from the server (with an optional specified time and reason).\nExample: %ban @Joshument#0001 10s joined 10 seconds too early\n        "@,
{
    String::from_str("Ban a user from the server (with an optional specified time and reason).\nExample: %ban @Joshument#0001 10s joined 10 seconds too early\n        ")
}

/// The help text of the command that unbans a user.
pub fn unban_help() -> (text: String)
    ensures
        text@ == "Unban a user from the server.\nExample: %unban @Joshument#0001 my perspective of you has changed\n        "@,
{
    String::from_str("Unban a user from the server.\nExample: %unban @Joshument#0001 my perspective of you has changed\n        ")
}

/// The help text of the command that kicks a user.
pub fn kick_help() -> (text: String)
    ensures
        text@ == "Kick a user from the server.\nExample: %kick @Joshument#0001 nerd\n    "@,
{
    String::from_str("Kick a user from the server.\nExample: %kick @Joshument#0001 nerd\n    ")
}

/// The help text of the command that times a user out.
pub fn timeout_help() -> (text: String)
    ensures
        text@ == "Time out a user from the server.\nExample: %timeout @Paze#2936 10m not a fan of the inconsistencies\n            "@,
{
    String::from_str("Time out a user from the server.\nExample: %timeout @Paze#2936 10m not a fan of the inconsistencies\n            ")
}

/// The help text of the command that revokes a timeout.
pub fn untimeout_help() -> (text: String)
    ensures
        text@ == "Revoke the timeoutout a user.\nExample: %untimeout @Paze#2936 fan of the consistencies :)\n            "@,
{
    String::from_str("Revoke the timeoutout a user.\nExample: %untimeout @Paze#2936 fan of the consistencies :)\n            ")
}

/// The help text of the command that mutes a user.
pub fn mute_help() -> (text: String)
    ensures
        text@ == "Mute a user (with an optional specified time).\nExample: %mute @Joshument#0001 3d keeps procrastinating on the modlogs command\n        "@,
{
    String::from_str("Mute a user (with an optional specified time).\nExample: %mute @Joshument#0001 3d keeps procrastinating on the modlogs command\n        ")
}

/// The help text of the command that unmutes a user.
pub fn unmute_help() -> (text: String)
    ensures
        text@ == "Mute a user (with an optional specified time).\nExample: %mute @Joshument#0001 3d keeps procrastinating on the modlogs command\n        "@,
{
    String::from_str("Mute a user (with an optional specified time).\nExample: %mute @Joshument#0001 3d keeps procrastinating on the modlogs command\n        ")
}

/// The help text of the command that lists the moderations of a user.
pub fn modlogs_help() -> (text: String)
    ensures
        text@ == "Get the modlogs for the specified user.\nExample: %modlogs @Joshument#0001 1\n        "@,
{
    String::from_str("Get the modlogs for the specified user.\nExample: %modlogs @Joshument#0001 1\n        ")
}

} // verus!
