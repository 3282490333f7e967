//! What users are told when a command fails.

use crate::embed::{blank, Color, Embed, EmbedView};
use crate::text::{decimal, push_u64};
use vstd::prelude::*;
use vstd::string::*;

verus! {

/// Why a command failed, as far as the wording depends on it.
#[derive(Debug, Clone, Copy, PartialEq, Eq, Structural)]
pub enum Failure {
    /// The platform answered a request with an error of this code.
    UnsuccessfulRequest { code: i64 },
    /// The platform library failed in another way.
    Platform,
    /// An argument that was to name a user names none.
    UserNotParsed,
    /// An argument that was to give a length of time gives none.
    DurationNotParsed,
    /// Anything else.
    Other,
}

/// The code with which the platform says that it knows no such user.
pub const UNKNOWN_USER: i64 = 50033;

/// What a user is told of a failure, where there is something to tell.
pub open spec fn english(failure: Failure) -> Option<Seq<char>> {
    match failure {
        Failure::UnsuccessfulRequest { code } => if code == UNKNOWN_USER {
            Some("That user does not exist!"@)
        } else {
            None
        },
        Failure::Platform => None,
        Failure::UserNotParsed => Some("That user does not exist!"@),
        Failure::DurationNotParsed => Some("Invalid time duration!"@),
        Failure::Other => None,
    }
}

/// Puts a failure into words that a user can read. For a failure that has no such words
/// the result is `None`.
pub fn parse_error_to_english(error: &Failure) -> (text: Option<&'static str>)
    ensures
        crate::database::opt_str_chars(text) == english(*error),
{
    match error {
        Failure::UnsuccessfulRequest { code } => if *code == UNKNOWN_USER {
            Some("That user does not exist!")
        } else {
            None
        },
        Failure::Platform => None,
        Failure::UserNotParsed => Some("That user does not exist!"),
        Failure::DurationNotParsed => Some("Invalid time duration!"),
        Failure::Other => None,
    }
}

/// Why a command was not run at all, with its texts as sequences of characters.
pub enum DispatchView {
    LackingPermissions { permissions: Seq<char> },
    Ratelimited { is_first_try: bool, seconds: u64 },
    Other,
}

/// Why a command was not run at all.
#[derive(Debug)]
pub enum DispatchFailure {
    /// The user lacks these permissions, given by their names.
    LackingPermissions { permissions: String },
    /// The user must wait this many seconds; `is_first_try` says that the user was not told
    /// so before.
    Ratelimited { is_first_try: bool, seconds: u64 },
    /// Anything else.
    Other,
}

impl View for DispatchFailure {
    type V = DispatchView;

    open spec fn view(&self) -> DispatchView {
        match self {
            DispatchFailure::LackingPermissions { permissions } => {
                DispatchView::LackingPermissions { permissions: permissions@ }
            },
            DispatchFailure::Ratelimited { is_first_try, seconds } => DispatchView::Ratelimited {
                is_first_try: *is_first_try,
                seconds: *seconds,
            },
            DispatchFailure::Other => DispatchView::Other,
        }
    }
}

/// What a user is told when a command is not run for want of permissions.
pub open spec fn dispatch_english(failure: DispatchView) -> Option<Seq<char>> {
    match failure {
        DispatchView::LackingPermissions { permissions } => Some(
            "You are lacking the required permission \""@ + permissions
                + "\" to run this command!"@,
        ),
        _ => None,
    }
}

/// Puts into words why a command was not run, where the reason is a want of permissions.
/// For every other reason the result is `None`.
pub fn parse_dispatch_error_to_english(error: &DispatchFailure) -> (text: Option<String>)
    ensures
        crate::types::opt_chars(text) == dispatch_english(error@),
{
    match error {
        DispatchFailure::LackingPermissions { permissions } => {
            let mut text = String::from_str("You are lacking the required permission \"");
            text.append(permissions.as_str());
            text.append("\" to run this command!");
            Some(text)
        },
        _ => None,
    }
}

/// What a user who must wait is told: the number of seconds, the first time only.
pub open spec fn wait_notice(failure: DispatchView) -> Option<Seq<char>> {
    match failure {
        DispatchView::Ratelimited { is_first_try, seconds } => if is_first_try {
            Some("Try this again in "@ + decimal(seconds as nat) + " seconds."@)
        } else {
            None
        },
        _ => None,
    }
}

/// What to say in the channel when a command was not run: a user who must wait is told for
/// how long, the first time only.
pub fn dispatch_error(error: &DispatchFailure) -> (text: Option<String>)
    ensures
        crate::types::opt_chars(text) == wait_notice(error@),
{
    match error {
        DispatchFailure::Ratelimited { is_first_try, seconds } => {
            if *is_first_try {
                let mut text = String::from_str("Try this again in ");
                push_u64(&mut text, *seconds);
                text.append(" seconds.");
                Some(text)
            } else {
                None
            }
        },
        _ => None,
    }
}

/// What the framework reports of a failed command, with its texts as sequences of
/// characters.
pub enum FrameworkView {
    Command { message: Seq<char> },
    MissingUserPermissions { missing: Option<Seq<char>> },
    Other,
}

/// What the framework reports of a failed command.
#[derive(Debug)]
pub enum FrameworkFailure {
    /// The command, or the reading of its arguments, failed with this message.
    Command { message: String },
    /// The user lacks permissions; where the framework knows which, their names.
    MissingUserPermissions { missing: Option<String> },
    /// Anything else.
    Other,
}

impl View for FrameworkFailure {
    type V = FrameworkView;

    open spec fn view(&self) -> FrameworkView {
        match self {
            FrameworkFailure::Command { message } => FrameworkView::Command { message: message@ },
            FrameworkFailure::MissingUserPermissions { missing } => {
                FrameworkView::MissingUserPermissions { missing: crate::types::opt_chars(*missing) }
            },
            FrameworkFailure::Other => FrameworkView::Other,
        }
    }
}

/// What the user is shown of a failed command.
pub open spec fn error_text(failure: FrameworkView) -> Seq<char> {
    match failure {
        FrameworkView::Command { message } => message,
        FrameworkView::MissingUserPermissions { missing } => "You do not have the permission(s) `"@
            + (match missing {
            Some(names) => names,
            None => Seq::empty(),
        }) + "`  to run this command!"@,
        FrameworkView::Other =>
            "error is not intentional; please send this to the developers (/info)"@,
    }
}

/// The message that a user is shown when a command fails: the error's own message; for
/// missing permissions their names; and for everything else a request to report it.
pub fn on_error(failure: &FrameworkFailure) -> (text: String)
    ensures
        text@ == error_text(failure@),
{
    match failure {
        FrameworkFailure::Command { message } => message.clone(),
        FrameworkFailure::MissingUserPermissions { missing } => {
            let mut text = String::from_str("You do not have the permission(s) `");
            match missing {
                Some(names) => {
                    text.append(names.as_str());
                },
                None => {},
            }
            text.append("`  to run this command!");
            assert(text@ =~= error_text(failure@));
            text
        },
        FrameworkFailure::Other => String::from_str(
            "error is not intentional; please send this to the developers (/info)",
        ),
    }
}

/// The message that shows an error to a user.
pub open spec fn error_notice(error: Seq<char>) -> EmbedView {
    EmbedView {
        color: Some(Color::Red),
        title: Some("Error!"@),
        description: Some(error),
        ..blank()
    }
}

/// The message that shows an error to a user: in red, under the title `Error!`.
pub fn send_error(error: &str) -> (embed: Embed)
    ensures
        embed@ == error_notice(error@),
{
    Embed::new().color(Color::Red).title(String::from_str("Error!")).description(
        String::from_str(error),
    )
}

/// What follows a command: a line for the log, and words for the user where the command
/// failed in a way that has any.
#[derive(Debug)]
pub struct Aftermath {
    pub log: String,
    pub reply: Option<&'static str>,
}

/// The line for the log after a command that succeeded.
pub open spec fn processed(command_name: Seq<char>) -> Seq<char> {
    "Processed command '"@ + command_name + "'"@
}

/// The line for the log after a command that failed. How the error reads is up to the
/// caller, who has the error.
pub open spec fn returned_error(command_name: Seq<char>, shown: Seq<char>) -> Seq<char> {
    "Command '"@ + command_name + "' returned error "@ + shown
}

/// After a command: the line for the log, and for a failed command the words for the user,
/// if the failure has any. `outcome` holds, for a failed command, what kind of failure it
/// was and how the error reads in the log.
pub fn after(command_name: &str, outcome: Result<(), (Failure, String)>) -> (r: Aftermath)
    ensures
        match outcome {
            Ok(_) => r.log@ == processed(command_name@) && r.reply.is_none(),
            Err(failed) => r.log@ == returned_error(command_name@, failed.1@)
                && crate::database::opt_str_chars(r.reply) == english(failed.0),
        },
{
    match outcome {
        Ok(_) => {
            let mut log = String::from_str("Processed command '");
            log.append(command_name);
            log.append("'");
            Aftermath { log, reply: None }
        },
        Err(failed) => {
            let mut log = String::from_str("Command '");
            log.append(command_name);
            log.append("' returned error ");
            log.append(failed.1.as_str());
            Aftermath { log, reply: parse_error_to_english(&failed.0) }
        },
    }
}

} // verus!
