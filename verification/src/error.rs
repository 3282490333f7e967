//! The errors that the ledger and the commands around it report.

use crate::text::{decimal, push_u64};
use vstd::prelude::*;
use vstd::string::*;

verus! {

/// A reply that was waited for and did not come in time.
///
/// The field is the number of whole seconds that were waited.
#[derive(Debug, Clone, Copy, PartialEq, Eq, Structural)]
pub struct ResponseTimedOut(pub u64);

impl ResponseTimedOut {
    /// The text of the message, over the characters of the result.
    pub open spec fn message(self) -> Seq<char> {
        "Did not receieve a response in "@ + decimal(self.0 as nat)
            + " seconds, cancelling operation."@
    }

    /// The message shown to the user.
    pub fn to_string(&self) -> (s: String)
        ensures
            s@ == self.message(),
    {
        let mut s = String::from_str("Did not receieve a response in ");
        push_u64(&mut s, self.0);
        s.append(" seconds, cancelling operation.");
        s
    }
}

/// What can go wrong while a guild is being set up interactively.
#[derive(Debug, Clone, Copy, PartialEq, Eq, Structural)]
pub enum SetupError {
    /// The user gave no answer in time; the field is the number of seconds waited.
    ResponseTimedOut(u64),
    /// The user cancelled.
    OperationCancelled,
}

impl SetupError {
    /// The text of the message, over the characters of the result.
    pub open spec fn message(self) -> Seq<char> {
        match self {
            SetupError::ResponseTimedOut(secs) => "Did not recieve a response in "@ + decimal(
                secs as nat,
            ) + " seconds, cancelling operation"@,
            SetupError::OperationCancelled => "Operation cancelled by user!"@,
        }
    }

    /// The message shown to the user.
    pub fn to_string(&self) -> (s: String)
        ensures
            s@ == self.message(),
    {
        match self {
            SetupError::ResponseTimedOut(secs) => {
                let mut s = String::from_str("Did not recieve a response in ");
                push_u64(&mut s, *secs);
                s.append(" seconds, cancelling operation");
                s
            },
            SetupError::OperationCancelled => String::from_str("Operation cancelled by user!"),
        }
    }
}

/// Why a moderation command was refused.
#[derive(Debug)]
pub enum ModerationError {
    /// The entry with this id belongs to another guild than the one named.
    ModlogNotInGuild(u64, String),
    /// The entry with this id is no warning.
    NotAWarning(u64),
    /// The user with this id holds moderation permissions and cannot be moderated.
    MemberIsModerator(u64),
}

impl ModerationError {
    /// The text of the message, over the characters of the result.
    pub open spec fn message(self) -> Seq<char> {
        match self {
            ModerationError::ModlogNotInGuild(id, guild) => "Modlog "@ + decimal(id as nat)
                + " does not belong to guild **"@ + guild@ + "**"@,
            ModerationError::NotAWarning(id) => "Modlog "@ + decimal(id as nat)
                + " is not a warning!"@,
            ModerationError::MemberIsModerator(user) => "User <@<@"@ + decimal(user as nat)
                + ">> is a moderator!"@,
        }
    }

    /// The message shown to the user.
    pub fn to_string(&self) -> (s: String)
        ensures
            s@ == self.message(),
    {
        match self {
            ModerationError::ModlogNotInGuild(id, guild) => {
                let mut s = String::from_str("Modlog ");
                push_u64(&mut s, *id);
                s.append(" does not belong to guild **");
                s.append(guild.as_str());
                s.append("**");
                s
            },
            ModerationError::NotAWarning(id) => {
                let mut s = String::from_str("Modlog ");
                push_u64(&mut s, *id);
                s.append(" is not a warning!");
                s
            },
            ModerationError::MemberIsModerator(user) => {
                let mut s = String::from_str("User <@<@");
                push_u64(&mut s, *user);
                s.append(">> is a moderator!");
                s
            },
        }
    }
}

/// Every error of the library.
#[derive(Debug)]
pub enum Error {
    /// An integer named no variant of the enum it was decoded into.
    IntEnumError,
    /// A guild setting is missing; the field is the command that sets it.
    ConfigNotSetError(String),
    /// A page beyond the last one was asked for: the page asked for, then the last page.
    PageOutOfBounds(usize, usize),
    /// No entry has the id that was looked up.
    NotFound,
    /// The store could not take the change: it would break one of its constraints.
    StorageError,
    /// The platform refused an action that was to undo a sanction.
    EnforcementFailure,
    /// A length of time could not be read.
    InvalidDuration,
    /// A point in time lies outside what the platform can represent.
    InvalidTimestamp,
    /// An interactive setup went wrong.
    SetupError(SetupError),
    /// A moderation command was refused.
    ModerationError(ModerationError),
}

impl Error {
    /// The text of the message, over the characters of the result.
    pub open spec fn message(self) -> Seq<char> {
        match self {
            Error::IntEnumError => "Failed to convert integer into enum type"@,
            Error::ConfigNotSetError(name) => "Config `"@ + name@ + "` is not set!"@,
            Error::PageOutOfBounds(page, max) => "Attempted to access page "@ + decimal(
                page as nat,
            ) + " when maximum page is "@ + decimal(max as nat),
            Error::NotFound => "No moderation has that id"@,
            Error::StorageError => "The moderation could not be stored"@,
            Error::EnforcementFailure => "The platform refused the action"@,
            Error::InvalidDuration => "Invalid time duration!"@,
            Error::InvalidTimestamp => "invalid UNIX timestamp value"@,
            Error::SetupError(_) => "transparent"@,
            Error::ModerationError(inner) => inner.message(),
        }
    }

    /// The message shown to the user.
    pub fn to_string(&self) -> (s: String)
        ensures
            s@ == self.message(),
    {
        match self {
            Error::IntEnumError => String::from_str("Failed to convert integer into enum type"),
            Error::ConfigNotSetError(name) => {
                let mut s = String::from_str("Config `");
                s.append(name.as_str());
                s.append("` is not set!");
                s
            },
            Error::PageOutOfBounds(page, max) => {
                let mut s = String::from_str("Attempted to access page ");
                push_u64(&mut s, *page as u64);
                s.append(" when maximum page is ");
                push_u64(&mut s, *max as u64);
                s
            },
            Error::NotFound => String::from_str("No moderation has that id"),
            Error::StorageError => String::from_str("The moderation could not be stored"),
            Error::EnforcementFailure => String::from_str("The platform refused the action"),
            Error::InvalidDuration => String::from_str("Invalid time duration!"),
            Error::InvalidTimestamp => String::from_str("invalid UNIX timestamp value"),
            Error::SetupError(_) => String::from_str("transparent"),
            Error::ModerationError(inner) => inner.to_string(),
        }
    }
}

} // verus!
