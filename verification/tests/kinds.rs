use jolt::error::{Error, ModerationError, ResponseTimedOut, SetupError};
use jolt::text::{i64_to_string, u64_to_string};
use jolt::types::{id_from_stored, id_to_stored, ModerationType};

const KINDS: [ModerationType; 8] = [
    ModerationType::Warning,
    ModerationType::Kick,
    ModerationType::Mute,
    ModerationType::Timeout,
    ModerationType::Ban,
    ModerationType::Unmute,
    ModerationType::Untimeout,
    ModerationType::Unban,
];

#[test]
fn kinds_are_stored_under_their_tags() {
    let tags: Vec<u8> = KINDS.iter().map(|k| k.as_u8()).collect();
    assert_eq!(tags, vec![0, 1, 2, 3, 4, 5, 6, 7]);
}

#[test]
fn tags_decode_to_their_kinds() {
    for (tag, kind) in KINDS.iter().enumerate() {
        assert_eq!(ModerationType::try_from(tag as u8).unwrap(), *kind);
        assert_eq!(ModerationType::try_from(kind.as_u8()).unwrap(), *kind);
    }
}

#[test]
fn unknown_tags_are_refused() {
    for tag in 8..=u8::MAX {
        assert!(matches!(ModerationType::try_from(tag), Err(Error::IntEnumError)));
    }
}

#[test]
fn kinds_have_names() {
    let names: Vec<String> = KINDS.iter().map(|k| k.to_string()).collect();
    assert_eq!(
        names,
        vec!["Warning", "Kick", "Mute", "Timeout", "Ban", "Unmute", "Untimeout", "Unban"]
    );
}

#[test]
fn sanctions_supersede_and_events_start_inactive() {
    let superseding: Vec<bool> = KINDS.iter().map(|k| k.supersedes()).collect();
    assert_eq!(superseding, vec![false, false, true, true, true, false, false, false]);
    let active: Vec<bool> = KINDS.iter().map(|k| k.active_when_recorded()).collect();
    assert_eq!(active, vec![true, false, true, true, true, false, false, false]);
}

#[test]
fn identifiers_keep_their_bits() {
    assert_eq!(id_to_stored(0), 0);
    assert_eq!(id_to_stored(i64::MAX as u64), i64::MAX);
    assert_eq!(id_to_stored(1 << 63), i64::MIN);
    assert_eq!(id_to_stored(u64::MAX), -1);
    assert_eq!(id_from_stored(-1), u64::MAX);
    assert_eq!(id_from_stored(i64::MIN), 1 << 63);
    assert_eq!(id_from_stored(5), 5);
    for id in [0, 1, 175_928_847_299_117_063, (1 << 63) - 1, 1 << 63, u64::MAX - 1, u64::MAX] {
        assert_eq!(id_to_stored(id), id as i64);
        assert_eq!(id_from_stored(id_to_stored(id)), id);
    }
}

#[test]
fn numbers_are_written_in_decimal() {
    assert_eq!(u64_to_string(0), "0");
    assert_eq!(u64_to_string(7), "7");
    assert_eq!(u64_to_string(10), "10");
    assert_eq!(u64_to_string(1_234_567_890), "1234567890");
    assert_eq!(u64_to_string(u64::MAX), "18446744073709551615");
    assert_eq!(i64_to_string(0), "0");
    assert_eq!(i64_to_string(-1), "-1");
    assert_eq!(i64_to_string(i64::MIN), "-9223372036854775808");
    assert_eq!(i64_to_string(i64::MAX), "9223372036854775807");
}

#[test]
fn errors_have_messages() {
    assert_eq!(Error::IntEnumError.to_string(), "Failed to convert integer into enum type");
    assert_eq!(
        Error::ConfigNotSetError(String::from("%muterole")).to_string(),
        "Config `%muterole` is not set!"
    );
    assert_eq!(
        Error::PageOutOfBounds(4, 3).to_string(),
        "Attempted to access page 4 when maximum page is 3"
    );
    assert_eq!(Error::InvalidDuration.to_string(), "Invalid time duration!");
    assert_eq!(Error::InvalidTimestamp.to_string(), "invalid UNIX timestamp value");
    assert_eq!(Error::SetupError(SetupError::OperationCancelled).to_string(), "transparent");
    assert_eq!(
        Error::ModerationError(ModerationError::NotAWarning(12)).to_string(),
        "Modlog 12 is not a warning!"
    );
    assert!(!Error::NotFound.to_string().is_empty());
    assert!(!Error::StorageError.to_string().is_empty());
    assert!(!Error::EnforcementFailure.to_string().is_empty());
}

#[test]
fn moderation_errors_have_messages() {
    assert_eq!(
        ModerationError::ModlogNotInGuild(3, String::from("Home")).to_string(),
        "Modlog 3 does not belong to guild **Home**"
    );
    assert_eq!(ModerationError::NotAWarning(3872).to_string(), "Modlog 3872 is not a warning!");
    assert_eq!(
        ModerationError::MemberIsModerator(99).to_string(),
        "User <@<@99>> is a moderator!"
    );
}

#[test]
fn setup_errors_have_messages() {
    assert_eq!(
        SetupError::ResponseTimedOut(30).to_string(),
        "Did not recieve a response in 30 seconds, cancelling operation"
    );
    assert_eq!(SetupError::OperationCancelled.to_string(), "Operation cancelled by user!");
    assert_eq!(
        ResponseTimedOut(60).to_string(),
        "Did not receieve a response in 60 seconds, cancelling operation."
    );
}
