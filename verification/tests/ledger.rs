use jolt::database::{
    add_moderation, clear_moderations, clear_single_moderation, get_modlog_count,
    get_single_modlog, get_warning_count, get_warning_page, Database,
};
use jolt::error::Error;
use jolt::ledger::{Ledger, NewEntry};
use jolt::model::ExpiredSanction;
use jolt::types::{ModerationRow, ModerationType, ModlogEntry};

fn draft(guild_id: u64, user_id: u64, kind: ModerationType, active: bool) -> NewEntry {
    NewEntry {
        guild_id,
        user_id,
        moderator_id: 9,
        moderation_type: kind,
        administered_at: 100,
        expiry_date: None,
        reason: None,
        active,
    }
}

fn active_count(ledger: &Ledger, guild_id: u64, user_id: u64, kind: ModerationType) -> usize {
    ledger
        .entries()
        .iter()
        .filter(|e| {
            e.active && e.guild_id == guild_id && e.user_id == user_id && e.moderation_type == kind
        })
        .count()
}

#[test]
fn warning_is_listed_then_cleared_and_kept() {
    let mut db = Database::new();
    add_moderation(&mut db, 1, 42, 7, ModerationType::Warning, 1_000, None, Some("spam")).unwrap();
    let page = get_warning_page(&db, 1, 42, 1, 10).unwrap();
    assert_eq!(page.len(), 1);
    assert_eq!(page[0].reason.as_deref(), Some("spam"));
    assert!(page[0].active);
    assert_eq!(page[0].guild_id, 1);
    assert_eq!(page[0].user_id, 42);
    assert_eq!(page[0].moderator_id, 7);
    assert_eq!(page[0].administered_at, 1_000);
    let id = page[0].id;
    assert_eq!(id, 1);
    clear_single_moderation(&mut db, id);
    assert_eq!(get_warning_count(&db, 1, 42), 0);
    assert_eq!(get_modlog_count(&db, 1, 42), 1);
    let kept = get_single_modlog(&db, id).unwrap();
    assert_eq!(kept.reason.as_deref(), Some("spam"));
    assert!(!kept.active);
    assert_eq!(kept.moderation_type, ModerationType::Warning);
}

#[test]
fn new_ledger_is_empty() {
    let ledger = Ledger::new();
    assert!(ledger.entries().is_empty());
    assert_eq!(ledger.highest_id(1), 0);
    assert_eq!(ledger.count(1, 1, None), 0);
    assert!(matches!(ledger.get_by_id(1), Err(Error::NotFound)));
}

#[test]
fn at_most_one_active_sanction_of_each_kind() {
    let mut ledger = Ledger::new();
    for kind in [ModerationType::Ban, ModerationType::Mute, ModerationType::Timeout] {
        for round in 0..4 {
            ledger.record(1, 42, 7, kind, 100 + round, Some(1_000 + round), None).unwrap();
            assert_eq!(active_count(&ledger, 1, 42, kind), 1);
        }
    }
    assert_eq!(active_count(&ledger, 1, 42, ModerationType::Ban), 1);
    assert_eq!(active_count(&ledger, 1, 42, ModerationType::Mute), 1);
    assert_eq!(active_count(&ledger, 1, 42, ModerationType::Timeout), 1);
    assert_eq!(ledger.entries().len(), 12);
}

#[test]
fn second_ban_deactivates_the_first() {
    let mut ledger = Ledger::new();
    let first = ledger.record(1, 42, 7, ModerationType::Ban, 100, Some(500), None).unwrap();
    let second = ledger.record(1, 42, 8, ModerationType::Ban, 200, Some(900), None).unwrap();
    assert_eq!((first, second), (1, 2));
    assert!(!ledger.get_by_id(first).unwrap().active);
    assert!(ledger.get_by_id(second).unwrap().active);
    assert_eq!(active_count(&ledger, 1, 42, ModerationType::Ban), 1);
    assert_eq!(ledger.get_by_id(second).unwrap().expiry_date, Some(900));
}

#[test]
fn a_sanction_leaves_other_users_guilds_and_kinds_alone() {
    let mut ledger = Ledger::new();
    ledger.record(1, 42, 7, ModerationType::Ban, 100, None, None).unwrap();
    ledger.record(1, 43, 7, ModerationType::Ban, 100, None, None).unwrap();
    ledger.record(2, 42, 7, ModerationType::Ban, 100, None, None).unwrap();
    ledger.record(1, 42, 7, ModerationType::Mute, 100, None, None).unwrap();
    ledger.record(1, 42, 7, ModerationType::Ban, 200, None, None).unwrap();
    let active: Vec<bool> = ledger.entries().iter().map(|e| e.active).collect();
    assert_eq!(active, vec![false, true, true, true, true]);
}

#[test]
fn warnings_do_not_supersede_each_other() {
    let mut ledger = Ledger::new();
    ledger.record(1, 42, 7, ModerationType::Warning, 100, None, None).unwrap();
    ledger.record(1, 42, 7, ModerationType::Warning, 200, None, None).unwrap();
    assert_eq!(active_count(&ledger, 1, 42, ModerationType::Warning), 2);
}

#[test]
fn kicks_and_reversals_are_recorded_inactive() {
    let mut ledger = Ledger::new();
    let inactive = [
        ModerationType::Kick,
        ModerationType::Unban,
        ModerationType::Unmute,
        ModerationType::Untimeout,
    ];
    let active = [
        ModerationType::Warning,
        ModerationType::Ban,
        ModerationType::Mute,
        ModerationType::Timeout,
    ];
    for kind in inactive {
        let id = ledger.record(1, 42, 7, kind, 100, None, None).unwrap();
        assert!(!ledger.get_by_id(id).unwrap().active);
    }
    for kind in active {
        let id = ledger.record(1, 42, 7, kind, 100, None, None).unwrap();
        assert!(ledger.get_by_id(id).unwrap().active);
    }
}

#[test]
fn ids_count_up_by_one_in_each_guild() {
    let mut ledger = Ledger::new();
    assert_eq!(ledger.record(1, 42, 7, ModerationType::Warning, 1, None, None).unwrap(), 1);
    assert_eq!(ledger.record(2, 42, 7, ModerationType::Warning, 2, None, None).unwrap(), 1);
    assert_eq!(ledger.record(1, 43, 7, ModerationType::Kick, 3, None, None).unwrap(), 2);
    assert_eq!(ledger.record(1, 42, 7, ModerationType::Ban, 4, None, None).unwrap(), 3);
    assert_eq!(ledger.record(2, 50, 7, ModerationType::Ban, 5, None, None).unwrap(), 2);
    assert_eq!(ledger.record(3, 50, 7, ModerationType::Ban, 6, None, None).unwrap(), 1);
    assert_eq!(ledger.highest_id(1), 3);
    assert_eq!(ledger.highest_id(2), 2);
    assert_eq!(ledger.highest_id(3), 1);
    assert_eq!(ledger.highest_id(4), 0);
    let mut seen = std::collections::HashSet::new();
    for e in ledger.entries() {
        assert!(seen.insert((e.guild_id, e.id)));
    }
}

#[test]
fn insert_assigns_the_next_id_and_keeps_the_entry() {
    let mut ledger = Ledger::new();
    let mut entry = draft(5, 6, ModerationType::Ban, true);
    entry.expiry_date = Some(77);
    entry.reason = Some(String::from("raid"));
    assert_eq!(ledger.insert(entry).unwrap(), 1);
    let stored = ledger.get_by_id(1).unwrap();
    assert_eq!(stored.guild_id, 5);
    assert_eq!(stored.user_id, 6);
    assert_eq!(stored.moderator_id, 9);
    assert_eq!(stored.moderation_type, ModerationType::Ban);
    assert_eq!(stored.administered_at, 100);
    assert_eq!(stored.expiry_date, Some(77));
    assert_eq!(stored.reason.as_deref(), Some("raid"));
    assert!(stored.active);
}

#[test]
fn insert_refuses_a_second_active_sanction() {
    let mut ledger = Ledger::new();
    ledger.insert(draft(1, 42, ModerationType::Mute, true)).unwrap();
    let refused = ledger.insert(draft(1, 42, ModerationType::Mute, true));
    assert!(matches!(refused, Err(Error::StorageError)));
    assert_eq!(ledger.entries().len(), 1);
    ledger.insert(draft(1, 42, ModerationType::Ban, true)).unwrap();
    ledger.insert(draft(1, 43, ModerationType::Mute, true)).unwrap();
    assert_eq!(ledger.entries().len(), 3);
}

#[test]
fn insert_refuses_an_activity_that_is_not_that_of_the_kind() {
    let mut ledger = Ledger::new();
    assert!(matches!(
        ledger.insert(draft(1, 42, ModerationType::Kick, true)),
        Err(Error::StorageError)
    ));
    assert!(matches!(
        ledger.insert(draft(1, 42, ModerationType::Warning, false)),
        Err(Error::StorageError)
    ));
    assert!(ledger.entries().is_empty());
    assert_eq!(ledger.insert(draft(1, 42, ModerationType::Kick, false)).unwrap(), 1);
}

fn row(id: i64, guild_id: i64, kind: i64, active: bool) -> ModerationRow {
    ModerationRow {
        id,
        guild_id,
        moderation_type: kind,
        user_id: 42,
        moderator_id: 7,
        administered_at: 10,
        expiry_date: None,
        reason: None,
        active,
    }
}

#[test]
fn no_id_is_left_after_the_highest() {
    let rows = vec![row(i64::MAX, 1, 0, true)];
    let mut ledger = Ledger::from_rows(&rows).unwrap();
    assert_eq!(ledger.highest_id(1), i64::MAX as u64);
    let refused = ledger.record(1, 42, 7, ModerationType::Ban, 1, None, None);
    assert!(matches!(refused, Err(Error::StorageError)));
    assert_eq!(ledger.entries().len(), 1);
    assert!(ledger.entries()[0].active);
    assert_eq!(ledger.record(2, 42, 7, ModerationType::Ban, 1, None, None).unwrap(), 1);
}

#[test]
fn a_full_guild_keeps_its_active_sanction_when_recording_fails() {
    let rows = vec![row(i64::MAX, 1, 4, true)];
    let mut db = Database::new();
    db.moderations = Ledger::from_rows(&rows).unwrap();
    let refused = add_moderation(&mut db, 1, 42, 7, ModerationType::Ban, 1, None, None);
    assert!(matches!(refused, Err(Error::StorageError)));
    assert!(db.moderations.entries()[0].active);
}

#[test]
fn rows_round_trip() {
    let mut ledger = Ledger::new();
    ledger.record(u64::MAX, 1 << 63, 7, ModerationType::Ban, -5, Some(9), Some(String::from("x"))).unwrap();
    ledger.record(1, 2, 3, ModerationType::Unban, 6, None, None).unwrap();
    let rows = ledger.to_rows();
    assert_eq!(rows.len(), 2);
    assert_eq!(rows[0].id, 1);
    assert_eq!(rows[0].guild_id, -1);
    assert_eq!(rows[0].user_id, i64::MIN);
    assert_eq!(rows[0].moderator_id, 7);
    assert_eq!(rows[0].moderation_type, 4);
    assert_eq!(rows[0].administered_at, -5);
    assert_eq!(rows[0].expiry_date, Some(9));
    assert_eq!(rows[0].reason.as_deref(), Some("x"));
    assert!(rows[0].active);
    assert_eq!(rows[1].moderation_type, 7);
    assert!(!rows[1].active);
    let again = Ledger::from_rows(&rows).unwrap();
    assert_eq!(again.entries().len(), 2);
    assert_eq!(again.entries()[0].guild_id, u64::MAX);
    assert_eq!(again.entries()[0].user_id, 1 << 63);
    assert_eq!(again.entries()[1].moderation_type, ModerationType::Unban);
}

#[test]
fn rows_with_an_unknown_kind_are_refused() {
    assert!(matches!(Ledger::from_rows(&vec![row(1, 1, 8, false)]), Err(Error::IntEnumError)));
    assert!(matches!(Ledger::from_rows(&vec![row(1, 1, -1, false)]), Err(Error::IntEnumError)));
    assert!(matches!(Ledger::from_rows(&vec![row(1, 1, 256, false)]), Err(Error::IntEnumError)));
    assert!(matches!(ModlogEntry::from_row(&row(1, 1, 8, false)), Err(Error::IntEnumError)));
    assert_eq!(
        ModlogEntry::from_row(&row(1, 1, 3, true)).unwrap().moderation_type,
        ModerationType::Timeout
    );
}

#[test]
fn rows_that_form_no_ledger_are_refused() {
    let same_id = vec![row(1, 1, 0, true), row(1, 1, 0, true)];
    assert!(matches!(Ledger::from_rows(&same_id), Err(Error::StorageError)));
    let falling = vec![row(2, 1, 0, true), row(1, 1, 0, true)];
    assert!(matches!(Ledger::from_rows(&falling), Err(Error::StorageError)));
    let two_bans = vec![row(1, 1, 4, true), row(2, 1, 4, true)];
    assert!(matches!(Ledger::from_rows(&two_bans), Err(Error::StorageError)));
    let active_kick = vec![row(1, 1, 1, true)];
    assert!(matches!(Ledger::from_rows(&active_kick), Err(Error::StorageError)));
    let fine = vec![row(1, 1, 4, false), row(1, 2, 4, true), row(2, 1, 4, true)];
    assert!(Ledger::from_rows(&fine).is_ok());
}

#[test]
fn from_entries_checks_the_entries() {
    let entry = |id: u64, active: bool| ModlogEntry {
        id,
        guild_id: 1,
        moderation_type: ModerationType::Ban,
        user_id: 2,
        moderator_id: 3,
        administered_at: 4,
        expiry_date: None,
        reason: None,
        active,
    };
    assert!(Ledger::from_entries(vec![entry(1, false), entry(2, true)]).is_some());
    assert!(Ledger::from_entries(vec![entry(1, true), entry(2, true)]).is_none());
    assert!(Ledger::from_entries(vec![entry(2, false), entry(2, true)]).is_none());
    assert!(Ledger::from_entries(vec![]).is_some());
}

#[test]
fn clear_moderations_deactivates_every_kind() {
    let mut db = Database::new();
    add_moderation(&mut db, 1, 42, 7, ModerationType::Warning, 1, None, None).unwrap();
    add_moderation(&mut db, 1, 42, 7, ModerationType::Warning, 2, None, None).unwrap();
    add_moderation(&mut db, 1, 42, 7, ModerationType::Ban, 3, None, None).unwrap();
    add_moderation(&mut db, 1, 43, 7, ModerationType::Ban, 4, None, None).unwrap();
    add_moderation(&mut db, 1, 43, 7, ModerationType::Warning, 5, None, None).unwrap();
    add_moderation(&mut db, 2, 42, 7, ModerationType::Warning, 6, None, None).unwrap();
    let active = |db: &Database| -> Vec<bool> {
        db.moderations.entries().iter().map(|e| e.active).collect()
    };
    clear_moderations(&mut db, 1, 42, ModerationType::Warning);
    assert_eq!(active(&db), vec![false, false, true, true, true, true]);
    clear_moderations(&mut db, 1, 42, ModerationType::Ban);
    assert_eq!(active(&db), vec![false, false, false, true, true, true]);
    clear_moderations(&mut db, 1, 42, ModerationType::Kick);
    assert_eq!(active(&db), vec![false, false, false, true, true, true]);
    assert_eq!(db.moderations.entries().len(), 6);
}

#[test]
fn deactivate_by_kind_deactivates_warnings_too() {
    let mut ledger = Ledger::new();
    ledger.record(1, 42, 7, ModerationType::Warning, 1, None, None).unwrap();
    ledger.record(1, 42, 7, ModerationType::Warning, 2, None, None).unwrap();
    ledger.record(1, 43, 7, ModerationType::Warning, 3, None, None).unwrap();
    ledger.deactivate_by_kind(1, 42, ModerationType::Warning);
    let active: Vec<bool> = ledger.entries().iter().map(|e| e.active).collect();
    assert_eq!(active, vec![false, false, true]);
}

#[test]
fn deactivate_by_id_touches_one_entry() {
    let mut ledger = Ledger::new();
    ledger.record(1, 42, 7, ModerationType::Warning, 1, None, None).unwrap();
    ledger.record(2, 42, 7, ModerationType::Warning, 2, None, None).unwrap();
    ledger.record(1, 42, 7, ModerationType::Warning, 3, None, None).unwrap();
    assert!(ledger.deactivate_by_id(1));
    let active: Vec<bool> = ledger.entries().iter().map(|e| e.active).collect();
    assert_eq!(active, vec![false, true, true]);
    assert!(!ledger.deactivate_by_id(3));
    assert!(ledger.deactivate_by_id(2));
    let active: Vec<bool> = ledger.entries().iter().map(|e| e.active).collect();
    assert_eq!(active, vec![false, true, false]);
    assert_eq!(ledger.entries().len(), 3);
}

#[test]
fn get_by_id_finds_the_first_entry_with_the_id() {
    let mut ledger = Ledger::new();
    ledger.record(7, 42, 1, ModerationType::Warning, 1, None, None).unwrap();
    ledger.record(8, 43, 1, ModerationType::Warning, 2, None, None).unwrap();
    assert_eq!(ledger.get_by_id(1).unwrap().guild_id, 7);
    assert!(matches!(ledger.get_by_id(2), Err(Error::NotFound)));
    assert!(matches!(ledger.get_by_id(0), Err(Error::NotFound)));
}

#[test]
fn find_expired_active_lists_guild_user_and_kind() {
    let mut ledger = Ledger::new();
    ledger.record(1, 42, 7, ModerationType::Ban, 1, Some(100), None).unwrap();
    ledger.record(1, 43, 7, ModerationType::Mute, 1, Some(200), None).unwrap();
    ledger.record(2, 44, 7, ModerationType::Timeout, 1, Some(50), None).unwrap();
    ledger.record(2, 45, 7, ModerationType::Ban, 1, None, None).unwrap();
    ledger.record(2, 46, 7, ModerationType::Ban, 1, Some(60), None).unwrap();
    ledger.deactivate_by_kind(2, 46, ModerationType::Ban);
    let ban = ExpiredSanction { guild_id: 1, user_id: 42, moderation_type: ModerationType::Ban };
    let timeout =
        ExpiredSanction { guild_id: 2, user_id: 44, moderation_type: ModerationType::Timeout };
    assert_eq!(ledger.find_expired_active(101), vec![ban, timeout]);
    assert_eq!(ledger.find_expired_active(100), vec![timeout]);
    assert_eq!(ledger.find_expired_active(50), vec![]);
    assert_eq!(ledger.find_expired_active(i64::MAX).len(), 3);
}

#[test]
fn deactivate_all_expired_ignores_activity_and_kind() {
    let mut ledger = Ledger::new();
    ledger.record(1, 42, 7, ModerationType::Ban, 1, Some(100), None).unwrap();
    ledger.record(1, 43, 7, ModerationType::Warning, 1, Some(100), None).unwrap();
    ledger.record(1, 44, 7, ModerationType::Ban, 1, Some(101), None).unwrap();
    ledger.record(1, 45, 7, ModerationType::Ban, 1, None, None).unwrap();
    ledger.deactivate_all_expired(101);
    let active: Vec<bool> = ledger.entries().iter().map(|e| e.active).collect();
    assert_eq!(active, vec![false, false, true, true]);
    ledger.deactivate_all_expired(101);
    let active: Vec<bool> = ledger.entries().iter().map(|e| e.active).collect();
    assert_eq!(active, vec![false, false, true, true]);
}

#[test]
fn ledgers_are_well_formed() {
    let mut db = Database::new();
    assert!(db.is_well_formed());
    add_moderation(&mut db, 1, 42, 7, ModerationType::Ban, 1, None, None).unwrap();
    add_moderation(&mut db, 1, 42, 7, ModerationType::Ban, 2, None, None).unwrap();
    assert!(db.is_well_formed());
    assert!(db.moderations.is_well_formed());
}
