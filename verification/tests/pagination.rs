use jolt::database::{
    add_moderation, clear_single_moderation, get_modlog_count, get_modlog_page,
    get_warning_count, get_warning_page, Database,
};
use jolt::error::Error;
use jolt::ledger::Ledger;
use jolt::types::ModerationType;

fn with_warnings(count: u64) -> Database {
    let mut db = Database::new();
    for i in 0..count {
        add_moderation(&mut db, 1, 42, 7, ModerationType::Warning, i as i64, None, None).unwrap();
    }
    db
}

fn ids(page: Result<Vec<jolt::types::ModlogEntry>, Error>) -> Vec<u64> {
    page.unwrap().iter().map(|e| e.id).collect()
}

#[test]
fn pages_run_from_the_newest_entry_to_the_oldest() {
    let db = with_warnings(25);
    assert_eq!(ids(get_modlog_page(&db, 1, 42, 1, 10)), (16..=25).rev().collect::<Vec<u64>>());
    assert_eq!(ids(get_modlog_page(&db, 1, 42, 2, 10)), (6..=15).rev().collect::<Vec<u64>>());
    assert_eq!(ids(get_modlog_page(&db, 1, 42, 3, 10)), (1..=5).rev().collect::<Vec<u64>>());
}

#[test]
fn the_last_page_holds_the_remainder() {
    let db = with_warnings(25);
    assert_eq!(get_modlog_page(&db, 1, 42, 3, 10).unwrap().len(), 25 % 10);
    let db = with_warnings(7);
    assert_eq!(get_modlog_page(&db, 1, 42, 1, 10).unwrap().len(), 7);
    let db = with_warnings(9);
    assert_eq!(get_modlog_page(&db, 1, 42, 3, 4).unwrap().len(), 1);
}

#[test]
fn the_last_page_is_full_where_the_count_divides_evenly() {
    let db = with_warnings(20);
    assert_eq!(get_modlog_page(&db, 1, 42, 2, 10).unwrap().len(), 10);
    assert_eq!(ids(get_modlog_page(&db, 1, 42, 2, 10)), (1..=10).rev().collect::<Vec<u64>>());
}

#[test]
fn a_page_beyond_the_entries_is_out_of_bounds() {
    let db = with_warnings(25);
    assert!(matches!(get_modlog_page(&db, 1, 42, 4, 10), Err(Error::PageOutOfBounds(4, 3))));
    assert!(matches!(get_modlog_page(&db, 1, 42, 100, 10), Err(Error::PageOutOfBounds(100, 3))));
    let db = with_warnings(20);
    assert!(matches!(get_modlog_page(&db, 1, 42, 4, 10), Err(Error::PageOutOfBounds(4, 2))));
    let db = with_warnings(0);
    assert!(matches!(get_modlog_page(&db, 1, 42, 2, 10), Err(Error::PageOutOfBounds(2, 0))));
    let db = with_warnings(1);
    assert!(matches!(get_warning_page(&db, 1, 42, 3, 1), Err(Error::PageOutOfBounds(3, 1))));
}

#[test]
fn the_page_right_after_the_last_entry_is_empty() {
    let db = with_warnings(20);
    assert!(get_modlog_page(&db, 1, 42, 3, 10).unwrap().is_empty());
    let db = with_warnings(0);
    assert!(get_modlog_page(&db, 1, 42, 1, 10).unwrap().is_empty());
}

#[test]
fn page_zero_is_out_of_bounds() {
    let db = with_warnings(5);
    assert!(matches!(get_modlog_page(&db, 1, 42, 0, 10), Err(Error::PageOutOfBounds(0, 1))));
    assert!(matches!(get_modlog_page(&db, 1, 42, 0, 0), Err(Error::PageOutOfBounds(0, 0))));
}

#[test]
fn a_page_size_of_zero_gives_empty_pages() {
    let db = with_warnings(5);
    assert!(get_modlog_page(&db, 1, 42, 1, 0).unwrap().is_empty());
    assert!(get_modlog_page(&db, 1, 42, 9, 0).unwrap().is_empty());
}

#[test]
fn huge_pages_do_not_overflow() {
    let db = with_warnings(3);
    assert!(matches!(
        get_modlog_page(&db, 1, 42, usize::MAX, usize::MAX),
        Err(Error::PageOutOfBounds(usize::MAX, 1))
    ));
    assert_eq!(get_modlog_page(&db, 1, 42, 1, usize::MAX).unwrap().len(), 3);
    assert!(matches!(
        get_modlog_page(&db, 1, 42, usize::MAX, 2),
        Err(Error::PageOutOfBounds(usize::MAX, 2))
    ));
}

#[test]
fn counts_and_pages_are_per_guild_and_user() {
    let mut db = with_warnings(3);
    add_moderation(&mut db, 1, 43, 7, ModerationType::Warning, 0, None, None).unwrap();
    add_moderation(&mut db, 2, 42, 7, ModerationType::Warning, 0, None, None).unwrap();
    add_moderation(&mut db, 1, 42, 7, ModerationType::Kick, 0, None, None).unwrap();
    assert_eq!(get_modlog_count(&db, 1, 42), 4);
    assert_eq!(get_warning_count(&db, 1, 42), 3);
    assert_eq!(get_modlog_count(&db, 1, 43), 1);
    assert_eq!(get_modlog_count(&db, 2, 42), 1);
    assert_eq!(get_modlog_count(&db, 2, 43), 0);
    assert_eq!(ids(get_modlog_page(&db, 1, 42, 1, 10)), vec![5, 3, 2, 1]);
    assert_eq!(ids(get_warning_page(&db, 1, 42, 1, 10)), vec![3, 2, 1]);
    assert_eq!(ids(get_modlog_page(&db, 2, 42, 1, 10)), vec![1]);
}

#[test]
fn warning_pages_hold_active_warnings_only() {
    let mut db = with_warnings(4);
    clear_single_moderation(&mut db, 2);
    assert_eq!(get_warning_count(&db, 1, 42), 3);
    assert_eq!(ids(get_warning_page(&db, 1, 42, 1, 2)), vec![4, 3]);
    assert_eq!(ids(get_warning_page(&db, 1, 42, 2, 2)), vec![1]);
    assert_eq!(ids(get_modlog_page(&db, 1, 42, 1, 10)), vec![4, 3, 2, 1]);
}

#[test]
fn a_kind_filter_selects_active_entries_of_that_kind() {
    let mut ledger = Ledger::new();
    ledger.record(1, 42, 7, ModerationType::Ban, 1, None, None).unwrap();
    ledger.record(1, 42, 7, ModerationType::Ban, 2, None, None).unwrap();
    ledger.record(1, 42, 7, ModerationType::Kick, 3, None, None).unwrap();
    assert_eq!(ledger.count(1, 42, Some(ModerationType::Ban)), 1);
    assert_eq!(ledger.count(1, 42, Some(ModerationType::Kick)), 0);
    assert_eq!(ledger.count(1, 42, None), 3);
    assert_eq!(ids(ledger.page(1, 42, Some(ModerationType::Ban), 1, 10)), vec![2]);
}
