use jolt::database::{
    get_logs_channel, get_mute_role, get_prefix, set_logs_channel, set_mute_role, set_prefix,
    Database,
};

#[test]
fn nothing_is_set_at_first() {
    let db = Database::new();
    assert_eq!(get_mute_role(&db, 1), None);
    assert_eq!(get_logs_channel(&db, 1), None);
    assert_eq!(get_prefix(&db, 1), None);
}

#[test]
fn a_setting_replaces_its_column_only() {
    let mut db = Database::new();
    set_mute_role(&mut db, 1, 10);
    set_logs_channel(&mut db, 1, 20);
    set_prefix(&mut db, 1, "~");
    assert_eq!(get_mute_role(&db, 1), Some(10));
    assert_eq!(get_logs_channel(&db, 1), Some(20));
    assert_eq!(get_prefix(&db, 1).as_deref(), Some("~"));
    set_mute_role(&mut db, 1, 11);
    assert_eq!(get_mute_role(&db, 1), Some(11));
    assert_eq!(get_logs_channel(&db, 1), Some(20));
    assert_eq!(get_prefix(&db, 1).as_deref(), Some("~"));
    set_prefix(&mut db, 1, "!!");
    assert_eq!(get_prefix(&db, 1).as_deref(), Some("!!"));
    assert_eq!(get_mute_role(&db, 1), Some(11));
}

#[test]
fn settings_are_per_guild() {
    let mut db = Database::new();
    set_mute_role(&mut db, 1, 10);
    set_logs_channel(&mut db, 2, 20);
    assert_eq!(get_mute_role(&db, 2), None);
    assert_eq!(get_logs_channel(&db, 1), None);
    assert_eq!(get_logs_channel(&db, 2), Some(20));
    assert!(db.moderations.entries().is_empty());
}
