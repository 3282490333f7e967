use jolt::commands::configuration::{
    configure, logs_channel, logs_channel_help, mute_role, mute_role_help, set_prefix,
    set_prefix_help, ConfigureEvent, ConfigureResponse, Screen,
};
use jolt::commands::meta::{info, info_help, ping, ping_help, BotStatus};
use jolt::commands::moderation::{
    apply_step, ban, ban_help, delwarn, delwarn_help, get_moderation_info,
    get_timed_moderation_info, kick, kick_help, modlogs, modlogs_help, mute, mute_help,
    timeout, timeout_help, timeout_refused, unban, unban_help, unmute, unmute_help, untimeout,
    untimeout_help, warn, warn_help, warnings, warnings_help, Enforcement, ModerationRequest,
    Step,
};
use jolt::commands::utilities::{
    append_expiry_date, is_member_moderator, modlog_embed, send_moderation_messages,
    ModerationNotice, Outgoing,
};
use jolt::database::{
    add_moderation, get_logs_channel, get_mute_role, get_prefix, set_logs_channel,
    set_mute_role, Database,
};
use jolt::embed::{Color, Embed};
use jolt::error::{Error, ModerationError};
use jolt::types::{ModerationType, ModlogEntry};

fn request(reason: Option<&str>) -> ModerationRequest {
    ModerationRequest {
        guild_id: 1,
        guild_name: String::from("Home"),
        user_id: 42,
        moderator_id: 7,
        administered_at: 1_000,
        reason: reason.map(String::from),
    }
}

fn notice(step: &Step) -> &ModerationNotice {
    match step {
        Step::Notify(notice) => notice,
        other => panic!("expected a notice, got {:?}", other),
    }
}

fn apply_all(db: &mut Database, request: &ModerationRequest, steps: &[Step]) {
    for step in steps {
        apply_step(db, request, step).unwrap();
    }
}

const KICK_MEMBERS: u64 = 1 << 1;

#[test]
fn help_texts() {
    assert_eq!(
        warn_help(),
        "Warn a user in the server (with an optional reason).\nExample: %warn @Joshument#0001 I am feeling evil today\n        "
    );
    assert_eq!(delwarn_help(), "Delete a warn from a user.\nExample: %delwarn 3872\n        ");
    assert_eq!(
        warnings_help(),
        "Get the warnings for the specified user.\nExample: %warnings @Joshument#0001 1\n        "
    );
    assert_eq!(
        ban_help(),
        "Ban a user from the server (with an optional specified time and reason).\nExample: %ban @Joshument#0001 10s joined 10 seconds too early\n        "
    );
    assert_eq!(
        unban_help(),
        "Unban a user from the server.\nExample: %unban @Joshument#0001 my perspective of you has changed\n        "
    );
    assert_eq!(kick_help(), "Kick a user from the server.\nExample: %kick @Joshument#0001 nerd\n    ");
    assert_eq!(
        timeout_help(),
        "Time out a user from the server.\nExample: %timeout @Paze#2936 10m not a fan of the inconsistencies\n            "
    );
    assert_eq!(
        untimeout_help(),
        "Revoke the timeoutout a user.\nExample: %untimeout @Paze#2936 fan of the consistencies :)\n            "
    );
    assert_eq!(
        mute_help(),
        "Mute a user (with an optional specified time).\nExample: %mute @Joshument#0001 3d keeps procrastinating on the modlogs command\n        "
    );
    assert_eq!(unmute_help(), mute_help());
    assert_eq!(
        modlogs_help(),
        "Get the modlogs for the specified user.\nExample: %modlogs @Joshument#0001 1\n        "
    );
    assert_eq!(
        mute_role_help(),
        "Set the mute role in the server\n**NOTE**: This does *not* change the permissions of the role, you will have to set them up yourself.\nExample: %muterole @Muted\n    "
    );
    assert_eq!(
        logs_channel_help(),
        "Set or change the logs channel for the server\nExample: %logschannel #logs\n    "
    );
    assert_eq!(set_prefix_help(), "Set or change the prefix for the server\nExample: %setprefix ~\n    ");
    assert_eq!(ping_help(), "Get the latency of the bot (in milliseconds)");
    assert_eq!(info_help(), "Get information related to the bot");
}

#[test]
fn expiry_dates_are_appended() {
    assert_eq!(append_expiry_date("banned", None), "banned");
    assert_eq!(append_expiry_date("banned", Some(1_700_000_000)), "banned until <t:1700000000:F>");
    assert_eq!(append_expiry_date("", Some(-5)), " until <t:-5:F>");
}

#[test]
fn moderators_are_known_by_their_permissions() {
    assert!(!is_member_moderator(0));
    let ordinary: u64 = (1 << 0) | (1 << 6) | (1 << 10) | (1 << 11) | (1 << 26) | (1 << 31);
    assert!(!is_member_moderator(ordinary));
    for bit in [1, 2, 3, 4, 5, 13, 22, 23, 24, 27, 28, 29, 34, 40] {
        assert!(is_member_moderator(1 << bit), "bit {}", bit);
        assert!(is_member_moderator(ordinary | (1 << bit)), "bit {}", bit);
    }
    for bit in [0, 6, 7, 8, 9, 10, 11, 12, 14, 20, 21, 25, 26, 30, 31, 32, 33, 35, 41, 63] {
        assert!(!is_member_moderator(1 << bit), "bit {}", bit);
    }
    assert!(is_member_moderator(u64::MAX));
}

#[test]
fn a_warning_tells_and_records() {
    let steps = warn(&request(Some("spam")), 0).unwrap();
    assert_eq!(steps.len(), 2);
    let told = notice(&steps[0]);
    assert_eq!(told.dm_message, "You have been warned in **Home**");
    assert_eq!(told.dm_color, Color::Red);
    assert_eq!(told.message_header, "Zap!");
    assert_eq!(told.message, "User <@42> has been warned");
    assert_eq!(told.color, Color::Green);
    assert_eq!(told.dm_fail_message, "I was unable to DM <@42> about their moderation.");
    assert_eq!(told.dm_fail_color, Color::Red);
    assert_eq!(told.reason.as_deref(), Some("spam"));
    assert!(matches!(
        steps[1],
        Step::Record { moderation_type: ModerationType::Warning, expiry_date: None }
    ));
}

#[test]
fn moderators_are_not_moderated() {
    let refused = |r: Result<Vec<Step>, Error>| {
        matches!(r, Err(Error::ModerationError(ModerationError::MemberIsModerator(42))))
    };
    let mut db = Database::new();
    set_mute_role(&mut db, 1, 5);
    assert!(refused(warn(&request(None), KICK_MEMBERS)));
    assert!(refused(ban(&request(None), KICK_MEMBERS, None)));
    assert!(refused(kick(&request(None), KICK_MEMBERS)));
    assert!(refused(timeout(&request(None), KICK_MEMBERS, 60)));
    assert!(refused(mute(&db, &request(None), KICK_MEMBERS, None)));
}

#[test]
fn a_ban_tells_records_and_bans() {
    let steps = ban(&request(Some("raid")), 0, Some(60)).unwrap();
    assert_eq!(steps.len(), 3);
    let told = notice(&steps[0]);
    assert_eq!(told.dm_message, "You have been banned from **Home** until <t:1060:F>");
    assert_eq!(told.message, "User <@42> has been banned until <t:1060:F>");
    assert_eq!(told.message_header, "Zap!");
    assert_eq!(told.dm_color, Color::Red);
    assert!(matches!(
        steps[1],
        Step::Record { moderation_type: ModerationType::Ban, expiry_date: Some(1_060) }
    ));
    match &steps[2] {
        Step::Enforce(Enforcement::Ban { reason }) => assert_eq!(reason.as_deref(), Some("raid")),
        other => panic!("expected a ban, got {:?}", other),
    }
    let forever = ban(&request(None), 0, None).unwrap();
    assert_eq!(notice(&forever[0]).dm_message, "You have been banned from **Home**");
    assert!(matches!(
        forever[1],
        Step::Record { moderation_type: ModerationType::Ban, expiry_date: None }
    ));
}

#[test]
fn a_ban_that_ends_beyond_the_calendar_is_refused() {
    assert!(matches!(ban(&request(None), 0, Some(u64::MAX)), Err(Error::InvalidTimestamp)));
    assert!(matches!(
        ban(&request(None), KICK_MEMBERS, Some(u64::MAX)),
        Err(Error::InvalidTimestamp)
    ));
    assert!(matches!(timeout(&request(None), 0, u64::MAX), Err(Error::InvalidTimestamp)));
}

#[test]
fn an_unban_lifts_clears_and_records() {
    let steps = unban(&request(None));
    assert_eq!(steps.len(), 4);
    let told = notice(&steps[0]);
    assert_eq!(told.dm_message, "You have been unbanned from **Home**");
    assert_eq!(told.message, "User <@42> has been unbanned");
    assert_eq!(told.message_header, "!paZ");
    assert_eq!(told.dm_color, Color::Green);
    assert!(matches!(steps[1], Step::Enforce(Enforcement::Unban)));
    assert!(matches!(steps[2], Step::Clear(ModerationType::Ban)));
    assert!(matches!(
        steps[3],
        Step::Record { moderation_type: ModerationType::Unban, expiry_date: None }
    ));
}

#[test]
fn a_kick_tells_records_and_kicks() {
    let steps = kick(&request(Some("nerd")), 0).unwrap();
    assert_eq!(steps.len(), 3);
    assert_eq!(notice(&steps[0]).dm_message, "You have been kicked from **Home**!");
    assert_eq!(notice(&steps[0]).message, "User <@42> has been kicked");
    assert!(matches!(
        steps[1],
        Step::Record { moderation_type: ModerationType::Kick, expiry_date: None }
    ));
    match &steps[2] {
        Step::Enforce(Enforcement::Kick { reason }) => assert_eq!(reason.as_deref(), Some("nerd")),
        other => panic!("expected a kick, got {:?}", other),
    }
}

#[test]
fn a_timeout_asks_the_platform_first() {
    let steps = timeout(&request(None), 0, 600).unwrap();
    assert_eq!(steps.len(), 3);
    assert!(matches!(steps[0], Step::Enforce(Enforcement::TimeoutUntil { until: 1_600 })));
    let told = notice(&steps[1]);
    assert_eq!(told.dm_message, "You have been timed out from **Home** until <t:1600:F>");
    assert_eq!(told.message, "User <@42> has been timed out until <t:1600:F>");
    assert!(matches!(
        steps[2],
        Step::Record { moderation_type: ModerationType::Timeout, expiry_date: Some(1_600) }
    ));
    let refused = timeout_refused();
    assert_eq!(refused.description.as_deref(), Some("Timeouts must be shorter than 28 days."));
    assert_eq!(refused.color, Some(Color::Red));
    assert!(refused.ephemeral);
}

#[test]
fn an_untimeout_clears_first() {
    let steps = untimeout(&request(None));
    assert_eq!(steps.len(), 4);
    assert!(matches!(steps[0], Step::Clear(ModerationType::Timeout)));
    assert!(matches!(steps[1], Step::Enforce(Enforcement::EndTimeout)));
    assert_eq!(notice(&steps[2]).dm_message, "You have been untimed out from **Home**");
    assert_eq!(notice(&steps[2]).message, "User <@42> has been untimed out");
    assert_eq!(notice(&steps[2]).message_header, "!paZ");
    assert!(matches!(
        steps[3],
        Step::Record { moderation_type: ModerationType::Untimeout, expiry_date: None }
    ));
}

#[test]
fn a_mute_needs_a_mute_role() {
    let mut db = Database::new();
    match mute(&db, &request(None), 0, None) {
        Err(Error::ConfigNotSetError(name)) => assert_eq!(name, "%muterole"),
        other => panic!("expected a missing setting, got {:?}", other),
    }
    match unmute(&db, &request(None), None) {
        Err(Error::ConfigNotSetError(name)) => assert_eq!(name, "%muterole"),
        other => panic!("expected a missing setting, got {:?}", other),
    }
    set_mute_role(&mut db, 1, 900);
    let steps = mute(&db, &request(None), 0, Some(30)).unwrap();
    assert_eq!(steps.len(), 3);
    assert_eq!(notice(&steps[0]).dm_message, "You have been muted in **Home** until <t:1030:F>");
    assert_eq!(notice(&steps[0]).message, "User <@42> has been muted until <t:1030:F>");
    assert!(matches!(
        steps[1],
        Step::Record { moderation_type: ModerationType::Mute, expiry_date: Some(1_030) }
    ));
    assert!(matches!(steps[2], Step::Enforce(Enforcement::GrantRole { role_id: 900 })));
    let steps = unmute(&db, &request(None), None).unwrap();
    assert_eq!(steps.len(), 4);
    assert_eq!(notice(&steps[0]).dm_message, "You have been unmuted in **Home**");
    assert_eq!(notice(&steps[0]).dm_color, Color::Red);
    assert_eq!(notice(&steps[0]).message_header, "!paZ");
    assert!(matches!(steps[1], Step::Clear(ModerationType::Mute)));
    assert!(matches!(steps[2], Step::Enforce(Enforcement::RevokeRole { role_id: 900 })));
    assert!(matches!(
        steps[3],
        Step::Record { moderation_type: ModerationType::Unmute, expiry_date: None }
    ));
}

#[test]
fn every_command_records_once() {
    let mut db = Database::new();
    set_mute_role(&mut db, 1, 900);
    let plans = vec![
        warn(&request(None), 0).unwrap(),
        ban(&request(None), 0, None).unwrap(),
        unban(&request(None)),
        kick(&request(None), 0).unwrap(),
        timeout(&request(None), 0, 60).unwrap(),
        untimeout(&request(None)),
        mute(&db, &request(None), 0, None).unwrap(),
        unmute(&db, &request(None), None).unwrap(),
    ];
    for plan in plans {
        let records = plan.iter().filter(|s| matches!(s, Step::Record { .. })).count();
        assert_eq!(records, 1);
    }
}

#[test]
fn steps_are_carried_out_on_the_store() {
    let mut db = Database::new();
    let asked = request(Some("raid"));
    apply_all(&mut db, &asked, &ban(&asked, 0, Some(60)).unwrap());
    let entries = db.moderations.entries();
    assert_eq!(entries.len(), 1);
    assert_eq!(entries[0].id, 1);
    assert_eq!(entries[0].guild_id, 1);
    assert_eq!(entries[0].user_id, 42);
    assert_eq!(entries[0].moderator_id, 7);
    assert_eq!(entries[0].moderation_type, ModerationType::Ban);
    assert_eq!(entries[0].administered_at, 1_000);
    assert_eq!(entries[0].expiry_date, Some(1_060));
    assert_eq!(entries[0].reason.as_deref(), Some("raid"));
    assert!(entries[0].active);
    apply_all(&mut db, &asked, &unban(&asked));
    let entries = db.moderations.entries();
    assert_eq!(entries.len(), 2);
    assert!(!entries[0].active);
    assert_eq!(entries[1].moderation_type, ModerationType::Unban);
    assert!(!entries[1].active);
    assert_eq!(entries[1].expiry_date, None);
}

#[test]
fn a_clearing_step_deactivates_whatever_its_kind() {
    let mut db = Database::new();
    let asked = request(None);
    add_moderation(&mut db, 1, 42, 7, ModerationType::Warning, 1, None, None).unwrap();
    add_moderation(&mut db, 1, 42, 7, ModerationType::Mute, 2, None, None).unwrap();
    add_moderation(&mut db, 1, 43, 7, ModerationType::Warning, 3, None, None).unwrap();
    apply_step(&mut db, &asked, &Step::Clear(ModerationType::Warning)).unwrap();
    let active: Vec<bool> = db.moderations.entries().iter().map(|e| e.active).collect();
    assert_eq!(active, vec![false, true, true]);
    apply_step(&mut db, &asked, &Step::Clear(ModerationType::Mute)).unwrap();
    let active: Vec<bool> = db.moderations.entries().iter().map(|e| e.active).collect();
    assert_eq!(active, vec![false, false, true]);
}

#[test]
fn delwarn_deletes_warnings_of_the_guild_only() {
    let mut db = Database::new();
    add_moderation(&mut db, 1, 42, 7, ModerationType::Warning, 1, None, None).unwrap();
    add_moderation(&mut db, 1, 42, 7, ModerationType::Kick, 2, None, None).unwrap();
    assert!(matches!(delwarn(&mut db, 1, "Home", 9), Err(Error::NotFound)));
    match delwarn(&mut db, 2, "Away", 1) {
        Err(Error::ModerationError(ModerationError::ModlogNotInGuild(1, guild))) => {
            assert_eq!(guild, "Away")
        }
        other => panic!("expected another guild, got {:?}", other),
    }
    assert!(matches!(
        delwarn(&mut db, 1, "Home", 2),
        Err(Error::ModerationError(ModerationError::NotAWarning(2)))
    ));
    assert!(db.moderations.entries()[0].active);
    let reply = delwarn(&mut db, 1, "Home", 1).unwrap();
    assert!(!db.moderations.entries()[0].active);
    assert_eq!(reply.color, Some(Color::Green));
    assert_eq!(reply.fields.len(), 1);
    assert_eq!(reply.fields[0].name, "Done!");
    assert_eq!(reply.fields[0].value, "Deleted warning **1**");
    assert!(reply.fields[0].inline);
}

#[test]
fn warnings_are_listed() {
    let mut db = Database::new();
    add_moderation(&mut db, 1, 42, 7, ModerationType::Warning, 100, None, Some("spam")).unwrap();
    add_moderation(&mut db, 1, 42, 8, ModerationType::Warning, 200, None, None).unwrap();
    let listing = warnings(&db, 1, 42, "Paze", None).unwrap();
    assert_eq!(listing.title.as_deref(), Some("Warnings for Paze"));
    assert_eq!(listing.color, Some(Color::Blue));
    assert_eq!(listing.footer.as_deref(), Some("Page 1 of 1"));
    assert_eq!(listing.fields.len(), 2);
    assert_eq!(listing.fields[0].name, "ID 2");
    assert_eq!(listing.fields[0].value, "\n**Moderator:** <@8>\n**Administered At:** <t:200:F>");
    assert!(!listing.fields[0].inline);
    assert_eq!(listing.fields[1].name, "ID 1");
    assert_eq!(
        listing.fields[1].value,
        "\n**Moderator:** <@7>\n**Administered At:** <t:100:F>\n**Reason:** spam"
    );
    assert!(matches!(warnings(&db, 1, 42, "Paze", Some(2)), Err(Error::PageOutOfBounds(2, 1))));
    assert!(warnings(&db, 1, 43, "Else", Some(1)).unwrap().fields.is_empty());
}

#[test]
fn the_footer_counts_one_page_more_than_the_full_ones() {
    let mut db = Database::new();
    for i in 0..20 {
        add_moderation(&mut db, 1, 42, 7, ModerationType::Warning, i, None, None).unwrap();
    }
    let listing = modlogs(&db, 1, 42, "Paze", Some(2)).unwrap();
    assert_eq!(listing.footer.as_deref(), Some("Page 2 of 3"));
    assert_eq!(listing.fields.len(), 10);
    assert_eq!(listing.fields[0].name, "ID 10");
}

#[test]
fn modlogs_are_listed_with_all_they_hold() {
    let mut db = Database::new();
    add_moderation(&mut db, 1, 42, 7, ModerationType::Ban, 100, Some(500), Some("raid")).unwrap();
    add_moderation(&mut db, 1, 42, 8, ModerationType::Unban, 200, None, None).unwrap();
    let listing = modlogs(&db, 1, 42, "Paze", None).unwrap();
    assert_eq!(listing.title.as_deref(), Some("Modlogs for Paze"));
    assert_eq!(listing.footer.as_deref(), Some("Page 1 of 1"));
    assert_eq!(listing.fields.len(), 2);
    assert_eq!(listing.fields[0].name, "ID 2");
    assert_eq!(
        listing.fields[0].value,
        "\n**Moderator:** <@8>\n**Type:** Unban\n**Administered At:** <t:200:F>"
    );
    assert_eq!(listing.fields[1].name, "ID 1");
    assert_eq!(
        listing.fields[1].value,
        "\n**Moderator:** <@7>\n**Type:** Ban\n**Administered At:** <t:100:F>\n**Reason:** raid\n**Expires:** <t:500:F>\n**Active:** true"
    );
}

#[test]
fn modlog_embed_keeps_what_the_message_has() {
    let entry = ModlogEntry {
        id: 3,
        guild_id: 1,
        moderation_type: ModerationType::Warning,
        user_id: 2,
        moderator_id: 5,
        administered_at: -1,
        expiry_date: None,
        reason: None,
        active: false,
    };
    let start = Embed::new().title(String::from("T")).field(String::from("a"), String::from("b"), true);
    let shown = modlog_embed(start, vec![entry]);
    assert_eq!(shown.title.as_deref(), Some("T"));
    assert_eq!(shown.fields.len(), 2);
    assert_eq!(shown.fields[0].name, "a");
    assert_eq!(shown.fields[1].name, "ID 3");
    assert_eq!(
        shown.fields[1].value,
        "\n**Moderator:** <@5>\n**Type:** Warning\n**Administered At:** <t:-1:F>\n**Active:** false"
    );
}

fn sample_notice(reason: Option<&str>) -> ModerationNotice {
    ModerationNotice {
        dm_message: String::from("dm"),
        dm_color: Color::Red,
        message_header: String::from("Zap!"),
        message: String::from("said"),
        color: Color::Green,
        dm_fail_message: String::from("failed"),
        dm_fail_color: Color::Red,
        reason: reason.map(String::from),
    }
}

#[test]
fn the_user_is_told_with_the_reason() {
    let dm = sample_notice(Some("why")).direct_message();
    assert_eq!(dm.color, Some(Color::Red));
    assert_eq!(dm.fields.len(), 2);
    assert_eq!((dm.fields[0].name.as_str(), dm.fields[0].value.as_str()), ("Zap!", "dm"));
    assert!(dm.fields[0].inline);
    assert_eq!((dm.fields[1].name.as_str(), dm.fields[1].value.as_str()), ("Reason:", "why"));
    assert!(!dm.fields[1].inline);
    assert_eq!(sample_notice(None).direct_message().fields.len(), 1);
}

#[test]
fn the_moderator_and_the_logs_are_told() {
    let mut db = Database::new();
    let quiet = send_moderation_messages(&db, 1, &sample_notice(None), true);
    assert_eq!(quiet.len(), 1);
    match &quiet[0] {
        Outgoing::Reply(embed) => {
            assert_eq!(embed.color, Some(Color::Green));
            assert_eq!(embed.fields[0].value, "said");
        }
        other => panic!("expected a reply, got {:?}", other),
    }
    set_logs_channel(&mut db, 1, 555);
    let all = send_moderation_messages(&db, 1, &sample_notice(Some("why")), false);
    assert_eq!(all.len(), 3);
    match &all[1] {
        Outgoing::Reply(embed) => {
            assert_eq!(embed.color, Some(Color::Red));
            assert_eq!(embed.description.as_deref(), Some("failed"));
            assert!(embed.fields.is_empty());
        }
        other => panic!("expected a reply, got {:?}", other),
    }
    match &all[2] {
        Outgoing::Log { channel_id, embed } => {
            assert_eq!(*channel_id, 555);
            assert_eq!(embed.color, Some(Color::Blue));
            assert_eq!(embed.title.as_deref(), Some("INFO"));
            assert_eq!(embed.description.as_deref(), Some("said"));
            assert_eq!(embed.fields.len(), 1);
            assert_eq!(embed.fields[0].value, "why");
        }
        other => panic!("expected a log line, got {:?}", other),
    }
    assert_eq!(send_moderation_messages(&db, 2, &sample_notice(None), true).len(), 1);
}

#[test]
fn text_commands_are_read() {
    let info = get_moderation_info(1, 2, 30, "being rude");
    assert_eq!((info.guild_id, info.user_id, info.administered_at), (1, 2, 30));
    assert_eq!(info.reason.as_deref(), Some("being rude"));
    assert_eq!(get_moderation_info(1, 2, 30, "").reason, None);
    let timed = get_timed_moderation_info(1, 2, 1_000, "10m", "").unwrap();
    assert_eq!(timed.expiry_date, 1_600);
    assert_eq!(timed.administered_at, 1_000);
    assert_eq!(timed.reason, None);
    assert!(matches!(
        get_timed_moderation_info(1, 2, 1_000, "later", "x"),
        Err(Error::InvalidDuration)
    ));
    assert!(matches!(
        get_timed_moderation_info(1, 2, 1_000, "10000000000000y", "x"),
        Err(Error::InvalidDuration)
    ));
    assert!(matches!(
        get_timed_moderation_info(1, 2, 1_000, "1000000000y", "x"),
        Err(Error::InvalidTimestamp)
    ));
    assert!(matches!(
        get_timed_moderation_info(1, 2, 1_000, "1000000y", "x"),
        Err(Error::InvalidTimestamp)
    ));
}

#[test]
fn settings_commands_confirm() {
    let mut db = Database::new();
    let reply = mute_role(&mut db, 1, 900);
    assert_eq!(get_mute_role(&db, 1), Some(900));
    assert_eq!(reply.color, Some(Color::Green));
    assert_eq!(
        reply.description.as_deref(),
        Some("Role <@&900> has been assigned as the mute role.")
    );
    assert_eq!(reply.fields.len(), 1);
    assert_eq!(reply.fields[0].name, "NOTE");
    assert_eq!(
        reply.fields[0].value,
        "This action does *not* change the permissions of the role, make sure you set them up before using the mute commands."
    );
    assert!(!reply.fields[0].inline);
    let reply = logs_channel(&mut db, 1, 555);
    assert_eq!(get_logs_channel(&db, 1), Some(555));
    assert_eq!(
        reply.description.as_deref(),
        Some("Channel <#555> has been assigned as the logs channel.")
    );
    let reply = set_prefix(&mut db, 1, "~");
    assert_eq!(get_prefix(&db, 1).as_deref(), Some("~"));
    assert_eq!(reply.description.as_deref(), Some("Changed command prefix to ~."));
}

fn button(user_id: u64, control: &str) -> ConfigureEvent {
    ConfigureEvent::Button { user_id, control: String::from(control) }
}

#[test]
fn the_configuration_follows_its_buttons() {
    let mut db = Database::new();
    set_mute_role(&mut db, 1, 900);
    assert_eq!(
        configure(&mut db, 1, 7, &button(7, "exit_button")),
        ConfigureResponse::Show(Screen::Finished)
    );
    assert_eq!(
        configure(&mut db, 1, 7, &button(7, "back_button")),
        ConfigureResponse::Show(Screen::Main)
    );
    assert_eq!(
        configure(&mut db, 1, 7, &button(7, "prefix_button")),
        ConfigureResponse::OpenPrefixForm
    );
    assert_eq!(
        configure(&mut db, 1, 7, &button(7, "mute_role_button")),
        ConfigureResponse::Show(Screen::MuteRoleInput { current: Some(900) })
    );
    assert_eq!(
        configure(&mut db, 1, 7, &button(7, "logs_channel_button")),
        ConfigureResponse::Show(Screen::LogsChannelInput { current: None })
    );
    assert_eq!(configure(&mut db, 1, 7, &button(7, "other")), ConfigureResponse::Ignore);
    assert_eq!(configure(&mut db, 1, 7, &button(8, "exit_button")), ConfigureResponse::Ignore);
    assert_eq!(configure(&mut db, 1, 7, &ConfigureEvent::Other), ConfigureResponse::Ignore);
    assert_eq!(
        configure(&mut db, 1, 7, &ConfigureEvent::OtherComponent { user_id: 7 }),
        ConfigureResponse::Ignore
    );
}

#[test]
fn the_configuration_stores_what_is_picked() {
    let mut db = Database::new();
    let pick_role = |user_id, control: &str| ConfigureEvent::RoleSelected {
        user_id,
        control: String::from(control),
        role_id: 33,
    };
    assert_eq!(
        configure(&mut db, 1, 7, &pick_role(8, "mute_role_select_input")),
        ConfigureResponse::Ignore
    );
    assert_eq!(configure(&mut db, 1, 7, &pick_role(7, "else")), ConfigureResponse::Ignore);
    assert_eq!(get_mute_role(&db, 1), None);
    assert_eq!(
        configure(&mut db, 1, 7, &pick_role(7, "mute_role_select_input")),
        ConfigureResponse::Show(Screen::Main)
    );
    assert_eq!(get_mute_role(&db, 1), Some(33));
    let pick_channel = ConfigureEvent::ChannelSelected {
        user_id: 7,
        control: String::from("logs_channel_select_input"),
        channel_id: 44,
    };
    assert_eq!(configure(&mut db, 1, 7, &pick_channel), ConfigureResponse::Show(Screen::Main));
    assert_eq!(get_logs_channel(&db, 1), Some(44));
    let form = ConfigureEvent::PrefixSubmitted { prefix: String::from("?") };
    assert_eq!(configure(&mut db, 1, 7, &form), ConfigureResponse::Acknowledge);
    assert_eq!(get_prefix(&db, 1).as_deref(), Some("?"));
    assert_eq!(get_mute_role(&db, 1), Some(33));
}

#[test]
fn screens_have_texts() {
    let main = Screen::Main.embed();
    assert_eq!(main.title.as_deref(), Some("Bot Configuration"));
    assert_eq!(main.color, Some(Color::Green));
    assert!(main.ephemeral);
    assert_eq!(Screen::Finished.embed().title.as_deref(), Some("Configuration Finished"));
    assert_eq!(Screen::Finished.embed().color, Some(Color::Blue));
    assert_eq!(Screen::PrefixInput.embed().title.as_deref(), Some("Enter new prefix"));
    assert_eq!(Screen::MuteRoleInput { current: None }.embed().title.as_deref(), Some("Mute Role"));
    assert_eq!(
        Screen::LogsChannelInput { current: Some(1) }.embed().title.as_deref(),
        Some("Logs Channel")
    );
}

#[test]
fn a_ping_is_answered_with_the_time_it_took() {
    let reply = ping(1_250, 1_000);
    assert_eq!(reply.color, Some(Color::Green));
    assert!(reply.ephemeral);
    assert_eq!(reply.fields.len(), 1);
    assert_eq!(reply.fields[0].name, "Pong!");
    assert_eq!(reply.fields[0].value, "Reply time: 250ms");
    assert_eq!(ping(1_000, 1_250).fields[0].value, "Reply time: -250ms");
    assert_eq!(
        ping(i64::MAX, i64::MIN).fields[0].value,
        "Reply time: 18446744073709551615ms"
    );
}

#[test]
fn the_bot_describes_itself() {
    let status = BotStatus {
        version: String::from("git-abc123"),
        guild_count: 12,
        user_count: 3_400,
        shard_id: 0,
        shard_count: 2,
        uptime_secs: 9_420,
        uptime_nanos: 0,
        now_millis: 5_040,
        created_millis: 5_000,
    };
    let reply = info(&status);
    assert_eq!(reply.title.as_deref(), Some("Jolt Bot"));
    assert_eq!(reply.color, Some(Color::Blue));
    assert!(reply.ephemeral);
    let fields: Vec<(&str, &str)> =
        reply.fields.iter().map(|f| (f.name.as_str(), f.value.as_str())).collect();
    assert_eq!(
        fields,
        vec![
            ("Version", "git-abc123"),
            ("GitHub", "https://github.com/Joshument/Jolt"),
            ("Maintainer", "Joshument (@imperishablenight on discord)"),
            ("Servers", "12"),
            ("Users", "3400"),
            ("Invite", "Not yet :("),
        ]
    );
    assert!(reply.fields.iter().all(|f| f.inline));
    assert_eq!(reply.footer.as_deref(), Some("Shard 0/2 | Uptime 2h 37m | Ping 40ms"));
    assert_eq!(
        reply.description.as_deref(),
        Some("Jolt is licensed under the [BSD 3-Clause License](https://github.com/Joshument/Jolt/blob/main/LICENSE).")
    );
}
