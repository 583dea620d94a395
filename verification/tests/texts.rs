use chrono::{DateTime, Utc};
use yasl::time::timestamp_text;
use yasl::config::{config_file, database_file, is_test_mode, Config};
use yasl::decimal::{i64_to_decimal, u128_to_decimal, u64_to_decimal};
use yasl::ids::{id_from_db, id_to_db};
use yasl::listings::banned_tags_table;
use yasl::messages::{can_render_banned_users_table, can_render_exempted_users_table, Message};
use yasl::model::{BannedTagRow, RecordCounts};
use yasl::permissions::{administrator, check_permissions, AuthorMember};

#[test]
fn decimal_text_of_numbers() {
    assert_eq!(u64_to_decimal(0), "0");
    assert_eq!(u64_to_decimal(7), "7");
    assert_eq!(u64_to_decimal(1234567890), "1234567890");
    assert_eq!(u64_to_decimal(u64::MAX), u64::MAX.to_string());
    assert_eq!(u128_to_decimal(u128::MAX), u128::MAX.to_string());
    assert_eq!(i64_to_decimal(-42), "-42");
    assert_eq!(i64_to_decimal(i64::MIN), i64::MIN.to_string());
    assert_eq!(i64_to_decimal(i64::MAX), i64::MAX.to_string());
}

#[test]
fn decimal_agrees_with_display() {
    for n in [1u64, 9, 10, 11, 99, 100, 101, 999_999, 1_000_000, 42_424_242_424] {
        assert_eq!(u64_to_decimal(n), n.to_string());
        assert_eq!(i64_to_decimal(-(n as i64)), (-(n as i64)).to_string());
    }
}

#[test]
fn ids_round_trip_through_the_database() {
    for id in [1u64, 42, 1 << 62, (1 << 63) - 1, 1 << 63, u64::MAX] {
        assert_eq!(id_from_db(id_to_db(id)), id);
        assert_eq!(id_to_db(id), id as i64);
    }
    assert_eq!(id_to_db(u64::MAX), -1);
    assert_eq!(id_from_db(-1), u64::MAX);
    assert_eq!(id_to_db(1234), 1234);
}

#[test]
fn log_texts() {
    assert_eq!(Message::Ready.text(), "Ready");
    assert_eq!(Message::Stopping.text(), "Stopping...");
    assert_eq!(
        Message::UserExemptedLog { user: 42 }.text(),
        "Action: User Exempted on <@42> (42)"
    );
    assert_eq!(
        Message::QuarantineLog { user: 1234567890123 }.text(),
        "Action: Qurantine on <@1234567890123> (1234567890123)"
    );
    assert_eq!(Message::AddRoleReason.text(), "Qurantine: Configured Add Role");
    assert_eq!(Message::RemoveRoleReason.text(), "Qurantine: Configured Remove Role");
    assert_eq!(Message::QuarantineActionName.text(), "qurantine");
}

#[test]
fn reply_texts() {
    assert_eq!(
        Message::ExemptedUser { name: "alice".to_string(), user: 5 }.text(),
        "Sucessfully exempted user alice (5)."
    );
    assert_eq!(
        Message::UnexemptedUser { name: "bob".to_string(), user: 77 }.text(),
        "Sucessfully unexempted user bob (77)."
    );
    assert_eq!(Message::NotExempt.text(), "User is not exempt.");
    assert_eq!(
        Message::NoPrimaryGuildId.text(),
        "Primary guild does not have an ID. Private guild?"
    );
    assert_eq!(
        Message::NoPrimaryGuild { user: 9 }.text(),
        "User 9 does not have a primary guild."
    );
    assert_eq!(Message::TagBanApplied.text(), "Sucessfully applied new tag ban.");
    assert_eq!(Message::InvalidTag.text(), "Invalid tag.");
    assert_eq!(Message::BannedUser.text(), "Banned user.");
    assert_eq!(Message::UnbannedTag.text(), "Unbanned tag.");
    assert_eq!(
        Message::CommandsRegistered.text(),
        "Successfully registered slash commands!"
    );
}

#[test]
fn status_text() {
    let message = Message::Status {
        version: "1.2.3".to_string(),
        ping_ms: 87,
        counts: RecordCounts { banned_tags: 4, exempted_users: 2, banned_users: 11, actions: 305 },
    };
    let expected = r#"
```diff
Running nineteeneightyfour-yasl v1.2.3.
Created on @spunksuii's request for anti-goon squads.

++ Pong! Ping to discord took 87ms.

++ -- STATS --
++ Banned Tags:    4
++ Banned Users:   11
++ Exempted Users: 2
++ Actions Taken:  305
++ -----------

-- Julia's alibi. Winston's detested.
-- Licensed under GNU AGPL v3.0, (C) l1npengtul Twenty Twenty-Six.
-- Source Code: https://github.com/l1npengtul/yasl
```
            "#;
    assert_eq!(message.text(), expected);
}

#[test]
fn banned_tags_table_layout() {
    let rows = vec![
        BannedTagRow { rowid: 1, server_id: Some(123), tag: Some("ABC".to_string()) },
        BannedTagRow { rowid: 22, server_id: None, tag: None },
    ];
    let expected = "Tag bans\n```\nID ServerID Tag\n 1 123      ABC\n22          \n```\n";
    assert_eq!(banned_tags_table(&rows), expected);
    assert_eq!(Message::BannedTagsTable { rows }.text(), expected);
}

#[test]
fn banned_tags_table_without_bans() {
    assert_eq!(banned_tags_table(&vec![]), "Tag bans\n```\nID ServerID Tag\n```\n");
}

#[test]
fn exemption_and_user_ban_tables_cannot_be_laid_out() {
    assert!(!can_render_exempted_users_table());
    assert!(!can_render_banned_users_table());
    assert!(tabular::Table::new_safe("{:>} {<:}").is_err());
}

#[test]
fn permissions_of_authors() {
    let admin = AuthorMember { permissions: Some(8), roles: vec![] };
    let moderator = AuthorMember { permissions: Some(0), roles: vec![3, 70] };
    let member = AuthorMember { permissions: None, roles: vec![3] };
    assert!(administrator(8));
    assert!(administrator(0xff));
    assert!(!administrator(0xf7));
    assert!(check_permissions(&Some(admin), Some(70)));
    assert!(check_permissions(&Some(AuthorMember { permissions: Some(8), roles: vec![] }), None));
    assert!(check_permissions(&Some(moderator), Some(70)));
    assert!(!check_permissions(&Some(member), Some(70)));
    assert!(!check_permissions(&Some(AuthorMember { permissions: Some(0x7), roles: vec![70] }), None));
    assert!(!check_permissions(&None, Some(70)));
}

#[test]
fn test_mode_and_paths() {
    assert!(is_test_mode(&Some("1".to_string())));
    assert!(!is_test_mode(&Some("0".to_string())));
    assert!(!is_test_mode(&Some("11".to_string())));
    assert!(!is_test_mode(&Some("".to_string())));
    assert!(!is_test_mode(&None));
    assert_eq!(config_file(true, Some("/x".to_string())), "yasl.toml");
    assert_eq!(config_file(false, Some("/x".to_string())), "/x/yasl.toml");
    assert_eq!(config_file(false, None), "/etc/yasl.toml");
    assert_eq!(database_file(true, None), "yasl.sql");
    assert_eq!(database_file(false, Some("/state".to_string())), "/state/yasl.sql");
    assert_eq!(database_file(false, None), "/var/lib/yasl/yasl.sql");
}

#[test]
fn quarantine_roles_of_config() {
    let config = Config {
        token_file: "t".to_string(),
        log_channel_webhook_file: "w".to_string(),
        mod_role: None,
        main_server: 1,
        qurantine_add_role: Some(5),
        qurantine_prevent_role: None,
    };
    let roles = config.quarantine_roles();
    assert_eq!(roles.add_role, Some(5));
    assert_eq!(roles.prevent_role, None);
}

#[test]
fn timestamp_texts() {
    assert_eq!(timestamp_text(0), "1970-01-01T00:00:00+00:00");
    assert_eq!(timestamp_text(1_700_000_000), "2023-11-14T22:13:20+00:00");
    let min = DateTime::<Utc>::MIN_UTC.timestamp();
    let max = DateTime::<Utc>::MAX_UTC.timestamp();
    assert_eq!(min, -8_334_601_228_800);
    assert_eq!(max, 8_210_266_876_799);
    assert_eq!(timestamp_text(min), DateTime::<Utc>::from_timestamp(min, 0).unwrap().to_rfc3339());
    assert_eq!(timestamp_text(max), DateTime::<Utc>::from_timestamp(max, 0).unwrap().to_rfc3339());
    assert!(DateTime::<Utc>::from_timestamp(min - 1, 0).is_none());
    assert!(DateTime::<Utc>::from_timestamp(max + 1, 0).is_none());
    assert_eq!(timestamp_text(min - 1), "1970-01-01T00:00:00+00:00");
    assert_eq!(timestamp_text(i64::MAX), "1970-01-01T00:00:00+00:00");
    assert_eq!(timestamp_text(i64::MIN), DateTime::<Utc>::default().to_rfc3339());
}
