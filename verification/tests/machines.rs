use yasl::commands::Command;
use yasl::events::{EventHandling, GuildEvent};
use yasl::messages::Message;
use yasl::model::{BannedTagRow, PrimaryGuild, QuarantineRoles, RecordCounts, UserSnapshot};
use yasl::protocol::{Machine, Outcome, Request, Response, Step};
use yasl::quarantine::{Quarantine, QuarantineOrder};
use yasl::signals::{on_shutdown_signal, ShutdownSignal};
use yasl::tag_check::TagCheck;

/// Runs a machine against a world that answers each request, collecting the requests.
fn drive<M: Machine>(start: (M, Step), world: impl Fn(&Request) -> Response) -> (Vec<Request>, Outcome) {
    let (mut machine, mut step) = start;
    let mut requests = Vec::new();
    loop {
        match step {
            Step::Finish(outcome) => return (requests, outcome),
            Step::Perform(request) => {
                let response = world(&request);
                requests.push(request);
                assert!(machine.can_accept(&response));
                let (next_machine, next_step) = machine.resume(response);
                machine = next_machine;
                step = next_step;
            }
        }
    }
}

/// A world holding the given bans, exemptions and banned tags, where all work succeeds.
struct World {
    banned_users: Vec<u64>,
    exempted_users: Vec<u64>,
    banned_tag_texts: Vec<&'static str>,
    banned_guilds: Vec<u64>,
    member_roles: Vec<u64>,
}

impl World {
    fn empty() -> World {
        World { banned_users: vec![], exempted_users: vec![], banned_tag_texts: vec![], banned_guilds: vec![], member_roles: vec![] }
    }

    fn answer(&self, request: &Request) -> Response {
        match request {
            Request::IsUserBanned { user } => Response::Flag(self.banned_users.contains(user)),
            Request::IsUserExempted { user } => Response::Flag(self.exempted_users.contains(user)),
            Request::IsTagBannedByTag { tag } => Response::Flag(self.banned_tag_texts.contains(&tag.as_str())),
            Request::IsTagBannedByGuildId { guild } => Response::Flag(self.banned_guilds.contains(guild)),
            Request::GetMemberRoles { .. } => Response::Roles(self.member_roles.clone()),
            Request::CountRecords => Response::Counts(RecordCounts { banned_tags: 1, exempted_users: 2, banned_users: 3, actions: 4 }),
            Request::Ping => Response::Millis(12),
            Request::GetAllBannedTags => Response::BannedTags(vec![BannedTagRow { rowid: 1, server_id: Some(9), tag: None }]),
            _ => Response::Done,
        }
    }
}

fn config() -> QuarantineRoles {
    QuarantineRoles { add_role: Some(100), prevent_role: Some(200) }
}

fn primary(guild: Option<u64>, tag: Option<&str>) -> PrimaryGuild {
    PrimaryGuild { identity_guild_id: guild, tag: tag.map(|t| t.to_string()) }
}

fn order(user: u64, roles: Vec<u64>, add_to_ban: bool) -> QuarantineOrder {
    QuarantineOrder { guild: 7, user, roles, add_to_ban, config: config() }
}

fn full_quarantine(user: u64, guild: u64) -> Vec<Request> {
    vec![
        Request::IsUserExempted { user },
        Request::AddMemberRole { guild, user, role: 100, reason: Message::AddRoleReason },
        Request::RemoveMemberRole { guild, user, role: 200, reason: Message::RemoveRoleReason },
        Request::InsertAction { action: Message::QuarantineActionName, user },
        Request::Log { message: Message::QuarantineLog { user } },
    ]
}

#[test]
fn tag_check_by_text_first() {
    let mut world = World::empty();
    world.banned_tag_texts.push("GOON");
    let (requests, outcome) = drive(TagCheck::start(primary(Some(5), Some("GOON"))), |r| world.answer(r));
    assert_eq!(requests, vec![Request::IsTagBannedByTag { tag: "GOON".to_string() }]);
    assert_eq!(outcome, Outcome::Answer(true));
}

#[test]
fn tag_check_by_guild_after_text() {
    let mut world = World::empty();
    world.banned_guilds.push(5);
    let (requests, outcome) = drive(TagCheck::start(primary(Some(5), Some("NICE"))), |r| world.answer(r));
    assert_eq!(
        requests,
        vec![Request::IsTagBannedByTag { tag: "NICE".to_string() }, Request::IsTagBannedByGuildId { guild: 5 }]
    );
    assert_eq!(outcome, Outcome::Answer(true));
}

#[test]
fn tag_check_without_tag_or_guild() {
    let world = World::empty();
    let (requests, outcome) = drive(TagCheck::start(primary(None, None)), |r| world.answer(r));
    assert!(requests.is_empty());
    assert_eq!(outcome, Outcome::Answer(false));
    let (requests, outcome) = drive(TagCheck::start(primary(Some(5), Some("NICE"))), |r| world.answer(r));
    assert_eq!(requests.len(), 2);
    assert_eq!(outcome, Outcome::Answer(false));
}

#[test]
fn quarantine_of_exempted_user_only_logs() {
    let mut world = World::empty();
    world.exempted_users.push(42);
    let (requests, outcome) = drive(Quarantine::start(order(42, vec![200], true)), |r| world.answer(r));
    assert_eq!(
        requests,
        vec![Request::IsUserExempted { user: 42 }, Request::Log { message: Message::UserExemptedLog { user: 42 } }]
    );
    assert_eq!(outcome, Outcome::Done);
}

#[test]
fn quarantine_changes_roles_records_and_bans() {
    let world = World::empty();
    let (requests, outcome) = drive(Quarantine::start(order(42, vec![200, 300], true)), |r| world.answer(r));
    let mut expected = full_quarantine(42, 7);
    expected.push(Request::IsUserBanned { user: 42 });
    expected.push(Request::BanUser { user: 42 });
    assert_eq!(requests, expected);
    assert_eq!(outcome, Outcome::Done);
}

#[test]
fn quarantine_of_already_quarantined_banned_user_does_nothing_new() {
    let mut world = World::empty();
    world.banned_users.push(42);
    let (requests, outcome) = drive(Quarantine::start(order(42, vec![100, 300], true)), |r| world.answer(r));
    assert_eq!(requests, vec![Request::IsUserExempted { user: 42 }, Request::IsUserBanned { user: 42 }]);
    assert_eq!(outcome, Outcome::Done);
    let (requests, _) = drive(Quarantine::start(order(42, vec![100], false)), |r| world.answer(r));
    assert_eq!(requests, vec![Request::IsUserExempted { user: 42 }]);
}

#[test]
fn quarantine_stops_at_a_failure() {
    let world = World::empty();
    let (requests, outcome) = drive(Quarantine::start(order(42, vec![], true)), |r| match r {
        Request::AddMemberRole { .. } => Response::Failed,
        other => world.answer(other),
    });
    assert_eq!(requests.len(), 2);
    assert_eq!(outcome, Outcome::Failed);
}

#[test]
fn quarantine_failures_stop_early_and_write_little() {
    let world = World::empty();
    for failing in 0..7 {
        let (requests, outcome) = drive(Quarantine::start(order(42, vec![200], true)), |r| {
            let kind = match r {
                Request::IsUserExempted { .. } => 0,
                Request::AddMemberRole { .. } => 1,
                Request::RemoveMemberRole { .. } => 2,
                Request::InsertAction { .. } => 3,
                Request::Log { .. } => 4,
                Request::IsUserBanned { .. } => 5,
                _ => 6,
            };
            if kind == failing { Response::Failed } else { world.answer(r) }
        });
        let mut all = full_quarantine(42, 7);
        all.push(Request::IsUserBanned { user: 42 });
        all.push(Request::BanUser { user: 42 });
        assert!(requests.len() <= all.len());
        assert_eq!(requests[..], all[..requests.len()]);
        assert_eq!(requests.iter().filter(|r| matches!(r, Request::InsertAction { .. })).count() <= 1, true);
        assert_eq!(requests.iter().filter(|r| matches!(r, Request::BanUser { .. })).count() <= 1, true);
        assert!(!requests.iter().any(|r| matches!(
            r,
            Request::UnbanUser { .. }
                | Request::InsertExemptUser { .. }
                | Request::DeleteExemptedUser { .. }
                | Request::InsertBannedTag { .. }
                | Request::DeleteBannedTag { .. }
        )));
        if failing == 4 {
            assert_eq!(requests, all);
            assert_eq!(outcome, Outcome::Done);
        } else {
            assert_eq!(outcome, Outcome::Failed);
            let stopped_at: usize = [1, 2, 3, 4, 0, 6, 7][failing];
            assert_eq!(requests.len(), stopped_at);
        }
    }
}

#[test]
fn quarantine_with_zero_roles_that_are_never_used() {
    let zeros = QuarantineRoles { add_role: Some(0), prevent_role: Some(0) };
    let exempted = World { exempted_users: vec![5], ..World::empty() };
    let (requests, outcome) = drive(
        Quarantine::start(QuarantineOrder { guild: 7, user: 5, roles: vec![], add_to_ban: true, config: zeros }),
        |r| exempted.answer(r),
    );
    assert_eq!(requests, vec![
        Request::IsUserExempted { user: 5 },
        Request::Log { message: Message::UserExemptedLog { user: 5 } },
    ]);
    assert_eq!(outcome, Outcome::Done);
    let prevent_zero = QuarantineRoles { add_role: Some(100), prevent_role: Some(0) };
    let world = World::empty();
    let (requests, outcome) = drive(
        Quarantine::start(QuarantineOrder { guild: 7, user: 5, roles: vec![], add_to_ban: false, config: prevent_zero }),
        |r| match r {
            Request::AddMemberRole { .. } => Response::Failed,
            other => world.answer(other),
        },
    );
    assert_eq!(requests.len(), 2);
    assert_eq!(outcome, Outcome::Failed);
}

#[test]
fn event_failures_end_the_handling() {
    let world = World { banned_users: vec![42], ..World::empty() };
    let event = GuildEvent::MemberAdded { guild: 7, user: user(42, None), roles: vec![] };
    let (requests, outcome) = drive(EventHandling::start(event, 1, config()), |_| Response::Failed);
    assert_eq!(requests, vec![Request::IsUserBanned { user: 42 }]);
    assert_eq!(outcome, Outcome::Failed);
    let event = GuildEvent::MemberAdded { guild: 7, user: user(42, None), roles: vec![200] };
    let (requests, outcome) = drive(EventHandling::start(event, 1, config()), |r| match r {
        Request::RemoveMemberRole { .. } => Response::Failed,
        other => world.answer(other),
    });
    assert_eq!(requests.len(), 4);
    assert_eq!(outcome, Outcome::Failed);
}

#[test]
fn quarantine_cannot_take_a_zero_role() {
    let zero = QuarantineOrder {
        guild: 7,
        user: 1,
        roles: vec![],
        add_to_ban: false,
        config: QuarantineRoles { add_role: Some(0), prevent_role: None },
    };
    let (machine, _) = Quarantine::start(zero);
    assert!(!machine.can_accept(&Response::Flag(false)));
    assert!(machine.can_accept(&Response::Flag(true)));
}

fn user(id: u64, p: Option<PrimaryGuild>) -> UserSnapshot {
    UserSnapshot { id, primary_guild: p }
}

#[test]
fn banned_user_joining_is_quarantined() {
    let mut world = World::empty();
    world.banned_users.push(42);
    let event = GuildEvent::MemberAdded { guild: 7, user: user(42, None), roles: vec![200] };
    let (requests, outcome) = drive(EventHandling::start(event, 1, config()), |r| world.answer(r));
    let mut expected = vec![Request::IsUserBanned { user: 42 }];
    expected.extend(full_quarantine(42, 7));
    expected.push(Request::IsUserBanned { user: 42 });
    assert_eq!(requests, expected);
    assert_eq!(outcome, Outcome::Done);
}

#[test]
fn member_with_banned_tag_is_quarantined_and_banned() {
    let mut world = World::empty();
    world.banned_tag_texts.push("GOON");
    let event = GuildEvent::MemberUpdated { guild: 7, user: user(42, Some(primary(Some(5), Some("GOON")))), roles: vec![200] };
    let (requests, outcome) = drive(EventHandling::start(event, 1, config()), |r| world.answer(r));
    let mut expected = vec![Request::IsUserBanned { user: 42 }, Request::IsTagBannedByTag { tag: "GOON".to_string() }];
    expected.extend(full_quarantine(42, 7));
    expected.push(Request::IsUserBanned { user: 42 });
    expected.push(Request::BanUser { user: 42 });
    assert_eq!(requests, expected);
    assert_eq!(outcome, Outcome::Done);
}

#[test]
fn banned_member_update_does_not_ban_again() {
    let mut world = World::empty();
    world.banned_users.push(42);
    let event = GuildEvent::MemberUpdated { guild: 7, user: user(42, None), roles: vec![200] };
    let (requests, _) = drive(EventHandling::start(event, 1, config()), |r| world.answer(r));
    let mut expected = vec![Request::IsUserBanned { user: 42 }];
    expected.extend(full_quarantine(42, 7));
    assert_eq!(requests, expected);
}

#[test]
fn clean_member_is_left_alone() {
    let world = World::empty();
    let event = GuildEvent::MemberAdded { guild: 7, user: user(42, Some(primary(Some(5), None))), roles: vec![] };
    let (requests, outcome) = drive(EventHandling::start(event, 1, config()), |r| world.answer(r));
    assert_eq!(requests, vec![Request::IsUserBanned { user: 42 }, Request::IsTagBannedByGuildId { guild: 5 }]);
    assert_eq!(outcome, Outcome::Done);
}

#[test]
fn account_change_with_old_banned_tag() {
    let mut world = World::empty();
    world.banned_guilds.push(5);
    world.member_roles = vec![200];
    let event = GuildEvent::UserUpdated {
        old: Some(user(41, Some(primary(Some(5), None)))),
        new: user(42, Some(primary(Some(6), None))),
    };
    let (requests, outcome) = drive(EventHandling::start(event, 1, config()), |r| world.answer(r));
    let mut expected = vec![
        Request::GetMemberRoles { guild: 1, user: 42 },
        Request::IsUserBanned { user: 42 },
        Request::IsTagBannedByGuildId { guild: 5 },
        Request::IsUserExempted { user: 41 },
        Request::AddMemberRole { guild: 1, user: 41, role: 100, reason: Message::AddRoleReason },
        Request::RemoveMemberRole { guild: 1, user: 41, role: 200, reason: Message::RemoveRoleReason },
        Request::InsertAction { action: Message::QuarantineActionName, user: 41 },
        Request::Log { message: Message::QuarantineLog { user: 41 } },
    ];
    expected.push(Request::IsUserBanned { user: 41 });
    expected.push(Request::BanUser { user: 41 });
    assert_eq!(requests, expected);
    assert_eq!(outcome, Outcome::Done);
}

#[test]
fn account_change_with_new_banned_tag() {
    let mut world = World::empty();
    world.banned_guilds.push(6);
    world.member_roles = vec![100];
    let event = GuildEvent::UserUpdated {
        old: Some(user(42, Some(primary(Some(5), None)))),
        new: user(42, Some(primary(Some(6), None))),
    };
    let (requests, outcome) = drive(EventHandling::start(event, 1, config()), |r| world.answer(r));
    let expected = vec![
        Request::GetMemberRoles { guild: 1, user: 42 },
        Request::IsUserBanned { user: 42 },
        Request::IsTagBannedByGuildId { guild: 5 },
        Request::IsTagBannedByGuildId { guild: 6 },
        Request::IsUserExempted { user: 42 },
        Request::IsUserBanned { user: 42 },
        Request::BanUser { user: 42 },
    ];
    assert_eq!(requests, expected);
    assert_eq!(outcome, Outcome::Done);
}

#[test]
fn account_change_fails_when_roles_cannot_be_fetched() {
    let event = GuildEvent::UserUpdated { old: None, new: user(42, None) };
    let (requests, outcome) = drive(EventHandling::start(event, 1, config()), |_| Response::Failed);
    assert_eq!(requests, vec![Request::GetMemberRoles { guild: 1, user: 42 }]);
    assert_eq!(outcome, Outcome::Failed);
}

#[test]
fn ready_is_logged_and_other_events_ignored() {
    let world = World::empty();
    let (requests, outcome) = drive(EventHandling::start(GuildEvent::Ready, 1, config()), |r| world.answer(r));
    assert_eq!(requests, vec![Request::Log { message: Message::Ready }]);
    assert_eq!(outcome, Outcome::Done);
    let (requests, outcome) = drive(EventHandling::start(GuildEvent::Other, 1, config()), |r| world.answer(r));
    assert!(requests.is_empty());
    assert_eq!(outcome, Outcome::Done);
}

#[test]
fn status_command() {
    let world = World::empty();
    let (requests, outcome) = drive(Command::status("0.1.0".to_string()), |r| world.answer(r));
    assert_eq!(
        requests,
        vec![
            Request::CountRecords,
            Request::Ping,
            Request::Reply {
                message: Message::Status {
                    version: "0.1.0".to_string(),
                    ping_ms: 12,
                    counts: RecordCounts { banned_tags: 1, exempted_users: 2, banned_users: 3, actions: 4 },
                },
            },
        ]
    );
    assert_eq!(outcome, Outcome::Done);
}

#[test]
fn exempting_lifts_a_ban() {
    let mut world = World::empty();
    world.banned_users.push(9);
    let (requests, _) = drive(Command::exempt_user("eve".to_string(), 9), |r| world.answer(r));
    assert_eq!(
        requests,
        vec![
            Request::InsertExemptUser { user: 9 },
            Request::IsUserBanned { user: 9 },
            Request::UnbanUser { user: 9 },
            Request::Reply { message: Message::ExemptedUser { name: "eve".to_string(), user: 9 } },
        ]
    );
    let world = World::empty();
    let (requests, _) = drive(Command::exempt_user("eve".to_string(), 9), |r| world.answer(r));
    assert_eq!(requests.len(), 3);
}

#[test]
fn unexempting() {
    let mut world = World::empty();
    let (requests, _) = drive(Command::unexempt_user("eve".to_string(), 9), |r| world.answer(r));
    assert_eq!(
        requests,
        vec![Request::IsUserExempted { user: 9 }, Request::Reply { message: Message::NotExempt }]
    );
    world.exempted_users.push(9);
    let (requests, _) = drive(Command::unexempt_user("eve".to_string(), 9), |r| world.answer(r));
    assert_eq!(
        requests,
        vec![
            Request::IsUserExempted { user: 9 },
            Request::DeleteExemptedUser { user: 9 },
            Request::Reply { message: Message::UnexemptedUser { name: "eve".to_string(), user: 9 } },
        ]
    );
}

#[test]
fn tag_ban_by_text_checks_length() {
    let world = World::empty();
    for (tag, ok) in [("", false), ("A", true), ("GOON", true), ("GOONS", false), ("ÄÖÜß", true), ("🦀🦀🦀🦀🦀", false)] {
        let (requests, outcome) = drive(Command::add_banned_tag_by_tag(tag.to_string()), |r| world.answer(r));
        assert_eq!(outcome, Outcome::Done);
        if ok {
            assert_eq!(
                requests,
                vec![
                    Request::InsertBannedTag { guild: None, tag: Some(tag.to_string()) },
                    Request::Reply { message: Message::TagBanApplied },
                ]
            );
        } else {
            assert_eq!(requests, vec![Request::Reply { message: Message::InvalidTag }]);
        }
    }
}

#[test]
fn tag_ban_by_user() {
    let world = World::empty();
    let (requests, _) = drive(Command::add_banned_tag_by_user(3, None), |r| world.answer(r));
    assert_eq!(requests, vec![Request::Reply { message: Message::NoPrimaryGuild { user: 3 } }]);
    let (requests, _) = drive(Command::add_banned_tag_by_user(3, Some(primary(None, Some("X")))), |r| world.answer(r));
    assert_eq!(requests, vec![Request::Reply { message: Message::NoPrimaryGuildId }]);
    let (requests, _) = drive(Command::add_banned_tag_by_user(3, Some(primary(Some(8), Some("X")))), |r| world.answer(r));
    assert_eq!(
        requests,
        vec![
            Request::InsertBannedTag { guild: Some(8), tag: Some("X".to_string()) },
            Request::Reply { message: Message::TagBanApplied },
        ]
    );
}

#[test]
fn simple_store_commands() {
    let world = World::empty();
    let (requests, _) = drive(Command::add_banned_tag_by_guild_id(8), |r| world.answer(r));
    assert_eq!(
        requests,
        vec![
            Request::InsertBannedTag { guild: Some(8), tag: None },
            Request::Reply { message: Message::TagBanApplied },
        ]
    );
    let (requests, _) = drive(Command::add_banned_user_manually(4), |r| world.answer(r));
    assert_eq!(requests, vec![Request::BanUser { user: 4 }, Request::Reply { message: Message::BannedUser }]);
    let (requests, _) = drive(Command::unban_tag(-3), |r| world.answer(r));
    assert_eq!(requests, vec![Request::DeleteBannedTag { id: -3 }, Request::Reply { message: Message::UnbannedTag }]);
}

#[test]
fn failed_store_fails_the_command() {
    let (requests, outcome) = drive(Command::add_banned_user_manually(4), |_| Response::Failed);
    assert_eq!(requests, vec![Request::BanUser { user: 4 }]);
    assert_eq!(outcome, Outcome::Failed);
}

#[test]
fn listing_tag_bans() {
    let world = World::empty();
    let (requests, outcome) = drive(Command::banned_tags(), |r| world.answer(r));
    assert_eq!(
        requests,
        vec![
            Request::GetAllBannedTags,
            Request::Reply { message: Message::BannedTagsTable { rows: vec![BannedTagRow { rowid: 1, server_id: Some(9), tag: None }] } },
        ]
    );
    assert_eq!(outcome, Outcome::Done);
}

#[test]
fn owner_commands() {
    let world = World::empty();
    let (requests, _) = drive(Command::register_commands(), |r| world.answer(r));
    assert_eq!(requests, vec![Request::RegisterCommands, Request::Say { message: Message::CommandsRegistered }]);
    let (requests, outcome) = drive(Command::stop(), |r| match r {
        Request::Log { .. } | Request::ShutdownShard => Response::Failed,
        other => world.answer(other),
    });
    assert_eq!(
        requests,
        vec![Request::Log { message: Message::Stopping }, Request::ShutdownShard, Request::CloseDatabase]
    );
    assert_eq!(outcome, Outcome::Done);
}

#[test]
fn shutdown_signals() {
    for signal in [ShutdownSignal::Terminate, ShutdownSignal::Interrupt, ShutdownSignal::Quit] {
        assert_eq!(on_shutdown_signal(signal), vec![Request::ShutdownAllShards, Request::CloseDatabase]);
    }
}
