//! The moderators' commands: status, exemptions, tag bans, user bans, and the owner's
//! commands to register the slash commands and to stop the bot.
use vstd::prelude::*;
use crate::messages::{Message, banned_users_table_renders, exempted_users_table_renders};
use crate::model::{PrimaryGuild, RecordCounts};
use crate::protocol::{Machine, Outcome, Request, Response, Step, run, serves, proper_response};

verus! {

/// Where a command stands.
#[allow(inconsistent_fields)]
pub enum Command {
    /// Status: waiting for the record counts.
    AwaitCounts { version: String },
    /// Status: waiting for the latency.
    AwaitPing { version: String, counts: RecordCounts },
    /// Exempting: waiting for the exemption to be stored.
    AwaitExemptInsert { name: String, user: u64 },
    /// Exempting: waiting to learn whether the user is banned.
    AwaitBannedCheck { name: String, user: u64 },
    /// Exempting: waiting for the user's ban to be removed.
    AwaitUnban { name: String, user: u64 },
    /// Unexempting: waiting to learn whether the user is exempted.
    AwaitExemptCheck { name: String, user: u64 },
    /// Unexempting: waiting for the exemption to be removed.
    AwaitExemptDelete { name: String, user: u64 },
    /// Listing exemptions: waiting for them.
    AwaitExemptRows,
    /// Listing tag bans: waiting for them.
    AwaitBannedTagRows,
    /// Listing user bans: waiting for them.
    AwaitBannedUserRows,
    /// Waiting for a change to be stored, then replying with the message.
    AwaitWrite { reply: Message },
    /// Waiting for the slash commands to be registered.
    AwaitRegister,
    /// Waiting for the reply (or message) to be sent.
    AwaitReply,
    /// Stopping: waiting for the log.
    AwaitStopLog,
    /// Stopping: waiting for the shard to shut down.
    AwaitShardShutdown,
    /// Stopping: waiting for the database to close.
    AwaitDatabaseClose,
    /// Finished: nothing is pending.
    Finished,
}

/// The step that ends a command in failure.
pub open spec fn command_failed() -> (Command, Step) {
    (Command::Finished, Step::Finish(Outcome::Failed))
}

/// Reply with a message, then finish.
pub open spec fn reply_with(message: Message) -> (Command, Step) {
    (Command::AwaitReply, Step::Perform(Request::Reply { message }))
}

/// Store a change, then reply with a message.
pub open spec fn write_then_reply(request: Request, reply: Message) -> (Command, Step) {
    (Command::AwaitWrite { reply }, Step::Perform(request))
}

/// The status command: count the records, measure the latency, reply with both and the
/// bot's version.
pub open spec fn begin_status(version: String) -> (Command, Step) {
    (Command::AwaitCounts { version }, Step::Perform(Request::CountRecords))
}

/// Exempting a user: store the exemption, lift the user's ban if there is one, reply.
pub open spec fn begin_exempt_user(name: String, user: u64) -> (Command, Step) {
    (Command::AwaitExemptInsert { name, user }, Step::Perform(Request::InsertExemptUser { user }))
}

/// Unexempting a user: if the user is exempted, remove the exemption and reply so;
/// otherwise reply that the user is not exempt.
pub open spec fn begin_unexempt_user(name: String, user: u64) -> (Command, Step) {
    (Command::AwaitExemptCheck { name, user }, Step::Perform(Request::IsUserExempted { user }))
}

/// Listing the exemptions.
pub open spec fn begin_exempted_users() -> (Command, Step) {
    (Command::AwaitExemptRows, Step::Perform(Request::GetAllExemptUsers))
}

/// Banning the tag a user displays: the user needs a primary guild with an id; the ban
/// holds the guild id and the tag text (if any).
pub open spec fn begin_add_banned_tag_by_user(user: u64, primary: Option<PrimaryGuild>) -> (Command, Step) {
    match primary {
        Some(p) => match p.identity_guild_id {
            Some(g) => write_then_reply(
                Request::InsertBannedTag { guild: Some(g), tag: p.tag },
                Message::TagBanApplied,
            ),
            None => reply_with(Message::NoPrimaryGuildId),
        },
        None => reply_with(Message::NoPrimaryGuild { user }),
    }
}

/// Banning the tag of a guild, by the guild's id.
pub open spec fn begin_add_banned_tag_by_guild_id(guild: u64) -> (Command, Step) {
    write_then_reply(Request::InsertBannedTag { guild: Some(guild), tag: None }, Message::TagBanApplied)
}

/// Whether a tag text is acceptable: one to four characters.
pub open spec fn valid_tag(tag: Seq<char>) -> bool {
    1 <= tag.len() <= 4
}

/// Banning a tag text: it must have one to four characters.
pub open spec fn begin_add_banned_tag_by_tag(tag: String) -> (Command, Step) {
    if valid_tag(tag@) {
        write_then_reply(Request::InsertBannedTag { guild: None, tag: Some(tag) }, Message::TagBanApplied)
    } else {
        reply_with(Message::InvalidTag)
    }
}

/// Listing the tag bans.
pub open spec fn begin_banned_tags() -> (Command, Step) {
    (Command::AwaitBannedTagRows, Step::Perform(Request::GetAllBannedTags))
}

/// Banning a user by id.
pub open spec fn begin_add_banned_user_manually(user: u64) -> (Command, Step) {
    write_then_reply(Request::BanUser { user }, Message::BannedUser)
}

/// Listing the user bans.
pub open spec fn begin_banned_users() -> (Command, Step) {
    (Command::AwaitBannedUserRows, Step::Perform(Request::GetAllBannedUsers))
}

/// Removing a tag ban by its id.
pub open spec fn begin_unban_tag(id: i64) -> (Command, Step) {
    write_then_reply(Request::DeleteBannedTag { id }, Message::UnbannedTag)
}

/// Registering the slash commands, then saying so.
pub open spec fn begin_register_commands() -> (Command, Step) {
    (Command::AwaitRegister, Step::Perform(Request::RegisterCommands))
}

/// Stopping the bot: log it, shut down the shard, close the database.
pub open spec fn begin_stop() -> (Command, Step) {
    (Command::AwaitStopLog, Step::Perform(Request::Log { message: Message::Stopping }))
}

impl Machine for Command {
    open spec fn next(self, response: Response) -> (Command, Step) {
        match self {
            Command::AwaitCounts { version } => match response {
                Response::Counts(counts) => (Command::AwaitPing { version, counts }, Step::Perform(Request::Ping)),
                _ => command_failed(),
            },
            Command::AwaitPing { version, counts } => match response {
                Response::Millis(ping_ms) => reply_with(Message::Status { version, ping_ms, counts }),
                _ => command_failed(),
            },
            Command::AwaitExemptInsert { name, user } => match response {
                Response::Done => (Command::AwaitBannedCheck { name, user }, Step::Perform(Request::IsUserBanned { user })),
                _ => command_failed(),
            },
            Command::AwaitBannedCheck { name, user } => match response {
                Response::Flag(true) => (Command::AwaitUnban { name, user }, Step::Perform(Request::UnbanUser { user })),
                Response::Flag(false) => reply_with(Message::ExemptedUser { name, user }),
                _ => command_failed(),
            },
            Command::AwaitUnban { name, user } => match response {
                Response::Done => reply_with(Message::ExemptedUser { name, user }),
                _ => command_failed(),
            },
            Command::AwaitExemptCheck { name, user } => match response {
                Response::Flag(true) =>
                    (Command::AwaitExemptDelete { name, user }, Step::Perform(Request::DeleteExemptedUser { user })),
                Response::Flag(false) => reply_with(Message::NotExempt),
                _ => command_failed(),
            },
            Command::AwaitExemptDelete { name, user } => match response {
                Response::Done => reply_with(Message::UnexemptedUser { name, user }),
                _ => command_failed(),
            },
            Command::AwaitExemptRows => match response {
                Response::ExemptUsers(rows) => reply_with(Message::ExemptedUsersTable { rows }),
                _ => command_failed(),
            },
            Command::AwaitBannedTagRows => match response {
                Response::BannedTags(rows) => reply_with(Message::BannedTagsTable { rows }),
                _ => command_failed(),
            },
            Command::AwaitBannedUserRows => match response {
                Response::BannedUsers(rows) => reply_with(Message::BannedUsersTable { rows }),
                _ => command_failed(),
            },
            Command::AwaitWrite { reply } => match response {
                Response::Done => reply_with(reply),
                _ => command_failed(),
            },
            Command::AwaitRegister => match response {
                Response::Done =>
                    (Command::AwaitReply, Step::Perform(Request::Say { message: Message::CommandsRegistered })),
                _ => command_failed(),
            },
            Command::AwaitReply => match response {
                Response::Done => (Command::Finished, Step::Finish(Outcome::Done)),
                _ => command_failed(),
            },
            Command::AwaitStopLog => (Command::AwaitShardShutdown, Step::Perform(Request::ShutdownShard)),
            Command::AwaitShardShutdown =>
                (Command::AwaitDatabaseClose, Step::Perform(Request::CloseDatabase)),
            Command::AwaitDatabaseClose => match response {
                Response::Done => (Command::Finished, Step::Finish(Outcome::Done)),
                _ => command_failed(),
            },
            Command::Finished => command_failed(),
        }
    }

    open spec fn accepts(self, response: Response) -> bool {
        true
    }

    fn can_accept(&self, response: &Response) -> (b: bool) {
        true
    }

    fn resume(self, response: Response) -> (r: (Command, Step)) {
        match self {
            Command::AwaitCounts { version } => match response {
                Response::Counts(counts) => (Command::AwaitPing { version, counts }, Step::Perform(Request::Ping)),
                _ => (Command::Finished, Step::Finish(Outcome::Failed)),
            },
            Command::AwaitPing { version, counts } => match response {
                Response::Millis(ping_ms) => exec_reply_with(Message::Status { version, ping_ms, counts }),
                _ => (Command::Finished, Step::Finish(Outcome::Failed)),
            },
            Command::AwaitExemptInsert { name, user } => match response {
                Response::Done => (Command::AwaitBannedCheck { name, user }, Step::Perform(Request::IsUserBanned { user })),
                _ => (Command::Finished, Step::Finish(Outcome::Failed)),
            },
            Command::AwaitBannedCheck { name, user } => match response {
                Response::Flag(true) => (Command::AwaitUnban { name, user }, Step::Perform(Request::UnbanUser { user })),
                Response::Flag(false) => exec_reply_with(Message::ExemptedUser { name, user }),
                _ => (Command::Finished, Step::Finish(Outcome::Failed)),
            },
            Command::AwaitUnban { name, user } => match response {
                Response::Done => exec_reply_with(Message::ExemptedUser { name, user }),
                _ => (Command::Finished, Step::Finish(Outcome::Failed)),
            },
            Command::AwaitExemptCheck { name, user } => match response {
                Response::Flag(true) =>
                    (Command::AwaitExemptDelete { name, user }, Step::Perform(Request::DeleteExemptedUser { user })),
                Response::Flag(false) => exec_reply_with(Message::NotExempt),
                _ => (Command::Finished, Step::Finish(Outcome::Failed)),
            },
            Command::AwaitExemptDelete { name, user } => match response {
                Response::Done => exec_reply_with(Message::UnexemptedUser { name, user }),
                _ => (Command::Finished, Step::Finish(Outcome::Failed)),
            },
            Command::AwaitExemptRows => match response {
                Response::ExemptUsers(rows) => exec_reply_with(Message::ExemptedUsersTable { rows }),
                _ => (Command::Finished, Step::Finish(Outcome::Failed)),
            },
            Command::AwaitBannedTagRows => match response {
                Response::BannedTags(rows) => exec_reply_with(Message::BannedTagsTable { rows }),
                _ => (Command::Finished, Step::Finish(Outcome::Failed)),
            },
            Command::AwaitBannedUserRows => match response {
                Response::BannedUsers(rows) => exec_reply_with(Message::BannedUsersTable { rows }),
                _ => (Command::Finished, Step::Finish(Outcome::Failed)),
            },
            Command::AwaitWrite { reply } => match response {
                Response::Done => exec_reply_with(reply),
                _ => (Command::Finished, Step::Finish(Outcome::Failed)),
            },
            Command::AwaitRegister => match response {
                Response::Done =>
                    (Command::AwaitReply, Step::Perform(Request::Say { message: Message::CommandsRegistered })),
                _ => (Command::Finished, Step::Finish(Outcome::Failed)),
            },
            Command::AwaitReply => match response {
                Response::Done => (Command::Finished, Step::Finish(Outcome::Done)),
                _ => (Command::Finished, Step::Finish(Outcome::Failed)),
            },
            Command::AwaitStopLog => (Command::AwaitShardShutdown, Step::Perform(Request::ShutdownShard)),
            Command::AwaitShardShutdown =>
                (Command::AwaitDatabaseClose, Step::Perform(Request::CloseDatabase)),
            Command::AwaitDatabaseClose => match response {
                Response::Done => (Command::Finished, Step::Finish(Outcome::Done)),
                _ => (Command::Finished, Step::Finish(Outcome::Failed)),
            },
            Command::Finished => (Command::Finished, Step::Finish(Outcome::Failed)),
        }
    }
}

fn exec_reply_with(message: Message) -> (r: (Command, Step))
    ensures
        r == reply_with(message),
{
    (Command::AwaitReply, Step::Perform(Request::Reply { message }))
}

fn exec_write_then_reply(request: Request, reply: Message) -> (r: (Command, Step))
    ensures
        r == write_then_reply(request, reply),
{
    (Command::AwaitWrite { reply }, Step::Perform(request))
}

impl Command {
    /// Starts the status command; `version` is the bot's version.
    pub fn status(version: String) -> (r: (Command, Step))
        ensures
            r == begin_status(version),
    {
        (Command::AwaitCounts { version }, Step::Perform(Request::CountRecords))
    }

    /// Starts exempting the user with the given name and id.
    pub fn exempt_user(name: String, user: u64) -> (r: (Command, Step))
        ensures
            r == begin_exempt_user(name, user),
    {
        (Command::AwaitExemptInsert { name, user }, Step::Perform(Request::InsertExemptUser { user }))
    }

    /// Starts unexempting the user with the given name and id.
    pub fn unexempt_user(name: String, user: u64) -> (r: (Command, Step))
        ensures
            r == begin_unexempt_user(name, user),
    {
        (Command::AwaitExemptCheck { name, user }, Step::Perform(Request::IsUserExempted { user }))
    }

    /// Starts listing the exemptions. The command lays out its table with a row
    /// specification that `tabular` cannot parse, and panics on that before anything else;
    /// `requires` leaves that out.
    pub fn exempted_users() -> (r: (Command, Step))
        requires
            exempted_users_table_renders(),
        ensures
            r == begin_exempted_users(),
    {
        (Command::AwaitExemptRows, Step::Perform(Request::GetAllExemptUsers))
    }

    /// Starts banning the tag that the user displays.
    pub fn add_banned_tag_by_user(user: u64, primary: Option<PrimaryGuild>) -> (r: (Command, Step))
        ensures
            r == begin_add_banned_tag_by_user(user, primary),
    {
        match primary {
            Some(p) => match p.identity_guild_id {
                Some(g) => exec_write_then_reply(
                    Request::InsertBannedTag { guild: Some(g), tag: p.tag },
                    Message::TagBanApplied,
                ),
                None => exec_reply_with(Message::NoPrimaryGuildId),
            },
            None => exec_reply_with(Message::NoPrimaryGuild { user }),
        }
    }

    /// Starts banning the tag of a guild, given by id. The id is turned into a Discord guild
    /// id first, which panics on zero; `requires` leaves that out.
    pub fn add_banned_tag_by_guild_id(guild: u64) -> (r: (Command, Step))
        requires
            guild != 0,
        ensures
            r == begin_add_banned_tag_by_guild_id(guild),
    {
        exec_write_then_reply(Request::InsertBannedTag { guild: Some(guild), tag: None }, Message::TagBanApplied)
    }

    /// Starts banning a tag text.
    pub fn add_banned_tag_by_tag(tag: String) -> (r: (Command, Step))
        ensures
            r == begin_add_banned_tag_by_tag(tag),
    {
        let length: usize = tag.as_str().unicode_len();
        if length > 4 || length < 1 {
            exec_reply_with(Message::InvalidTag)
        } else {
            exec_write_then_reply(Request::InsertBannedTag { guild: None, tag: Some(tag) }, Message::TagBanApplied)
        }
    }

    /// Starts listing the tag bans.
    pub fn banned_tags() -> (r: (Command, Step))
        ensures
            r == begin_banned_tags(),
    {
        (Command::AwaitBannedTagRows, Step::Perform(Request::GetAllBannedTags))
    }

    /// Starts banning a user by id.
    pub fn add_banned_user_manually(user: u64) -> (r: (Command, Step))
        ensures
            r == begin_add_banned_user_manually(user),
    {
        exec_write_then_reply(Request::BanUser { user }, Message::BannedUser)
    }

    /// Starts listing the user bans. The command's table has a heading row of two cells in
    /// a layout of three columns, on which `tabular` panics before anything else;
    /// `requires` leaves that out.
    pub fn banned_users() -> (r: (Command, Step))
        requires
            banned_users_table_renders(),
        ensures
            r == begin_banned_users(),
    {
        (Command::AwaitBannedUserRows, Step::Perform(Request::GetAllBannedUsers))
    }

    /// Starts removing the tag ban with the given id.
    pub fn unban_tag(id: i64) -> (r: (Command, Step))
        ensures
            r == begin_unban_tag(id),
    {
        exec_write_then_reply(Request::DeleteBannedTag { id }, Message::UnbannedTag)
    }

    /// Starts registering the slash commands.
    pub fn register_commands() -> (r: (Command, Step))
        ensures
            r == begin_register_commands(),
    {
        (Command::AwaitRegister, Step::Perform(Request::RegisterCommands))
    }

    /// Starts stopping the bot.
    pub fn stop() -> (r: (Command, Step))
        ensures
            r == begin_stop(),
    {
        (Command::AwaitStopLog, Step::Perform(Request::Log { message: Message::Stopping }))
    }
}

} // verus!

verus! {

/// Storing a change that succeeds, then replying: the change, the reply, success.
pub proof fn lemma_write_then_reply(request: Request, reply: Message, world: spec_fn(Request) -> Response, fuel: nat)
    requires
        serves(world),
        world(request) == Response::Done,
        fuel >= 2,
    ensures
        run(write_then_reply(request, reply).0, write_then_reply(request, reply).1, world, fuel)
            == (seq![request, Request::Reply { message: reply }], Some(Outcome::Done)),
{
    reveal_with_fuel(run, 3);
    let r = Request::Reply { message: reply };
    assert(proper_response(r, world(r)));
    assert(run(write_then_reply(request, reply).0, write_then_reply(request, reply).1, world, fuel).0
        =~= seq![request, Request::Reply { message: reply }]);
}

/// Replying, then finishing: the reply, success.
proof fn lemma_reply_with(message: Message, world: spec_fn(Request) -> Response, fuel: nat)
    requires
        serves(world),
        fuel >= 1,
    ensures
        run(reply_with(message).0, reply_with(message).1, world, fuel)
            == (seq![Request::Reply { message }], Some(Outcome::Done)),
{
    reveal_with_fuel(run, 2);
    let r = Request::Reply { message };
    assert(proper_response(r, world(r)));
    assert(run(reply_with(message).0, reply_with(message).1, world, fuel).0 =~= seq![Request::Reply { message }]);
}

/// The status command counts the records, measures the latency, and replies with both.
pub proof fn law_status(version: String, world: spec_fn(Request) -> Response, fuel: nat)
    requires
        serves(world),
        fuel >= 3,
    ensures
        run(begin_status(version).0, begin_status(version).1, world, fuel) == (
            seq![
                Request::CountRecords,
                Request::Ping,
                Request::Reply {
                    message: Message::Status {
                        version,
                        ping_ms: world(Request::Ping)->Millis_0,
                        counts: world(Request::CountRecords)->Counts_0,
                    },
                },
            ],
            Some(Outcome::Done),
        ),
{
    reveal_with_fuel(run, 3);
    assert(proper_response(Request::CountRecords, world(Request::CountRecords)));
    assert(proper_response(Request::Ping, world(Request::Ping)));
    let message = Message::Status {
        version,
        ping_ms: world(Request::Ping)->Millis_0,
        counts: world(Request::CountRecords)->Counts_0,
    };
    lemma_reply_with(message, world, (fuel - 2) as nat);
    assert(run(begin_status(version).0, begin_status(version).1, world, fuel).0
        =~= seq![Request::CountRecords, Request::Ping, Request::Reply { message }]);
}

/// Exempting a user stores the exemption and lifts the user's ban, if there is one, before
/// replying.
pub proof fn law_exempt_user(name: String, user: u64, world: spec_fn(Request) -> Response, fuel: nat)
    requires
        serves(world),
        fuel >= 4,
    ensures
        run(begin_exempt_user(name, user).0, begin_exempt_user(name, user).1, world, fuel) == (
            seq![Request::InsertExemptUser { user }, Request::IsUserBanned { user }]
                + (if world(Request::IsUserBanned { user }) == Response::Flag(true) {
                seq![Request::UnbanUser { user }]
            } else {
                Seq::empty()
            }) + seq![Request::Reply { message: Message::ExemptedUser { name, user } }],
            Some(Outcome::Done),
        ),
{
    reveal_with_fuel(run, 4);
    assert(proper_response(Request::InsertExemptUser { user }, world(Request::InsertExemptUser { user })));
    assert(proper_response(Request::IsUserBanned { user }, world(Request::IsUserBanned { user })));
    assert(proper_response(Request::UnbanUser { user }, world(Request::UnbanUser { user })));
    let message = Message::ExemptedUser { name, user };
    lemma_reply_with(message, world, (fuel - 2) as nat);
    lemma_reply_with(message, world, (fuel - 3) as nat);
    assert(run(begin_exempt_user(name, user).0, begin_exempt_user(name, user).1, world, fuel).0
        =~= seq![Request::InsertExemptUser { user }, Request::IsUserBanned { user }]
        + (if world(Request::IsUserBanned { user }) == Response::Flag(true) {
        seq![Request::UnbanUser { user }]
    } else {
        Seq::empty()
    }) + seq![Request::Reply { message }]);
}

/// Unexempting an exempted user removes the exemption and replies so; for any other user
/// it only replies that the user is not exempt.
pub proof fn law_unexempt_user(name: String, user: u64, world: spec_fn(Request) -> Response, fuel: nat)
    requires
        serves(world),
        fuel >= 3,
    ensures
        run(begin_unexempt_user(name, user).0, begin_unexempt_user(name, user).1, world, fuel) == (
            seq![Request::IsUserExempted { user }] + if world(Request::IsUserExempted { user })
                == Response::Flag(true) {
                seq![
                    Request::DeleteExemptedUser { user },
                    Request::Reply { message: Message::UnexemptedUser { name, user } },
                ]
            } else {
                seq![Request::Reply { message: Message::NotExempt }]
            },
            Some(Outcome::Done),
        ),
{
    reveal_with_fuel(run, 3);
    assert(proper_response(Request::IsUserExempted { user }, world(Request::IsUserExempted { user })));
    assert(proper_response(Request::DeleteExemptedUser { user }, world(Request::DeleteExemptedUser { user })));
    lemma_reply_with(Message::UnexemptedUser { name, user }, world, (fuel - 2) as nat);
    lemma_reply_with(Message::NotExempt, world, (fuel - 1) as nat);
    assert(run(begin_unexempt_user(name, user).0, begin_unexempt_user(name, user).1, world, fuel).0
        =~= seq![Request::IsUserExempted { user }] + if world(Request::IsUserExempted { user })
        == Response::Flag(true) {
        seq![
            Request::DeleteExemptedUser { user },
            Request::Reply { message: Message::UnexemptedUser { name, user } },
        ]
    } else {
        seq![Request::Reply { message: Message::NotExempt }]
    });
}

/// A tag text of one to four characters is stored as a tag ban; any other is refused
/// with a reply and nothing stored.
pub proof fn law_add_banned_tag_by_tag(tag: String, world: spec_fn(Request) -> Response, fuel: nat)
    requires
        serves(world),
        fuel >= 2,
    ensures
        run(begin_add_banned_tag_by_tag(tag).0, begin_add_banned_tag_by_tag(tag).1, world, fuel) == (
            if valid_tag(tag@) {
                seq![
                    Request::InsertBannedTag { guild: None, tag: Some(tag) },
                    Request::Reply { message: Message::TagBanApplied },
                ]
            } else {
                seq![Request::Reply { message: Message::InvalidTag }]
            },
            Some(Outcome::Done),
        ),
{
    let insert = Request::InsertBannedTag { guild: None, tag: Some(tag) };
    assert(proper_response(insert, world(insert)));
    if valid_tag(tag@) {
        lemma_write_then_reply(insert, Message::TagBanApplied, world, fuel);
    } else {
        lemma_reply_with(Message::InvalidTag, world, fuel);
    }
}

/// Banning the tag a user displays stores the guild id with the tag text; a user without
/// a primary guild, or whose primary guild has no id, gets a reply and nothing is stored.
pub proof fn law_add_banned_tag_by_user(
    user: u64,
    primary: Option<PrimaryGuild>,
    world: spec_fn(Request) -> Response,
    fuel: nat,
)
    requires
        serves(world),
        fuel >= 2,
    ensures
        run(
            begin_add_banned_tag_by_user(user, primary).0,
            begin_add_banned_tag_by_user(user, primary).1,
            world,
            fuel,
        ) == (
            match primary {
                Some(p) => match p.identity_guild_id {
                    Some(g) => seq![
                        Request::InsertBannedTag { guild: Some(g), tag: p.tag },
                        Request::Reply { message: Message::TagBanApplied },
                    ],
                    None => seq![Request::Reply { message: Message::NoPrimaryGuildId }],
                },
                None => seq![Request::Reply { message: Message::NoPrimaryGuild { user } }],
            },
            Some(Outcome::Done),
        ),
{
    match primary {
        Some(p) => match p.identity_guild_id {
            Some(g) => {
                let insert = Request::InsertBannedTag { guild: Some(g), tag: p.tag };
                assert(proper_response(insert, world(insert)));
                lemma_write_then_reply(insert, Message::TagBanApplied, world, fuel);
            },
            None => lemma_reply_with(Message::NoPrimaryGuildId, world, fuel),
        },
        None => lemma_reply_with(Message::NoPrimaryGuild { user }, world, fuel),
    }
}

/// Banning a guild's tag by id stores the ban, then replies.
pub proof fn law_add_banned_tag_by_guild_id(guild: u64, world: spec_fn(Request) -> Response, fuel: nat)
    requires
        serves(world),
        fuel >= 2,
    ensures
        run(begin_add_banned_tag_by_guild_id(guild).0, begin_add_banned_tag_by_guild_id(guild).1, world, fuel) == (
            seq![
                Request::InsertBannedTag { guild: Some(guild), tag: None },
                Request::Reply { message: Message::TagBanApplied },
            ],
            Some(Outcome::Done),
        ),
{
    let insert = Request::InsertBannedTag { guild: Some(guild), tag: None };
    assert(proper_response(insert, world(insert)));
    lemma_write_then_reply(insert, Message::TagBanApplied, world, fuel);
}

/// Banning a user by id stores the ban, then replies.
pub proof fn law_add_banned_user_manually(user: u64, world: spec_fn(Request) -> Response, fuel: nat)
    requires
        serves(world),
        fuel >= 2,
    ensures
        run(begin_add_banned_user_manually(user).0, begin_add_banned_user_manually(user).1, world, fuel) == (
            seq![Request::BanUser { user }, Request::Reply { message: Message::BannedUser }],
            Some(Outcome::Done),
        ),
{
    assert(proper_response(Request::BanUser { user }, world(Request::BanUser { user })));
    lemma_write_then_reply(Request::BanUser { user }, Message::BannedUser, world, fuel);
}

/// Removing a tag ban deletes it by id, then replies.
pub proof fn law_unban_tag(id: i64, world: spec_fn(Request) -> Response, fuel: nat)
    requires
        serves(world),
        fuel >= 2,
    ensures
        run(begin_unban_tag(id).0, begin_unban_tag(id).1, world, fuel) == (
            seq![Request::DeleteBannedTag { id }, Request::Reply { message: Message::UnbannedTag }],
            Some(Outcome::Done),
        ),
{
    assert(proper_response(Request::DeleteBannedTag { id }, world(Request::DeleteBannedTag { id })));
    lemma_write_then_reply(Request::DeleteBannedTag { id }, Message::UnbannedTag, world, fuel);
}

/// Listing the tag bans fetches them and replies with their table.
pub proof fn law_banned_tags(world: spec_fn(Request) -> Response, fuel: nat)
    requires
        serves(world),
        fuel >= 2,
    ensures
        run(begin_banned_tags().0, begin_banned_tags().1, world, fuel) == (
            seq![
                Request::GetAllBannedTags,
                Request::Reply { message: Message::BannedTagsTable { rows: world(Request::GetAllBannedTags)->BannedTags_0 } },
            ],
            Some(Outcome::Done),
        ),
{
    reveal_with_fuel(run, 2);
    assert(proper_response(Request::GetAllBannedTags, world(Request::GetAllBannedTags)));
    let message = Message::BannedTagsTable { rows: world(Request::GetAllBannedTags)->BannedTags_0 };
    lemma_reply_with(message, world, (fuel - 1) as nat);
    assert(run(begin_banned_tags().0, begin_banned_tags().1, world, fuel).0
        =~= seq![Request::GetAllBannedTags, Request::Reply { message }]);
}

/// Registering the slash commands, then saying so.
pub proof fn law_register_commands(world: spec_fn(Request) -> Response, fuel: nat)
    requires
        serves(world),
        fuel >= 2,
    ensures
        run(begin_register_commands().0, begin_register_commands().1, world, fuel) == (
            seq![Request::RegisterCommands, Request::Say { message: Message::CommandsRegistered }],
            Some(Outcome::Done),
        ),
{
    reveal_with_fuel(run, 3);
    assert(proper_response(Request::RegisterCommands, world(Request::RegisterCommands)));
    let say = Request::Say { message: Message::CommandsRegistered };
    assert(proper_response(say, world(say)));
    assert(run(begin_register_commands().0, begin_register_commands().1, world, fuel).0
        =~= seq![Request::RegisterCommands, say]);
}

/// Stopping logs it, shuts the shard down and closes the database, whatever the log and
/// the shutdown report.
pub proof fn law_stop(world: spec_fn(Request) -> Response, fuel: nat)
    requires
        serves(world),
        fuel >= 3,
    ensures
        run(begin_stop().0, begin_stop().1, world, fuel) == (
            seq![Request::Log { message: Message::Stopping }, Request::ShutdownShard, Request::CloseDatabase],
            Some(Outcome::Done),
        ),
{
    reveal_with_fuel(run, 4);
    assert(proper_response(Request::CloseDatabase, world(Request::CloseDatabase)));
    assert(run(begin_stop().0, begin_stop().1, world, fuel).0
        =~= seq![Request::Log { message: Message::Stopping }, Request::ShutdownShard, Request::CloseDatabase]);
}

/// A failed request ends a command at once in failure; only the stop command's log and
/// shard shutdown, which cannot fail, are exempt from this.
pub proof fn law_command_failure(c: Command)
    requires
        !(c is AwaitStopLog),
        !(c is AwaitShardShutdown),
    ensures
        c.next(Response::Failed) == (Command::Finished, Step::Finish(Outcome::Failed)),
{
}

} // verus!
