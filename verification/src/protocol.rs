//! The work the moderation logic hands to the program around it, and what comes back.
//!
//! Each piece of logic is a machine: it names one request at a time, the program
//! performs it and hands the response back, until the machine finishes.
use vstd::prelude::*;
use crate::messages::Message;
use crate::model::{BannedTagRow, BannedUserRow, ExemptedUserRow, RecordCounts};

verus! {

/// One piece of outside work.
#[allow(inconsistent_fields)]
#[derive(Debug, PartialEq, Eq)]
pub enum Request {
    /// Whether the user is stored as banned.
    IsUserBanned { user: u64 },
    /// Whether the user is stored as exempted.
    IsUserExempted { user: u64 },
    /// Whether a tag ban with this tag text is stored.
    IsTagBannedByTag { tag: String },
    /// Whether a tag ban for this guild is stored.
    IsTagBannedByGuildId { guild: u64 },
    /// Store a ban of the user.
    BanUser { user: u64 },
    /// Remove the stored bans of the user.
    UnbanUser { user: u64 },
    /// Store an exemption of the user, stamped with the current time.
    InsertExemptUser { user: u64 },
    /// Remove the stored exemptions of the user.
    DeleteExemptedUser { user: u64 },
    /// Record an action taken on the user, stamped with the current time.
    InsertAction { action: Message, user: u64 },
    /// Store a tag ban.
    InsertBannedTag { guild: Option<u64>, tag: Option<String> },
    /// Remove the tag ban with this row id.
    DeleteBannedTag { id: i64 },
    /// Count the stored records.
    CountRecords,
    /// Fetch all exemptions.
    GetAllExemptUsers,
    /// Fetch all tag bans.
    GetAllBannedTags,
    /// Fetch all user bans.
    GetAllBannedUsers,
    /// Fetch the roles the user holds in the guild.
    GetMemberRoles { guild: u64, user: u64 },
    /// Give the user a role in the guild, with an audit-log reason.
    AddMemberRole { guild: u64, user: u64, role: u64, reason: Message },
    /// Take a role from the user in the guild, with an audit-log reason.
    RemoveMemberRole { guild: u64, user: u64, role: u64, reason: Message },
    /// Write a message to the log and to the log channel's webhook.
    Log { message: Message },
    /// Reply to the command being handled.
    Reply { message: Message },
    /// Send a message to the command's channel.
    Say { message: Message },
    /// Measure the latency to Discord.
    Ping,
    /// Register the slash commands globally.
    RegisterCommands,
    /// Shut down the shard that handles the command.
    ShutdownShard,
    /// Shut down all shards.
    ShutdownAllShards,
    /// Close the database.
    CloseDatabase,
}

/// What came back from a request.
#[derive(Debug, PartialEq, Eq)]
pub enum Response {
    /// The work is done.
    Done,
    /// The answer to a yes-or-no question.
    Flag(bool),
    /// The roles a member holds.
    Roles(Vec<u64>),
    /// The counts of stored records.
    Counts(RecordCounts),
    /// A latency in milliseconds.
    Millis(u128),
    /// The stored exemptions.
    ExemptUsers(Vec<ExemptedUserRow>),
    /// The stored tag bans.
    BannedTags(Vec<BannedTagRow>),
    /// The stored user bans.
    BannedUsers(Vec<BannedUserRow>),
    /// The work failed; the error stays with the program, which returns it.
    Failed,
}

/// How a machine finished.
#[derive(Debug, PartialEq, Eq)]
pub enum Outcome {
    /// It finished with success.
    Done,
    /// It finished with success and a yes-or-no answer.
    Answer(bool),
    /// A request failed, and that failure is the result.
    Failed,
}

/// What a machine asks for next.
#[derive(Debug, PartialEq, Eq)]
pub enum Step {
    /// Perform this request and hand back its response.
    Perform(Request),
    /// Nothing more: the machine finished so.
    Finish(Outcome),
}

/// A piece of logic that alternates with outside work.
pub trait Machine: Sized {
    /// The machine after the response to its pending request, and what it asks next.
    spec fn next(self, response: Response) -> (Self, Step);

    /// Whether the machine can take the response without a panic.
    spec fn accepts(self, response: Response) -> bool;

    /// Whether the machine can take the response without a panic.
    fn can_accept(&self, response: &Response) -> (b: bool)
        ensures
            b == self.accepts(*response),
    ;

    /// Hands the response to the pending request to the machine.
    fn resume(self, response: Response) -> (r: (Self, Step))
        requires
            self.accepts(response),
        ensures
            r == self.next(response),
    ;
}

/// Whether a response is of the kind that a request calls for, and no failure.
pub open spec fn proper_response(request: Request, response: Response) -> bool {
    match request {
        Request::IsUserBanned { .. } | Request::IsUserExempted { .. }
        | Request::IsTagBannedByTag { .. } | Request::IsTagBannedByGuildId { .. } => response is Flag,
        Request::CountRecords => response is Counts,
        Request::GetAllExemptUsers => response is ExemptUsers,
        Request::GetAllBannedTags => response is BannedTags,
        Request::GetAllBannedUsers => response is BannedUsers,
        Request::GetMemberRoles { .. } => response is Roles,
        Request::Ping => response is Millis,
        _ => response is Done,
    }
}

/// Whether the outside world answers every request properly.
pub open spec fn serves(world: spec_fn(Request) -> Response) -> bool {
    forall|r: Request| #[trigger] proper_response(r, world(r))
}

/// The requests a machine makes, from its pending step on, when the outside world answers
/// each request `r` with `world(r)`; and how it finishes, if it does within `fuel` requests.
pub open spec fn run<M: Machine>(
    m: M,
    step: Step,
    world: spec_fn(Request) -> Response,
    fuel: nat,
) -> (Seq<Request>, Option<Outcome>)
    decreases fuel,
{
    match step {
        Step::Finish(outcome) => (Seq::empty(), Some(outcome)),
        Step::Perform(request) => {
            if fuel == 0 {
                (seq![request], None)
            } else {
                let (m2, s2) = m.next(world(request));
                let rest = run(m2, s2, world, (fuel - 1) as nat);
                (seq![request] + rest.0, rest.1)
            }
        },
    }
}

/// Whether a machine takes every response of its run without a panic, from its pending step
/// on, when the outside world answers each request `r` with `world(r)`, for `fuel` requests.
pub open spec fn run_accepted<M: Machine>(m: M, step: Step, world: spec_fn(Request) -> Response, fuel: nat) -> bool
    decreases fuel,
{
    match step {
        Step::Finish(_) => true,
        Step::Perform(request) => fuel == 0 || (m.accepts(world(request)) && {
            let (m2, s2) = m.next(world(request));
            run_accepted(m2, s2, world, (fuel - 1) as nat)
        }),
    }
}

} // verus!
