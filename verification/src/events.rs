//! What the bot does on gateway events: banned users and users who display a banned tag
//! are quarantined when they join, when their membership changes and when their account
//! changes; the bot logs when it is ready.
use vstd::prelude::*;
use crate::messages::Message;
use crate::model::{PrimaryGuild, QuarantineRoles, UserSnapshot};
use crate::protocol::{Machine, Outcome, Request, Response, Step, run, serves, proper_response};
use crate::quarantine::{
    Quarantine, QuarantineOrder, QuarantinePhase, begin_quarantine, lemma_quarantine_run, law_quarantine_failure,
    quarantine_panics, quarantine_requests,
};
use crate::tag_check::{TagCheck, begin_tag_check, law_tag_check, tag_banned, tag_check_requests};

verus! {

/// A gateway event, as far as the bot reads it.
pub enum GuildEvent {
    /// A user joined a guild, holding the given roles there.
    MemberAdded { guild: u64, user: UserSnapshot, roles: Vec<u64> },
    /// A member of a guild changed, and now holds the given roles there.
    MemberUpdated { guild: u64, user: UserSnapshot, roles: Vec<u64> },
    /// The bot is connected and ready.
    Ready,
    /// A user's account changed; the account before the change, if known, and after it.
    UserUpdated { old: Option<UserSnapshot>, new: UserSnapshot },
    /// Any other event.
    Other,
}

/// Where the handling of an event stands.
#[allow(inconsistent_fields)]
pub enum EventHandling {
    /// A member event: waiting to learn whether the user is banned. A ban found on a user
    /// who joined is kept; one found on an update is not stored again.
    AwaitMemberBanned {
        guild: u64,
        user: u64,
        primary: Option<PrimaryGuild>,
        roles: Vec<u64>,
        joined: bool,
        config: QuarantineRoles,
    },
    /// A member event: checking the tag the user displays.
    CheckingMemberTag { guild: u64, user: u64, roles: Vec<u64>, config: QuarantineRoles, check: TagCheck },
    /// Waiting for the log that the bot is ready.
    AwaitReadyLog,
    /// An account change: waiting for the roles the user holds in the main guild.
    AwaitMemberRoles { guild: u64, old: Option<UserSnapshot>, new: UserSnapshot, config: QuarantineRoles },
    /// An account change: waiting to learn whether the user is banned.
    AwaitUserBanned {
        guild: u64,
        roles: Vec<u64>,
        old: Option<UserSnapshot>,
        new: UserSnapshot,
        config: QuarantineRoles,
    },
    /// An account change: checking the tag the account displayed before the change.
    CheckingOldTag {
        guild: u64,
        roles: Vec<u64>,
        old_id: u64,
        new: UserSnapshot,
        config: QuarantineRoles,
        check: TagCheck,
    },
    /// An account change: checking the tag the account displays after the change.
    CheckingNewTag { guild: u64, roles: Vec<u64>, new_id: u64, config: QuarantineRoles, check: TagCheck },
    /// Quarantining the user.
    Quarantining { quarantine: Quarantine },
    /// Finished: nothing is pending.
    Finished,
}

/// The order to quarantine a user.
pub open spec fn order_of(guild: u64, user: u64, roles: Vec<u64>, add_to_ban: bool, config: QuarantineRoles) -> QuarantineOrder {
    QuarantineOrder { guild, user, roles, add_to_ban, config }
}

/// The step that ends the handling in failure.
pub open spec fn event_failed() -> (EventHandling, Step) {
    (EventHandling::Finished, Step::Finish(Outcome::Failed))
}

/// The step that ends the handling with success.
pub open spec fn event_done() -> (EventHandling, Step) {
    (EventHandling::Finished, Step::Finish(Outcome::Done))
}

/// Quarantining from its start: first ask whether the user is exempted.
pub open spec fn quarantine_now(order: QuarantineOrder) -> (EventHandling, Step) {
    (
        EventHandling::Quarantining { quarantine: Quarantine { order, phase: QuarantinePhase::AwaitExempt } },
        Step::Perform(Request::IsUserExempted { user: order.user }),
    )
}

/// A member event after a step of its tag check: a match quarantines and bans the user.
pub open spec fn member_tag_step(
    guild: u64,
    user: u64,
    roles: Vec<u64>,
    config: QuarantineRoles,
    check: TagCheck,
    step: Step,
) -> (EventHandling, Step) {
    match step {
        Step::Perform(request) => (
            EventHandling::CheckingMemberTag { guild, user, roles, config, check },
            Step::Perform(request),
        ),
        Step::Finish(Outcome::Answer(true)) => quarantine_now(order_of(guild, user, roles, true, config)),
        Step::Finish(Outcome::Answer(false)) => event_done(),
        Step::Finish(_) => event_failed(),
    }
}

/// An account change after the old tag did not match: check the new tag, if any.
pub open spec fn new_tag_start(guild: u64, roles: Vec<u64>, new: UserSnapshot, config: QuarantineRoles) -> (EventHandling, Step) {
    match new.primary_guild {
        Some(p) => new_tag_step(guild, roles, new.id, config, begin_tag_check(p).0, begin_tag_check(p).1),
        None => event_done(),
    }
}

/// An account change after a step of the check of its new tag: a match quarantines and
/// bans the user.
pub open spec fn new_tag_step(
    guild: u64,
    roles: Vec<u64>,
    new_id: u64,
    config: QuarantineRoles,
    check: TagCheck,
    step: Step,
) -> (EventHandling, Step) {
    match step {
        Step::Perform(request) => (
            EventHandling::CheckingNewTag { guild, roles, new_id, config, check },
            Step::Perform(request),
        ),
        Step::Finish(Outcome::Answer(true)) => quarantine_now(order_of(guild, new_id, roles, true, config)),
        Step::Finish(Outcome::Answer(false)) => event_done(),
        Step::Finish(_) => event_failed(),
    }
}

/// An account change after a step of the check of its old tag: a match quarantines and
/// bans the user (under the old account's id); otherwise the new tag is checked.
pub open spec fn old_tag_step(
    guild: u64,
    roles: Vec<u64>,
    old_id: u64,
    new: UserSnapshot,
    config: QuarantineRoles,
    check: TagCheck,
    step: Step,
) -> (EventHandling, Step) {
    match step {
        Step::Perform(request) => (
            EventHandling::CheckingOldTag { guild, roles, old_id, new, config, check },
            Step::Perform(request),
        ),
        Step::Finish(Outcome::Answer(true)) => quarantine_now(order_of(guild, old_id, roles, true, config)),
        Step::Finish(Outcome::Answer(false)) => new_tag_start(guild, roles, new, config),
        Step::Finish(_) => event_failed(),
    }
}

/// An account change of a user who is not banned: check the old tag, if any, then the new.
pub open spec fn old_tag_start(
    guild: u64,
    roles: Vec<u64>,
    old: Option<UserSnapshot>,
    new: UserSnapshot,
    config: QuarantineRoles,
) -> (EventHandling, Step) {
    match old {
        Some(o) => match o.primary_guild {
            Some(p) => old_tag_step(guild, roles, o.id, new, config, begin_tag_check(p).0, begin_tag_check(p).1),
            None => new_tag_start(guild, roles, new, config),
        },
        None => new_tag_start(guild, roles, new, config),
    }
}

/// The handling of an event from its start. `main_server` is the guild whose roles an
/// account change is judged by; `config` holds the roles a quarantine changes.
pub open spec fn begin_event(event: GuildEvent, main_server: u64, config: QuarantineRoles) -> (EventHandling, Step) {
    match event {
        GuildEvent::MemberAdded { guild, user, roles } => (
            EventHandling::AwaitMemberBanned { guild, user: user.id, primary: user.primary_guild, roles, joined: true, config },
            Step::Perform(Request::IsUserBanned { user: user.id }),
        ),
        GuildEvent::MemberUpdated { guild, user, roles } => (
            EventHandling::AwaitMemberBanned { guild, user: user.id, primary: user.primary_guild, roles, joined: false, config },
            Step::Perform(Request::IsUserBanned { user: user.id }),
        ),
        GuildEvent::Ready => (EventHandling::AwaitReadyLog, Step::Perform(Request::Log { message: Message::Ready })),
        GuildEvent::UserUpdated { old, new } => (
            EventHandling::AwaitMemberRoles { guild: main_server, old, new, config },
            Step::Perform(Request::GetMemberRoles { guild: main_server, user: new.id }),
        ),
        GuildEvent::Other => event_done(),
    }
}

impl Machine for EventHandling {
    open spec fn next(self, response: Response) -> (EventHandling, Step) {
        match self {
            EventHandling::AwaitMemberBanned { guild, user, primary, roles, joined, config } => match response {
                Response::Flag(true) => quarantine_now(order_of(guild, user, roles, joined, config)),
                Response::Flag(false) => match primary {
                    Some(p) => member_tag_step(guild, user, roles, config, begin_tag_check(p).0, begin_tag_check(p).1),
                    None => event_done(),
                },
                _ => event_failed(),
            },
            EventHandling::CheckingMemberTag { guild, user, roles, config, check } =>
                member_tag_step(guild, user, roles, config, check.next(response).0, check.next(response).1),
            EventHandling::AwaitReadyLog => event_done(),
            EventHandling::AwaitMemberRoles { guild, old, new, config } => match response {
                Response::Roles(roles) => (
                    EventHandling::AwaitUserBanned { guild, roles, old, new, config },
                    Step::Perform(Request::IsUserBanned { user: new.id }),
                ),
                _ => event_failed(),
            },
            EventHandling::AwaitUserBanned { guild, roles, old, new, config } => match response {
                Response::Flag(true) => quarantine_now(order_of(guild, new.id, roles, false, config)),
                Response::Flag(false) => old_tag_start(guild, roles, old, new, config),
                _ => event_failed(),
            },
            EventHandling::CheckingOldTag { guild, roles, old_id, new, config, check } =>
                old_tag_step(guild, roles, old_id, new, config, check.next(response).0, check.next(response).1),
            EventHandling::CheckingNewTag { guild, roles, new_id, config, check } =>
                new_tag_step(guild, roles, new_id, config, check.next(response).0, check.next(response).1),
            EventHandling::Quarantining { quarantine } => match quarantine.next(response).1 {
                Step::Perform(request) => (
                    EventHandling::Quarantining { quarantine: quarantine.next(response).0 },
                    Step::Perform(request),
                ),
                Step::Finish(outcome) => (EventHandling::Finished, Step::Finish(outcome)),
            },
            EventHandling::Finished => event_failed(),
        }
    }

    open spec fn accepts(self, response: Response) -> bool {
        match self {
            EventHandling::Quarantining { quarantine } => quarantine.accepts(response),
            _ => true,
        }
    }

    fn can_accept(&self, response: &Response) -> (b: bool) {
        match self {
            EventHandling::Quarantining { quarantine } => quarantine.can_accept(response),
            _ => true,
        }
    }

    fn resume(self, response: Response) -> (r: (EventHandling, Step)) {
        match self {
            EventHandling::AwaitMemberBanned { guild, user, primary, roles, joined, config } => match response {
                Response::Flag(true) => exec_quarantine_now(QuarantineOrder { guild, user, roles, add_to_ban: joined, config }),
                Response::Flag(false) => match primary {
                    Some(p) => {
                        let (check, step) = TagCheck::start(p);
                        exec_member_tag_step(guild, user, roles, config, check, step)
                    },
                    None => (EventHandling::Finished, Step::Finish(Outcome::Done)),
                },
                _ => (EventHandling::Finished, Step::Finish(Outcome::Failed)),
            },
            EventHandling::CheckingMemberTag { guild, user, roles, config, check } => {
                let (check, step) = check.resume(response);
                exec_member_tag_step(guild, user, roles, config, check, step)
            },
            EventHandling::AwaitReadyLog => (EventHandling::Finished, Step::Finish(Outcome::Done)),
            EventHandling::AwaitMemberRoles { guild, old, new, config } => match response {
                Response::Roles(roles) => {
                    let user: u64 = new.id;
                    (
                        EventHandling::AwaitUserBanned { guild, roles, old, new, config },
                        Step::Perform(Request::IsUserBanned { user }),
                    )
                },
                _ => (EventHandling::Finished, Step::Finish(Outcome::Failed)),
            },
            EventHandling::AwaitUserBanned { guild, roles, old, new, config } => match response {
                Response::Flag(true) => exec_quarantine_now(
                    QuarantineOrder { guild, user: new.id, roles, add_to_ban: false, config },
                ),
                Response::Flag(false) => exec_old_tag_start(guild, roles, old, new, config),
                _ => (EventHandling::Finished, Step::Finish(Outcome::Failed)),
            },
            EventHandling::CheckingOldTag { guild, roles, old_id, new, config, check } => {
                let (check, step) = check.resume(response);
                exec_old_tag_step(guild, roles, old_id, new, config, check, step)
            },
            EventHandling::CheckingNewTag { guild, roles, new_id, config, check } => {
                let (check, step) = check.resume(response);
                exec_new_tag_step(guild, roles, new_id, config, check, step)
            },
            EventHandling::Quarantining { quarantine } => {
                let (quarantine, step) = quarantine.resume(response);
                match step {
                    Step::Perform(request) => (EventHandling::Quarantining { quarantine }, Step::Perform(request)),
                    Step::Finish(outcome) => (EventHandling::Finished, Step::Finish(outcome)),
                }
            },
            EventHandling::Finished => (EventHandling::Finished, Step::Finish(Outcome::Failed)),
        }
    }
}

fn exec_quarantine_now(order: QuarantineOrder) -> (r: (EventHandling, Step))
    ensures
        r == quarantine_now(order),
{
    let (quarantine, step) = Quarantine::start(order);
    (EventHandling::Quarantining { quarantine }, step)
}

fn exec_member_tag_step(
    guild: u64,
    user: u64,
    roles: Vec<u64>,
    config: QuarantineRoles,
    check: TagCheck,
    step: Step,
) -> (r: (EventHandling, Step))
    ensures
        r == member_tag_step(guild, user, roles, config, check, step),
{
    match step {
        Step::Perform(request) => (
            EventHandling::CheckingMemberTag { guild, user, roles, config, check },
            Step::Perform(request),
        ),
        Step::Finish(Outcome::Answer(true)) =>
            exec_quarantine_now(QuarantineOrder { guild, user, roles, add_to_ban: true, config }),
        Step::Finish(Outcome::Answer(false)) => (EventHandling::Finished, Step::Finish(Outcome::Done)),
        Step::Finish(_) => (EventHandling::Finished, Step::Finish(Outcome::Failed)),
    }
}

fn exec_new_tag_step(
    guild: u64,
    roles: Vec<u64>,
    new_id: u64,
    config: QuarantineRoles,
    check: TagCheck,
    step: Step,
) -> (r: (EventHandling, Step))
    ensures
        r == new_tag_step(guild, roles, new_id, config, check, step),
{
    match step {
        Step::Perform(request) => (
            EventHandling::CheckingNewTag { guild, roles, new_id, config, check },
            Step::Perform(request),
        ),
        Step::Finish(Outcome::Answer(true)) =>
            exec_quarantine_now(QuarantineOrder { guild, user: new_id, roles, add_to_ban: true, config }),
        Step::Finish(Outcome::Answer(false)) => (EventHandling::Finished, Step::Finish(Outcome::Done)),
        Step::Finish(_) => (EventHandling::Finished, Step::Finish(Outcome::Failed)),
    }
}

fn exec_new_tag_start(guild: u64, roles: Vec<u64>, new: UserSnapshot, config: QuarantineRoles) -> (r: (EventHandling, Step))
    ensures
        r == new_tag_start(guild, roles, new, config),
{
    let new_id: u64 = new.id;
    match new.primary_guild {
        Some(p) => {
            let (check, step) = TagCheck::start(p);
            exec_new_tag_step(guild, roles, new_id, config, check, step)
        },
        None => (EventHandling::Finished, Step::Finish(Outcome::Done)),
    }
}

fn exec_old_tag_step(
    guild: u64,
    roles: Vec<u64>,
    old_id: u64,
    new: UserSnapshot,
    config: QuarantineRoles,
    check: TagCheck,
    step: Step,
) -> (r: (EventHandling, Step))
    ensures
        r == old_tag_step(guild, roles, old_id, new, config, check, step),
{
    match step {
        Step::Perform(request) => (
            EventHandling::CheckingOldTag { guild, roles, old_id, new, config, check },
            Step::Perform(request),
        ),
        Step::Finish(Outcome::Answer(true)) =>
            exec_quarantine_now(QuarantineOrder { guild, user: old_id, roles, add_to_ban: true, config }),
        Step::Finish(Outcome::Answer(false)) => exec_new_tag_start(guild, roles, new, config),
        Step::Finish(_) => (EventHandling::Finished, Step::Finish(Outcome::Failed)),
    }
}

fn exec_old_tag_start(
    guild: u64,
    roles: Vec<u64>,
    old: Option<UserSnapshot>,
    new: UserSnapshot,
    config: QuarantineRoles,
) -> (r: (EventHandling, Step))
    ensures
        r == old_tag_start(guild, roles, old, new, config),
{
    match old {
        Some(o) => {
            let old_id: u64 = o.id;
            match o.primary_guild {
                Some(p) => {
                    let (check, step) = TagCheck::start(p);
                    exec_old_tag_step(guild, roles, old_id, new, config, check, step)
                },
                None => exec_new_tag_start(guild, roles, new, config),
            }
        },
        None => exec_new_tag_start(guild, roles, new, config),
    }
}

impl EventHandling {
    /// Starts handling an event. An account change turns the main guild's id into a Discord
    /// guild id first, which panics on zero; `requires` leaves that out.
    pub fn start(event: GuildEvent, main_server: u64, config: QuarantineRoles) -> (r: (EventHandling, Step))
        requires
            event is UserUpdated ==> main_server != 0,
        ensures
            r == begin_event(event, main_server, config),
    {
        match event {
            GuildEvent::MemberAdded { guild, user, roles } => {
                let id: u64 = user.id;
                (
                    EventHandling::AwaitMemberBanned { guild, user: id, primary: user.primary_guild, roles, joined: true, config },
                    Step::Perform(Request::IsUserBanned { user: id }),
                )
            },
            GuildEvent::MemberUpdated { guild, user, roles } => {
                let id: u64 = user.id;
                (
                    EventHandling::AwaitMemberBanned { guild, user: id, primary: user.primary_guild, roles, joined: false, config },
                    Step::Perform(Request::IsUserBanned { user: id }),
                )
            },
            GuildEvent::Ready => (EventHandling::AwaitReadyLog, Step::Perform(Request::Log { message: Message::Ready })),
            GuildEvent::UserUpdated { old, new } => {
                let id: u64 = new.id;
                (
                    EventHandling::AwaitMemberRoles { guild: main_server, old, new, config },
                    Step::Perform(Request::GetMemberRoles { guild: main_server, user: id }),
                )
            },
            GuildEvent::Other => (EventHandling::Finished, Step::Finish(Outcome::Done)),
        }
    }
}

} // verus!

verus! {

/// While quarantining, the handling of an event makes exactly the quarantine's requests
/// and finishes as it does.
proof fn lemma_run_quarantining(q: Quarantine, s: Step, world: spec_fn(Request) -> Response, fuel: nat)
    ensures
        run(EventHandling::Quarantining { quarantine: q }, s, world, fuel) == run(q, s, world, fuel),
    decreases fuel,
{
    match s {
        Step::Perform(r) => if fuel > 0 {
            let q2 = q.next(world(r)).0;
            let s2 = q.next(world(r)).1;
            let e = EventHandling::Quarantining { quarantine: q };
            lemma_run_quarantining(q2, s2, world, (fuel - 1) as nat);
            match s2 {
                Step::Perform(r2) => {
                    assert(e.next(world(r)) == (EventHandling::Quarantining { quarantine: q2 }, Step::Perform(r2)));
                },
                Step::Finish(o) => {
                    assert(e.next(world(r)) == (EventHandling::Finished, Step::Finish(o)));
                    assert(run(EventHandling::Finished, Step::Finish(o), world, (fuel - 1) as nat) == run(q2, s2, world, (fuel - 1) as nat));
                },
            }
        },
        Step::Finish(_) => {},
    }
}

/// Quarantining from its start, seen from the event: the quarantine's requests, then success.
proof fn lemma_quarantine_now(order: QuarantineOrder, world: spec_fn(Request) -> Response)
    requires
        serves(world),
    ensures
        forall|fuel: nat| fuel >= 7 ==> #[trigger] run(
            EventHandling::Quarantining { quarantine: Quarantine { order, phase: QuarantinePhase::AwaitExempt } },
            Step::Perform(Request::IsUserExempted { user: order.user }),
            world,
            fuel,
        ) == (quarantine_requests(order, world), Some(Outcome::Done)),
{
    lemma_quarantine_run(order, world);
    assert forall|fuel: nat| fuel >= 7 implies #[trigger] run(
        EventHandling::Quarantining { quarantine: Quarantine { order, phase: QuarantinePhase::AwaitExempt } },
        Step::Perform(Request::IsUserExempted { user: order.user }),
        world,
        fuel,
    ) == (quarantine_requests(order, world), Some(Outcome::Done)) by {
        lemma_run_quarantining(begin_quarantine(order).0, begin_quarantine(order).1, world, fuel);
    }
}

/// The requests of the tag check of `p`, then of the quarantine (with a ban) of `user`
/// when the tag is banned.
pub open spec fn tag_then_quarantine(
    p: PrimaryGuild,
    guild: u64,
    user: u64,
    roles: Vec<u64>,
    config: QuarantineRoles,
    world: spec_fn(Request) -> Response,
) -> Seq<Request> {
    tag_check_requests(p, world) + if tag_banned(p, world) {
        quarantine_requests(order_of(guild, user, roles, true, config), world)
    } else {
        Seq::empty()
    }
}

proof fn lemma_tag_answers(p: PrimaryGuild, world: spec_fn(Request) -> Response)
    requires
        serves(world),
    ensures
        p.tag matches Some(t) ==> world(Request::IsTagBannedByTag { tag: t }) is Flag,
        p.identity_guild_id matches Some(g) ==> world(Request::IsTagBannedByGuildId { guild: g }) is Flag,
{
    match p.tag {
        Some(t) => {
            assert(proper_response(Request::IsTagBannedByTag { tag: t }, world(Request::IsTagBannedByTag { tag: t })));
        },
        None => {},
    }
    match p.identity_guild_id {
        Some(g) => {
            assert(proper_response(
                Request::IsTagBannedByGuildId { guild: g },
                world(Request::IsTagBannedByGuildId { guild: g }),
            ));
        },
        None => {},
    }
}

proof fn lemma_member_tag(
    guild: u64,
    user: u64,
    roles: Vec<u64>,
    config: QuarantineRoles,
    p: PrimaryGuild,
    world: spec_fn(Request) -> Response,
    fuel: nat,
)
    requires
        serves(world),
        fuel >= 9,
    ensures
        run(
            member_tag_step(guild, user, roles, config, begin_tag_check(p).0, begin_tag_check(p).1).0,
            member_tag_step(guild, user, roles, config, begin_tag_check(p).0, begin_tag_check(p).1).1,
            world,
            fuel,
        ) == (tag_then_quarantine(p, guild, user, roles, config, world), Some(Outcome::Done)),
{
    reveal_with_fuel(run, 3);
    lemma_tag_answers(p, world);
    let order = order_of(guild, user, roles, true, config);
    lemma_quarantine_now(order, world);
    let q = quarantine_now(order);
    assert(run(q.0, q.1, world, (fuel - 1) as nat) == run(q.0, q.1, world, (fuel - 2) as nat));
    assert(run(
        member_tag_step(guild, user, roles, config, begin_tag_check(p).0, begin_tag_check(p).1).0,
        member_tag_step(guild, user, roles, config, begin_tag_check(p).0, begin_tag_check(p).1).1,
        world,
        fuel,
    ).0 =~= tag_then_quarantine(p, guild, user, roles, config, world));
}

/// The quarantine a member event leads to, if any: of a banned user (which keeps the ban
/// only for a user who joined), else of a user displaying a banned tag, with a ban.
pub open spec fn member_event_order(
    guild: u64,
    user: UserSnapshot,
    roles: Vec<u64>,
    joined: bool,
    config: QuarantineRoles,
    world: spec_fn(Request) -> Response,
) -> Option<QuarantineOrder> {
    if world(Request::IsUserBanned { user: user.id }) == Response::Flag(true) {
        Some(order_of(guild, user.id, roles, joined, config))
    } else {
        match user.primary_guild {
            Some(p) => if tag_banned(p, world) { Some(order_of(guild, user.id, roles, true, config)) } else { None },
            None => None,
        }
    }
}

/// Whether the quarantine an event leads to, if any, panics.
pub open spec fn order_panics(order: Option<QuarantineOrder>, world: spec_fn(Request) -> Response) -> bool {
    order matches Some(o) && quarantine_panics(o, world)
}

/// The requests of a member event: whether the user is banned; if so, a quarantine (which
/// keeps the ban only for a user who joined); if not, the check of the tag the user
/// displays and, on a match, a quarantine with a ban.
pub open spec fn member_event_requests(
    guild: u64,
    user: UserSnapshot,
    roles: Vec<u64>,
    joined: bool,
    config: QuarantineRoles,
    world: spec_fn(Request) -> Response,
) -> Seq<Request> {
    seq![Request::IsUserBanned { user: user.id }] + if world(Request::IsUserBanned { user: user.id })
        == Response::Flag(true) {
        quarantine_requests(order_of(guild, user.id, roles, joined, config), world)
    } else {
        match user.primary_guild {
            Some(p) => tag_then_quarantine(p, guild, user.id, roles, config, world),
            None => Seq::empty(),
        }
    }
}

/// A user who joins a guild while banned is quarantined and banned; a user who joins
/// displaying a banned tag is quarantined and banned; anyone else is left alone.
pub proof fn law_member_added(
    guild: u64,
    user: UserSnapshot,
    roles: Vec<u64>,
    main_server: u64,
    config: QuarantineRoles,
    world: spec_fn(Request) -> Response,
    fuel: nat,
)
    requires
        serves(world),
        !order_panics(member_event_order(guild, user, roles, true, config, world), world),
        fuel >= 10,
    ensures
        ({
            let start = begin_event(GuildEvent::MemberAdded { guild, user, roles }, main_server, config);
            run(start.0, start.1, world, fuel)
                == (member_event_requests(guild, user, roles, true, config, world), Some(Outcome::Done))
        }),
{
    lemma_member_event(guild, user, roles, true, config, world, fuel);
}

/// When a member changes, a banned user is quarantined again (the ban is already stored),
/// a user displaying a banned tag is quarantined and banned, and anyone else is left alone.
pub proof fn law_member_updated(
    guild: u64,
    user: UserSnapshot,
    roles: Vec<u64>,
    main_server: u64,
    config: QuarantineRoles,
    world: spec_fn(Request) -> Response,
    fuel: nat,
)
    requires
        serves(world),
        !order_panics(member_event_order(guild, user, roles, false, config, world), world),
        fuel >= 10,
    ensures
        ({
            let start = begin_event(GuildEvent::MemberUpdated { guild, user, roles }, main_server, config);
            run(start.0, start.1, world, fuel)
                == (member_event_requests(guild, user, roles, false, config, world), Some(Outcome::Done))
        }),
{
    lemma_member_event(guild, user, roles, false, config, world, fuel);
}

proof fn lemma_member_event(
    guild: u64,
    user: UserSnapshot,
    roles: Vec<u64>,
    joined: bool,
    config: QuarantineRoles,
    world: spec_fn(Request) -> Response,
    fuel: nat,
)
    requires
        serves(world),
        fuel >= 10,
    ensures
        ({
            let start = (
                EventHandling::AwaitMemberBanned {
                    guild,
                    user: user.id,
                    primary: user.primary_guild,
                    roles,
                    joined,
                    config,
                },
                Step::Perform(Request::IsUserBanned { user: user.id }),
            );
            run(start.0, start.1, world, fuel)
                == (member_event_requests(guild, user, roles, joined, config, world), Some(Outcome::Done))
        }),
{
    reveal_with_fuel(run, 2);
    let banned = Request::IsUserBanned { user: user.id };
    assert(proper_response(banned, world(banned)));
    let order = order_of(guild, user.id, roles, joined, config);
    lemma_quarantine_now(order, world);
    let q = quarantine_now(order);
    assert(run(q.0, q.1, world, (fuel - 1) as nat) == (quarantine_requests(order, world), Some(Outcome::Done)));
    match user.primary_guild {
        Some(p) => {
            lemma_member_tag(guild, user.id, roles, config, p, world, (fuel - 1) as nat);
        },
        None => {},
    }
    let start = (
        EventHandling::AwaitMemberBanned { guild, user: user.id, primary: user.primary_guild, roles, joined, config },
        Step::Perform(Request::IsUserBanned { user: user.id }),
    );
    assert(run(start.0, start.1, world, fuel).0 =~= member_event_requests(guild, user, roles, joined, config, world));
}

/// When the bot is ready, it logs so and nothing else.
pub proof fn law_ready(main_server: u64, config: QuarantineRoles, world: spec_fn(Request) -> Response, fuel: nat)
    requires
        fuel >= 1,
    ensures
        ({
            let start = begin_event(GuildEvent::Ready, main_server, config);
            run(start.0, start.1, world, fuel) == (seq![Request::Log { message: Message::Ready }], Some(Outcome::Done))
        }),
{
    reveal_with_fuel(run, 2);
    let start = begin_event(GuildEvent::Ready, main_server, config);
    assert(run(start.0, start.1, world, fuel).0 =~= seq![Request::Log { message: Message::Ready }]);
}

/// Other events are ignored: no request, success.
pub proof fn law_other_event(main_server: u64, config: QuarantineRoles, world: spec_fn(Request) -> Response, fuel: nat)
    ensures
        ({
            let start = begin_event(GuildEvent::Other, main_server, config);
            run(start.0, start.1, world, fuel) == (Seq::<Request>::empty(), Some(Outcome::Done))
        }),
{
}

} // verus!

verus! {

/// The roles the outside world reports for the user in the main guild.
pub open spec fn member_roles(main_server: u64, new: UserSnapshot, world: spec_fn(Request) -> Response) -> Vec<u64> {
    world(Request::GetMemberRoles { guild: main_server, user: new.id })->Roles_0
}

/// The requests of checking the tag an account displays after a change.
pub open spec fn new_tag_requests(
    guild: u64,
    roles: Vec<u64>,
    new: UserSnapshot,
    config: QuarantineRoles,
    world: spec_fn(Request) -> Response,
) -> Seq<Request> {
    match new.primary_guild {
        Some(p) => tag_then_quarantine(p, guild, new.id, roles, config, world),
        None => Seq::empty(),
    }
}

/// The requests of checking the tag an account displayed before a change and, if that does
/// not lead to a quarantine, the tag it displays after.
pub open spec fn old_tag_requests(
    guild: u64,
    roles: Vec<u64>,
    old: Option<UserSnapshot>,
    new: UserSnapshot,
    config: QuarantineRoles,
    world: spec_fn(Request) -> Response,
) -> Seq<Request> {
    match old {
        Some(o) => match o.primary_guild {
            Some(p) => tag_check_requests(p, world) + if tag_banned(p, world) {
                quarantine_requests(order_of(guild, o.id, roles, true, config), world)
            } else {
                new_tag_requests(guild, roles, new, config, world)
            },
            None => new_tag_requests(guild, roles, new, config, world),
        },
        None => new_tag_requests(guild, roles, new, config, world),
    }
}

/// The quarantine an account change leads to, if any: of a banned user (the ban is already
/// stored), else of the old account's id when the tag it displayed is banned, else of the
/// user when the tag displayed after the change is banned; the latter two with a ban.
pub open spec fn user_update_order(
    main_server: u64,
    old: Option<UserSnapshot>,
    new: UserSnapshot,
    config: QuarantineRoles,
    world: spec_fn(Request) -> Response,
) -> Option<QuarantineOrder> {
    let roles = member_roles(main_server, new, world);
    let by_new = match new.primary_guild {
        Some(p) => if tag_banned(p, world) { Some(order_of(main_server, new.id, roles, true, config)) } else { None },
        None => None,
    };
    if world(Request::IsUserBanned { user: new.id }) == Response::Flag(true) {
        Some(order_of(main_server, new.id, roles, false, config))
    } else {
        match old {
            Some(o) => match o.primary_guild {
                Some(p) => if tag_banned(p, world) { Some(order_of(main_server, o.id, roles, true, config)) } else { by_new },
                None => by_new,
            },
            None => by_new,
        }
    }
}

/// The requests of an account change: the user's roles in the main guild, whether the user
/// is banned; if so, a quarantine (the ban is already stored); if not, the tag checks.
pub open spec fn user_update_requests(
    main_server: u64,
    old: Option<UserSnapshot>,
    new: UserSnapshot,
    config: QuarantineRoles,
    world: spec_fn(Request) -> Response,
) -> Seq<Request> {
    let roles = member_roles(main_server, new, world);
    seq![
        Request::GetMemberRoles { guild: main_server, user: new.id },
        Request::IsUserBanned { user: new.id },
    ] + if world(Request::IsUserBanned { user: new.id }) == Response::Flag(true) {
        quarantine_requests(order_of(main_server, new.id, roles, false, config), world)
    } else {
        old_tag_requests(main_server, roles, old, new, config, world)
    }
}

proof fn lemma_new_tag_start(
    guild: u64,
    roles: Vec<u64>,
    new: UserSnapshot,
    config: QuarantineRoles,
    world: spec_fn(Request) -> Response,
)
    requires
        serves(world),
    ensures
        forall|fuel: nat| fuel >= 9 ==> #[trigger] run(
            new_tag_start(guild, roles, new, config).0,
            new_tag_start(guild, roles, new, config).1,
            world,
            fuel,
        ) == (new_tag_requests(guild, roles, new, config, world), Some(Outcome::Done)),
{
    lemma_quarantine_now(order_of(guild, new.id, roles, true, config), world);
    let q = quarantine_now(order_of(guild, new.id, roles, true, config));
    assert forall|fuel: nat| fuel >= 9 implies #[trigger] run(
        new_tag_start(guild, roles, new, config).0,
        new_tag_start(guild, roles, new, config).1,
        world,
        fuel,
    ) == (new_tag_requests(guild, roles, new, config, world), Some(Outcome::Done)) by {
        reveal_with_fuel(run, 3);
        assert(run(q.0, q.1, world, (fuel - 1) as nat) == run(q.0, q.1, world, (fuel - 2) as nat));
        match new.primary_guild {
            Some(p) => {
                lemma_tag_answers(p, world);
                assert(run(new_tag_start(guild, roles, new, config).0, new_tag_start(guild, roles, new, config).1, world, fuel).0
                    =~= new_tag_requests(guild, roles, new, config, world));
            },
            None => {},
        }
    }
}

proof fn lemma_old_tag_start(
    guild: u64,
    roles: Vec<u64>,
    old: Option<UserSnapshot>,
    new: UserSnapshot,
    config: QuarantineRoles,
    world: spec_fn(Request) -> Response,
    fuel: nat,
)
    requires
        serves(world),
        fuel >= 11,
    ensures
        run(old_tag_start(guild, roles, old, new, config).0, old_tag_start(guild, roles, old, new, config).1, world, fuel)
            == (old_tag_requests(guild, roles, old, new, config, world), Some(Outcome::Done)),
{
    lemma_new_tag_start(guild, roles, new, config, world);
    match old {
        Some(o) => match o.primary_guild {
            Some(p) => {
                reveal_with_fuel(run, 3);
                lemma_tag_answers(p, world);
                let order = order_of(guild, o.id, roles, true, config);
                lemma_quarantine_now(order, world);
                let q = quarantine_now(order);
                let n = new_tag_start(guild, roles, new, config);
                assert(run(q.0, q.1, world, (fuel - 1) as nat) == run(q.0, q.1, world, (fuel - 2) as nat));
                assert(run(n.0, n.1, world, (fuel - 1) as nat) == run(n.0, n.1, world, (fuel - 2) as nat));
                assert(run(old_tag_start(guild, roles, old, new, config).0, old_tag_start(guild, roles, old, new, config).1, world, fuel).0
                    =~= old_tag_requests(guild, roles, old, new, config, world));
            },
            None => {},
        },
        None => {},
    }
}

/// When an account changes, the user's roles in the main guild are fetched; a banned user
/// is quarantined there again; otherwise, if the tag the account displayed before the change
/// is banned, the user (under the old account's id) is quarantined and banned; otherwise, if
/// the tag it displays after the change is banned, the user is quarantined and banned.
pub proof fn law_user_updated(
    old: Option<UserSnapshot>,
    new: UserSnapshot,
    main_server: u64,
    config: QuarantineRoles,
    world: spec_fn(Request) -> Response,
    fuel: nat,
)
    requires
        serves(world),
        main_server != 0,
        !order_panics(user_update_order(main_server, old, new, config, world), world),
        fuel >= 13,
    ensures
        ({
            let start = begin_event(GuildEvent::UserUpdated { old, new }, main_server, config);
            run(start.0, start.1, world, fuel)
                == (user_update_requests(main_server, old, new, config, world), Some(Outcome::Done))
        }),
{
    reveal_with_fuel(run, 3);
    let get_roles = Request::GetMemberRoles { guild: main_server, user: new.id };
    let banned = Request::IsUserBanned { user: new.id };
    assert(proper_response(get_roles, world(get_roles)));
    assert(proper_response(banned, world(banned)));
    let roles = member_roles(main_server, new, world);
    let order = order_of(main_server, new.id, roles, false, config);
    lemma_quarantine_now(order, world);
    let q = quarantine_now(order);
    assert(run(q.0, q.1, world, (fuel - 2) as nat) == (quarantine_requests(order, world), Some(Outcome::Done)));
    lemma_old_tag_start(main_server, roles, old, new, config, world, (fuel - 2) as nat);
    let start = begin_event(GuildEvent::UserUpdated { old, new }, main_server, config);
    assert(run(start.0, start.1, world, fuel).0 =~= user_update_requests(main_server, old, new, config, world));
}

/// A failed request ends the handling of an event at once in failure; only the logs, which
/// cannot fail, are exempt from this.
pub proof fn law_event_failure(e: EventHandling)
    requires
        !(e is AwaitReadyLog),
        e matches EventHandling::Quarantining { quarantine }
            ==> !(quarantine.phase is AwaitExemptLog) && !(quarantine.phase is AwaitQuarantineLog),
    ensures
        e.next(Response::Failed).1 == Step::Finish(Outcome::Failed),
{
    match e {
        EventHandling::Quarantining { quarantine } => law_quarantine_failure(quarantine),
        _ => {},
    }
}

} // verus!
