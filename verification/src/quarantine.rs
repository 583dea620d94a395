//! Quarantining a user: the configured role is given, the configured role is taken away,
//! the action is recorded and logged, and the user may be banned; exempted users are
//! left alone.
use vstd::prelude::*;
use crate::messages::Message;
use crate::model::QuarantineRoles;
use crate::protocol::{Machine, Outcome, Request, Response, Step, run, run_accepted, serves, proper_response};

verus! {

/// What a quarantine is about: the user in a guild, the roles the user holds there,
/// whether the user is also to be banned, and the configured roles.
pub struct QuarantineOrder {
    pub guild: u64,
    pub user: u64,
    pub roles: Vec<u64>,
    pub add_to_ban: bool,
    pub config: QuarantineRoles,
}

/// Where a quarantine stands.
pub enum QuarantinePhase {
    /// Waiting to learn whether the user is exempted.
    AwaitExempt,
    /// Waiting for the log that the user is exempted.
    AwaitExemptLog,
    /// Waiting for the configured role to be given.
    AwaitAddRole,
    /// Waiting for the configured role to be taken away.
    AwaitRemoveRole,
    /// Waiting for the action to be recorded.
    AwaitInsertAction,
    /// Waiting for the log of the quarantine.
    AwaitQuarantineLog,
    /// Waiting to learn whether the user is already banned.
    AwaitBannedCheck,
    /// Waiting for the ban to be stored.
    AwaitBan,
    /// Finished: nothing is pending.
    Finished,
}

/// A quarantine in progress.
pub struct Quarantine {
    pub order: QuarantineOrder,
    pub phase: QuarantinePhase,
}

/// Whether the configured role to give is one the user lacks.
pub open spec fn role_to_add(order: QuarantineOrder) -> bool {
    order.config.add_role matches Some(r) && !order.roles@.contains(r)
}

/// Whether the configured role to take away is one the user holds.
pub open spec fn role_to_remove(order: QuarantineOrder) -> bool {
    order.config.prevent_role matches Some(r) && order.roles@.contains(r)
}

/// Whether the role ids that a quarantine of a user who is not exempted turns into Discord
/// role ids before its first role request are nonzero (a zero id panics). The role to
/// take away is turned into an id only after the role to give was given, if it was.
pub open spec fn roles_usable(order: QuarantineOrder) -> bool {
    &&& order.config.add_role != Some(0u64)
    &&& (role_to_add(order) || order.config.prevent_role != Some(0u64))
}

fn exec_roles_usable(order: &QuarantineOrder) -> (b: bool)
    ensures
        b == roles_usable(*order),
{
    let to_add = match order.config.add_role {
        Some(r) => !holds_role(&order.roles, r),
        None => false,
    };
    order.config.add_role != Some(0u64) && (to_add || order.config.prevent_role != Some(0u64))
}

/// The step that ends a quarantine in failure.
pub open spec fn quarantine_failed(order: QuarantineOrder) -> (Quarantine, Step) {
    (Quarantine { order, phase: QuarantinePhase::Finished }, Step::Finish(Outcome::Failed))
}

/// The ban step: ask whether the user is banned, when the order says to ban.
pub open spec fn ban_step(order: QuarantineOrder) -> (Quarantine, Step) {
    if order.add_to_ban {
        (
            Quarantine { order, phase: QuarantinePhase::AwaitBannedCheck },
            Step::Perform(Request::IsUserBanned { user: order.user }),
        )
    } else {
        (Quarantine { order, phase: QuarantinePhase::Finished }, Step::Finish(Outcome::Done))
    }
}

/// After the role changes: record the action if a role changed, else go on to the ban step.
pub open spec fn record_step(order: QuarantineOrder, action_done: bool) -> (Quarantine, Step) {
    if action_done {
        (
            Quarantine { order, phase: QuarantinePhase::AwaitInsertAction },
            Step::Perform(Request::InsertAction { action: Message::QuarantineActionName, user: order.user }),
        )
    } else {
        ban_step(order)
    }
}

/// Take away the configured role if the user holds it.
pub open spec fn remove_step(order: QuarantineOrder, action_done: bool) -> (Quarantine, Step) {
    match order.config.prevent_role {
        Some(r) => if order.roles@.contains(r) {
            (
                Quarantine { order, phase: QuarantinePhase::AwaitRemoveRole },
                Step::Perform(Request::RemoveMemberRole {
                    guild: order.guild,
                    user: order.user,
                    role: r,
                    reason: Message::RemoveRoleReason,
                }),
            )
        } else {
            record_step(order, action_done)
        },
        None => record_step(order, action_done),
    }
}

/// Give the configured role if the user lacks it.
pub open spec fn add_step(order: QuarantineOrder) -> (Quarantine, Step) {
    match order.config.add_role {
        Some(r) => if !order.roles@.contains(r) {
            (
                Quarantine { order, phase: QuarantinePhase::AwaitAddRole },
                Step::Perform(Request::AddMemberRole {
                    guild: order.guild,
                    user: order.user,
                    role: r,
                    reason: Message::AddRoleReason,
                }),
            )
        } else {
            remove_step(order, false)
        },
        None => remove_step(order, false),
    }
}

/// A quarantine from its start: first ask whether the user is exempted.
pub open spec fn begin_quarantine(order: QuarantineOrder) -> (Quarantine, Step) {
    (
        Quarantine { order, phase: QuarantinePhase::AwaitExempt },
        Step::Perform(Request::IsUserExempted { user: order.user }),
    )
}

/// Whether the user holds the role.
pub fn holds_role(roles: &Vec<u64>, role: u64) -> (b: bool)
    ensures
        b == roles@.contains(role),
{
    let mut i: usize = 0;
    while i < roles.len()
        invariant
            i <= roles@.len(),
            forall|j: int| 0 <= j < i ==> roles@[j] != role,
        decreases roles@.len() - i,
    {
        if roles[i] == role {
            assert(roles@[i as int] == role);
            return true;
        }
        i = i + 1;
    }
    false
}

fn exec_ban_step(order: QuarantineOrder) -> (r: (Quarantine, Step))
    ensures
        r == ban_step(order),
{
    if order.add_to_ban {
        let user: u64 = order.user;
        (Quarantine { order, phase: QuarantinePhase::AwaitBannedCheck }, Step::Perform(Request::IsUserBanned { user }))
    } else {
        (Quarantine { order, phase: QuarantinePhase::Finished }, Step::Finish(Outcome::Done))
    }
}

fn exec_record_step(order: QuarantineOrder, action_done: bool) -> (r: (Quarantine, Step))
    ensures
        r == record_step(order, action_done),
{
    if action_done {
        let user: u64 = order.user;
        (
            Quarantine { order, phase: QuarantinePhase::AwaitInsertAction },
            Step::Perform(Request::InsertAction { action: Message::QuarantineActionName, user }),
        )
    } else {
        exec_ban_step(order)
    }
}

fn exec_remove_step(order: QuarantineOrder, action_done: bool) -> (r: (Quarantine, Step))
    ensures
        r == remove_step(order, action_done),
{
    match order.config.prevent_role {
        Some(role) => if holds_role(&order.roles, role) {
            let guild: u64 = order.guild;
            let user: u64 = order.user;
            (
                Quarantine { order, phase: QuarantinePhase::AwaitRemoveRole },
                Step::Perform(Request::RemoveMemberRole { guild, user, role, reason: Message::RemoveRoleReason }),
            )
        } else {
            exec_record_step(order, action_done)
        },
        None => exec_record_step(order, action_done),
    }
}

fn exec_add_step(order: QuarantineOrder) -> (r: (Quarantine, Step))
    ensures
        r == add_step(order),
{
    match order.config.add_role {
        Some(role) => if !holds_role(&order.roles, role) {
            let guild: u64 = order.guild;
            let user: u64 = order.user;
            (
                Quarantine { order, phase: QuarantinePhase::AwaitAddRole },
                Step::Perform(Request::AddMemberRole { guild, user, role, reason: Message::AddRoleReason }),
            )
        } else {
            exec_remove_step(order, false)
        },
        None => exec_remove_step(order, false),
    }
}

impl Quarantine {
    /// Starts a quarantine.
    pub fn start(order: QuarantineOrder) -> (r: (Quarantine, Step))
        ensures
            r == begin_quarantine(order),
    {
        let user: u64 = order.user;
        (Quarantine { order, phase: QuarantinePhase::AwaitExempt }, Step::Perform(Request::IsUserExempted { user }))
    }
}

impl Machine for Quarantine {
    open spec fn next(self, response: Response) -> (Quarantine, Step) {
        let order = self.order;
        match self.phase {
            QuarantinePhase::AwaitExempt => match response {
                Response::Flag(true) => (
                    Quarantine { order, phase: QuarantinePhase::AwaitExemptLog },
                    Step::Perform(Request::Log { message: Message::UserExemptedLog { user: order.user } }),
                ),
                Response::Flag(false) => add_step(order),
                _ => quarantine_failed(order),
            },
            QuarantinePhase::AwaitExemptLog =>
                (Quarantine { order, phase: QuarantinePhase::Finished }, Step::Finish(Outcome::Done)),
            QuarantinePhase::AwaitAddRole => match response {
                Response::Done => remove_step(order, true),
                _ => quarantine_failed(order),
            },
            QuarantinePhase::AwaitRemoveRole => match response {
                Response::Done => record_step(order, true),
                _ => quarantine_failed(order),
            },
            QuarantinePhase::AwaitInsertAction => match response {
                Response::Done => (
                    Quarantine { order, phase: QuarantinePhase::AwaitQuarantineLog },
                    Step::Perform(Request::Log { message: Message::QuarantineLog { user: order.user } }),
                ),
                _ => quarantine_failed(order),
            },
            QuarantinePhase::AwaitQuarantineLog => ban_step(order),
            QuarantinePhase::AwaitBannedCheck => match response {
                Response::Flag(true) =>
                    (Quarantine { order, phase: QuarantinePhase::Finished }, Step::Finish(Outcome::Done)),
                Response::Flag(false) => (
                    Quarantine { order, phase: QuarantinePhase::AwaitBan },
                    Step::Perform(Request::BanUser { user: order.user }),
                ),
                _ => quarantine_failed(order),
            },
            QuarantinePhase::AwaitBan => match response {
                Response::Done =>
                    (Quarantine { order, phase: QuarantinePhase::Finished }, Step::Finish(Outcome::Done)),
                _ => quarantine_failed(order),
            },
            QuarantinePhase::Finished => quarantine_failed(order),
        }
    }

    open spec fn accepts(self, response: Response) -> bool {
        match self.phase {
            QuarantinePhase::AwaitExempt => response matches Response::Flag(false) ==> roles_usable(self.order),
            QuarantinePhase::AwaitAddRole => response is Done ==> self.order.config.prevent_role != Some(0u64),
            _ => true,
        }
    }

    fn can_accept(&self, response: &Response) -> (b: bool) {
        match self.phase {
            QuarantinePhase::AwaitExempt => match response {
                Response::Flag(false) => exec_roles_usable(&self.order),
                _ => true,
            },
            QuarantinePhase::AwaitAddRole => match response {
                Response::Done => self.order.config.prevent_role != Some(0u64),
                _ => true,
            },
            _ => true,
        }
    }

    fn resume(self, response: Response) -> (r: (Quarantine, Step)) {
        let order = self.order;
        let user: u64 = order.user;
        match self.phase {
            QuarantinePhase::AwaitExempt => match response {
                Response::Flag(true) => (
                    Quarantine { order, phase: QuarantinePhase::AwaitExemptLog },
                    Step::Perform(Request::Log { message: Message::UserExemptedLog { user } }),
                ),
                Response::Flag(false) => exec_add_step(order),
                _ => (Quarantine { order, phase: QuarantinePhase::Finished }, Step::Finish(Outcome::Failed)),
            },
            QuarantinePhase::AwaitExemptLog =>
                (Quarantine { order, phase: QuarantinePhase::Finished }, Step::Finish(Outcome::Done)),
            QuarantinePhase::AwaitAddRole => match response {
                Response::Done => exec_remove_step(order, true),
                _ => (Quarantine { order, phase: QuarantinePhase::Finished }, Step::Finish(Outcome::Failed)),
            },
            QuarantinePhase::AwaitRemoveRole => match response {
                Response::Done => exec_record_step(order, true),
                _ => (Quarantine { order, phase: QuarantinePhase::Finished }, Step::Finish(Outcome::Failed)),
            },
            QuarantinePhase::AwaitInsertAction => match response {
                Response::Done => (
                    Quarantine { order, phase: QuarantinePhase::AwaitQuarantineLog },
                    Step::Perform(Request::Log { message: Message::QuarantineLog { user } }),
                ),
                _ => (Quarantine { order, phase: QuarantinePhase::Finished }, Step::Finish(Outcome::Failed)),
            },
            QuarantinePhase::AwaitQuarantineLog => exec_ban_step(order),
            QuarantinePhase::AwaitBannedCheck => match response {
                Response::Flag(true) =>
                    (Quarantine { order, phase: QuarantinePhase::Finished }, Step::Finish(Outcome::Done)),
                Response::Flag(false) => (
                    Quarantine { order, phase: QuarantinePhase::AwaitBan },
                    Step::Perform(Request::BanUser { user }),
                ),
                _ => (Quarantine { order, phase: QuarantinePhase::Finished }, Step::Finish(Outcome::Failed)),
            },
            QuarantinePhase::AwaitBan => match response {
                Response::Done =>
                    (Quarantine { order, phase: QuarantinePhase::Finished }, Step::Finish(Outcome::Done)),
                _ => (Quarantine { order, phase: QuarantinePhase::Finished }, Step::Finish(Outcome::Failed)),
            },
            QuarantinePhase::Finished =>
                (Quarantine { order, phase: QuarantinePhase::Finished }, Step::Finish(Outcome::Failed)),
        }
    }
}

} // verus!

verus! {

/// The role request of a quarantine that gives the configured role, if the user lacks it.
pub open spec fn add_role_requests(order: QuarantineOrder) -> Seq<Request> {
    match order.config.add_role {
        Some(r) => if !order.roles@.contains(r) {
            seq![Request::AddMemberRole { guild: order.guild, user: order.user, role: r, reason: Message::AddRoleReason }]
        } else {
            Seq::empty()
        },
        None => Seq::empty(),
    }
}

/// The role request of a quarantine that takes away the configured role, if the user holds it.
pub open spec fn remove_role_requests(order: QuarantineOrder) -> Seq<Request> {
    match order.config.prevent_role {
        Some(r) => if order.roles@.contains(r) {
            seq![Request::RemoveMemberRole { guild: order.guild, user: order.user, role: r, reason: Message::RemoveRoleReason }]
        } else {
            Seq::empty()
        },
        None => Seq::empty(),
    }
}

/// The record and the log of a quarantine, made only when a role changed.
pub open spec fn record_requests(order: QuarantineOrder) -> Seq<Request> {
    record_requests_if(order, role_to_add(order) || role_to_remove(order))
}

/// The record and the log of a quarantine, made when `action_done`.
pub open spec fn record_requests_if(order: QuarantineOrder, action_done: bool) -> Seq<Request> {
    if action_done {
        seq![
            Request::InsertAction { action: Message::QuarantineActionName, user: order.user },
            Request::Log { message: Message::QuarantineLog { user: order.user } },
        ]
    } else {
        Seq::empty()
    }
}

/// The ban of a quarantine: asked for when the order says to ban, stored when the user is
/// not banned yet.
pub open spec fn ban_requests(order: QuarantineOrder, world: spec_fn(Request) -> Response) -> Seq<Request> {
    if order.add_to_ban {
        seq![Request::IsUserBanned { user: order.user }] + if world(Request::IsUserBanned { user: order.user })
            == Response::Flag(false) {
            seq![Request::BanUser { user: order.user }]
        } else {
            Seq::empty()
        }
    } else {
        Seq::empty()
    }
}

/// Whether the outside world holds an exemption of the user.
pub open spec fn exempted(user: u64, world: spec_fn(Request) -> Response) -> bool {
    world(Request::IsUserExempted { user }) == Response::Flag(true)
}

/// All requests of a quarantine, in order.
pub open spec fn quarantine_requests(order: QuarantineOrder, world: spec_fn(Request) -> Response) -> Seq<Request> {
    if exempted(order.user, world) {
        seq![
            Request::IsUserExempted { user: order.user },
            Request::Log { message: Message::UserExemptedLog { user: order.user } },
        ]
    } else {
        seq![Request::IsUserExempted { user: order.user }] + add_role_requests(order)
            + remove_role_requests(order) + record_requests(order) + ban_requests(order, world)
    }
}

proof fn lemma_ban_step(order: QuarantineOrder, world: spec_fn(Request) -> Response, fuel: nat)
    requires
        serves(world),
        fuel >= 2,
    ensures
        run(ban_step(order).0, ban_step(order).1, world, fuel) == (ban_requests(order, world), Some(Outcome::Done)),
{
    reveal_with_fuel(run, 3);
    let user: u64 = order.user;
    assert(proper_response(Request::IsUserBanned { user }, world(Request::IsUserBanned { user })));
    assert(proper_response(Request::BanUser { user }, world(Request::BanUser { user })));
    assert(run(ban_step(order).0, ban_step(order).1, world, fuel).0 =~= ban_requests(order, world));
}

proof fn lemma_record_step(order: QuarantineOrder, action_done: bool, world: spec_fn(Request) -> Response, fuel: nat)
    requires
        serves(world),
        fuel >= 4,
    ensures
        run(record_step(order, action_done).0, record_step(order, action_done).1, world, fuel)
            == (record_requests_if(order, action_done) + ban_requests(order, world), Some(Outcome::Done)),
{
    let user: u64 = order.user;
    if action_done {
        reveal_with_fuel(run, 3);
        let insert = Request::InsertAction { action: Message::QuarantineActionName, user };
        assert(proper_response(insert, world(insert)));
        lemma_ban_step(order, world, (fuel - 2) as nat);
        assert(run(record_step(order, action_done).0, record_step(order, action_done).1, world, fuel).0
            =~= record_requests_if(order, action_done) + ban_requests(order, world));
    } else {
        lemma_ban_step(order, world, fuel);
        assert(record_requests_if(order, action_done) + ban_requests(order, world) =~= ban_requests(order, world));
    }
}

proof fn lemma_remove_step(order: QuarantineOrder, action_done: bool, world: spec_fn(Request) -> Response, fuel: nat)
    requires
        serves(world),
        fuel >= 5,
    ensures
        run(remove_step(order, action_done).0, remove_step(order, action_done).1, world, fuel) == (
            remove_role_requests(order) + record_requests_if(order, action_done || role_to_remove(order))
                + ban_requests(order, world),
            Some(Outcome::Done),
        ),
{
    match order.config.prevent_role {
        Some(r) => if order.roles@.contains(r) {
            let req = Request::RemoveMemberRole { guild: order.guild, user: order.user, role: r, reason: Message::RemoveRoleReason };
            assert(proper_response(req, world(req)));
            lemma_record_step(order, true, world, (fuel - 1) as nat);
            assert(run(remove_step(order, action_done).0, remove_step(order, action_done).1, world, fuel).0
                =~= remove_role_requests(order) + record_requests_if(order, action_done || role_to_remove(order))
                + ban_requests(order, world));
        } else {
            lemma_record_step(order, action_done, world, fuel);
            assert(remove_role_requests(order) =~= Seq::<Request>::empty());
        },
        None => {
            lemma_record_step(order, action_done, world, fuel);
            assert(remove_role_requests(order) =~= Seq::<Request>::empty());
        },
    }
}

proof fn lemma_add_step(order: QuarantineOrder, world: spec_fn(Request) -> Response, fuel: nat)
    requires
        serves(world),
        fuel >= 6,
    ensures
        run(add_step(order).0, add_step(order).1, world, fuel) == (
            add_role_requests(order) + remove_role_requests(order) + record_requests(order)
                + ban_requests(order, world),
            Some(Outcome::Done),
        ),
{
    match order.config.add_role {
        Some(r) => if !order.roles@.contains(r) {
            let req = Request::AddMemberRole { guild: order.guild, user: order.user, role: r, reason: Message::AddRoleReason };
            assert(proper_response(req, world(req)));
            lemma_remove_step(order, true, world, (fuel - 1) as nat);
            assert(run(add_step(order).0, add_step(order).1, world, fuel).0
                =~= add_role_requests(order) + remove_role_requests(order) + record_requests(order)
                + ban_requests(order, world));
        } else {
            lemma_remove_step(order, false, world, fuel);
            assert(add_role_requests(order) + remove_role_requests(order) + record_requests(order)
                + ban_requests(order, world) =~= remove_role_requests(order) + record_requests(order)
                + ban_requests(order, world));
        },
        None => {
            lemma_remove_step(order, false, world, fuel);
            assert(add_role_requests(order) + remove_role_requests(order) + record_requests(order)
                + ban_requests(order, world) =~= remove_role_requests(order) + record_requests(order)
                + ban_requests(order, world));
        },
    }
}

/// A quarantine in an outside world that answers every request properly makes all of
/// `quarantine_requests` and succeeds, whatever the configured roles are.
pub(crate) proof fn lemma_quarantine_run(order: QuarantineOrder, world: spec_fn(Request) -> Response)
    requires
        serves(world),
    ensures
        forall|fuel: nat| fuel >= 7 ==> #[trigger] run(begin_quarantine(order).0, begin_quarantine(order).1, world, fuel)
            == (quarantine_requests(order, world), Some(Outcome::Done)),
{
    let user: u64 = order.user;
    assert(proper_response(Request::IsUserExempted { user }, world(Request::IsUserExempted { user })));
    assert forall|fuel: nat| fuel >= 7 implies #[trigger] run(begin_quarantine(order).0, begin_quarantine(order).1, world, fuel)
        == (quarantine_requests(order, world), Some(Outcome::Done)) by {
        if exempted(user, world) {
            reveal_with_fuel(run, 3);
            assert(run(begin_quarantine(order).0, begin_quarantine(order).1, world, fuel).0
                =~= quarantine_requests(order, world));
        } else {
            lemma_add_step(order, world, (fuel - 1) as nat);
            assert(run(begin_quarantine(order).0, begin_quarantine(order).1, world, fuel).0
                =~= quarantine_requests(order, world));
        }
    }
}

/// Whether the configured role to give needs no request, or its request succeeds.
pub open spec fn role_added(order: QuarantineOrder, world: spec_fn(Request) -> Response) -> bool {
    match order.config.add_role {
        Some(r) => order.roles@.contains(r) || world(Request::AddMemberRole {
            guild: order.guild,
            user: order.user,
            role: r,
            reason: Message::AddRoleReason,
        }) == Response::Done,
        None => true,
    }
}

/// Whether a quarantine panics in the outside world `world`: once the user proves not
/// exempted, the configured role to give is turned into a Discord role id, which panics on
/// zero; so is the role to take away, once the role to give was given or needed no request.
pub open spec fn quarantine_panics(order: QuarantineOrder, world: spec_fn(Request) -> Response) -> bool {
    &&& world(Request::IsUserExempted { user: order.user }) == Response::Flag(false)
    &&& (order.config.add_role == Some(0u64) || (order.config.prevent_role == Some(0u64) && role_added(order, world)))
}

/// A quarantine of an exempted user only logs the exemption; otherwise it gives the
/// configured role the user lacks, takes away the configured role the user holds, records
/// and logs the action when a role changed, and stores a ban when asked to and the user
/// is not banned yet. It succeeds.
pub proof fn law_quarantine(order: QuarantineOrder, world: spec_fn(Request) -> Response, fuel: nat)
    requires
        serves(world),
        !quarantine_panics(order, world),
        fuel >= 7,
    ensures
        run(begin_quarantine(order).0, begin_quarantine(order).1, world, fuel)
            == (quarantine_requests(order, world), Some(Outcome::Done)),
{
    lemma_quarantine_run(order, world);
}

/// An exempted user is never given a role, never has one taken away, and is never banned by
/// a quarantine.
pub proof fn law_exempted_untouched(order: QuarantineOrder, world: spec_fn(Request) -> Response)
    requires
        exempted(order.user, world),
    ensures
        forall|i: int|
            0 <= i < quarantine_requests(order, world).len() ==> {
                let r = #[trigger] quarantine_requests(order, world)[i];
                !(r is AddMemberRole) && !(r is RemoveMemberRole) && !(r is BanUser)
            },
{
}

/// With nonzero configured roles, a quarantine takes every response without a panic.
pub proof fn law_quarantine_accepts(q: Quarantine, response: Response)
    requires
        q.order.config.add_role != Some(0u64),
        q.order.config.prevent_role != Some(0u64),
    ensures
        q.accepts(response),
{
}

/// A failed request ends a quarantine at once in failure; only the logs, which cannot
/// fail, are exempt from this.
pub proof fn law_quarantine_failure(q: Quarantine)
    requires
        !(q.phase is AwaitExemptLog),
        !(q.phase is AwaitQuarantineLog),
    ensures
        q.next(Response::Failed).1 == Step::Finish(Outcome::Failed),
{
}

/// Whether `got`, what a run made and how it finished, finished, made a prefix of `all`,
/// and made all of it if it succeeded.
pub open spec fn partial_run(got: (Seq<Request>, Option<Outcome>), all: Seq<Request>) -> bool {
    &&& got.1 == Some(Outcome::Done) || got.1 == Some(Outcome::Failed)
    &&& got.0.is_prefix_of(all)
    &&& got.1 == Some(Outcome::Done) ==> got.0 == all
}

proof fn lemma_prefix_after(head: Seq<Request>, a: Seq<Request>, b: Seq<Request>)
    requires
        a.is_prefix_of(b),
    ensures
        (head + a).is_prefix_of(head + b),
{
    assert((head + a) =~= (head + b).subrange(0, (head + a).len() as int));
}

proof fn lemma_ban_step_any(order: QuarantineOrder, world: spec_fn(Request) -> Response, fuel: nat)
    requires
        fuel >= 2,
    ensures
        partial_run(run(ban_step(order).0, ban_step(order).1, world, fuel), ban_requests(order, world)),
{
    reveal_with_fuel(run, 3);
    let got = run(ban_step(order).0, ban_step(order).1, world, fuel);
    if order.add_to_ban {
        let check = Request::IsUserBanned { user: order.user };
        let ban = Request::BanUser { user: order.user };
        if world(check) == Response::Flag(false) {
            assert(got.0 =~= seq![check, ban]);
            assert(ban_requests(order, world) =~= seq![check, ban]);
        } else {
            assert(got.0 =~= seq![check]);
            assert(ban_requests(order, world) =~= seq![check]);
        }
    } else {
        assert(got.0 =~= ban_requests(order, world));
    }
}

proof fn lemma_record_step_any(order: QuarantineOrder, action_done: bool, world: spec_fn(Request) -> Response, fuel: nat)
    requires
        fuel >= 4,
    ensures
        partial_run(
            run(record_step(order, action_done).0, record_step(order, action_done).1, world, fuel),
            record_requests_if(order, action_done) + ban_requests(order, world),
        ),
{
    let got = run(record_step(order, action_done).0, record_step(order, action_done).1, world, fuel);
    if action_done {
        reveal_with_fuel(run, 3);
        let insert = Request::InsertAction { action: Message::QuarantineActionName, user: order.user };
        let log = Request::Log { message: Message::QuarantineLog { user: order.user } };
        lemma_ban_step_any(order, world, (fuel - 2) as nat);
        if world(insert) == Response::Done {
            let rest = run(ban_step(order).0, ban_step(order).1, world, (fuel - 2) as nat);
            assert(got.0 =~= seq![insert, log] + rest.0);
            lemma_prefix_after(seq![insert, log], rest.0, ban_requests(order, world));
        } else {
            assert(got.0 =~= seq![insert]);
            assert(got.0 =~= (record_requests_if(order, action_done) + ban_requests(order, world)).subrange(0, 1));
        }
    } else {
        lemma_ban_step_any(order, world, fuel);
        assert(record_requests_if(order, action_done) + ban_requests(order, world) =~= ban_requests(order, world));
    }
}

proof fn lemma_remove_step_any(order: QuarantineOrder, action_done: bool, world: spec_fn(Request) -> Response, fuel: nat)
    requires
        fuel >= 5,
    ensures
        partial_run(
            run(remove_step(order, action_done).0, remove_step(order, action_done).1, world, fuel),
            remove_role_requests(order) + record_requests_if(order, action_done || role_to_remove(order))
                + ban_requests(order, world),
        ),
{
    reveal_with_fuel(run, 2);
    let got = run(remove_step(order, action_done).0, remove_step(order, action_done).1, world, fuel);
    let all = remove_role_requests(order) + record_requests_if(order, action_done || role_to_remove(order))
        + ban_requests(order, world);
    match order.config.prevent_role {
        Some(r) => if order.roles@.contains(r) {
            let req = Request::RemoveMemberRole { guild: order.guild, user: order.user, role: r, reason: Message::RemoveRoleReason };
            let later = record_requests_if(order, true) + ban_requests(order, world);
            assert(all =~= seq![req] + later);
            if world(req) == Response::Done {
                lemma_record_step_any(order, true, world, (fuel - 1) as nat);
                let rest = run(record_step(order, true).0, record_step(order, true).1, world, (fuel - 1) as nat);
                assert(got.0 =~= seq![req] + rest.0);
                lemma_prefix_after(seq![req], rest.0, later);
            } else {
                assert(got.0 =~= seq![req]);
                assert(got.0 =~= all.subrange(0, 1));
            }
        } else {
            lemma_record_step_any(order, action_done, world, fuel);
            assert(all =~= record_requests_if(order, action_done) + ban_requests(order, world));
        },
        None => {
            lemma_record_step_any(order, action_done, world, fuel);
            assert(all =~= record_requests_if(order, action_done) + ban_requests(order, world));
        },
    }
}

proof fn lemma_add_step_any(order: QuarantineOrder, world: spec_fn(Request) -> Response, fuel: nat)
    requires
        fuel >= 6,
    ensures
        partial_run(
            run(add_step(order).0, add_step(order).1, world, fuel),
            add_role_requests(order) + remove_role_requests(order) + record_requests(order)
                + ban_requests(order, world),
        ),
{
    reveal_with_fuel(run, 2);
    let got = run(add_step(order).0, add_step(order).1, world, fuel);
    let all = add_role_requests(order) + remove_role_requests(order) + record_requests(order)
        + ban_requests(order, world);
    let later = remove_role_requests(order) + record_requests(order) + ban_requests(order, world);
    match order.config.add_role {
        Some(r) => if !order.roles@.contains(r) {
            let req = Request::AddMemberRole { guild: order.guild, user: order.user, role: r, reason: Message::AddRoleReason };
            assert(all =~= seq![req] + later);
            if world(req) == Response::Done {
                lemma_remove_step_any(order, true, world, (fuel - 1) as nat);
                let rest = run(remove_step(order, true).0, remove_step(order, true).1, world, (fuel - 1) as nat);
                assert(got.0 =~= seq![req] + rest.0);
                assert(later =~= remove_role_requests(order) + record_requests_if(order, true || role_to_remove(order))
                    + ban_requests(order, world));
                lemma_prefix_after(seq![req], rest.0, later);
            } else {
                assert(got.0 =~= seq![req]);
                assert(got.0 =~= all.subrange(0, 1));
            }
        } else {
            lemma_remove_step_any(order, false, world, fuel);
            assert(all =~= later);
        },
        None => {
            lemma_remove_step_any(order, false, world, fuel);
            assert(all =~= later);
        },
    }
}

/// Whatever the outside world answers, a quarantine finishes, its requests are the first
/// of `quarantine_requests` (it stops at the first request that fails), and it succeeds
/// only after making all of them.
pub proof fn law_quarantine_any_world(order: QuarantineOrder, world: spec_fn(Request) -> Response, fuel: nat)
    requires
        !quarantine_panics(order, world),
        fuel >= 7,
    ensures
        partial_run(run(begin_quarantine(order).0, begin_quarantine(order).1, world, fuel), quarantine_requests(order, world)),
{
    lemma_quarantine_any(order, world, fuel);
}

proof fn lemma_quarantine_any(order: QuarantineOrder, world: spec_fn(Request) -> Response, fuel: nat)
    requires
        fuel >= 7,
    ensures
        partial_run(run(begin_quarantine(order).0, begin_quarantine(order).1, world, fuel), quarantine_requests(order, world)),
{
    let got = run(begin_quarantine(order).0, begin_quarantine(order).1, world, fuel);
    let all = quarantine_requests(order, world);
    let ask = Request::IsUserExempted { user: order.user };
    reveal_with_fuel(run, 3);
    match world(ask) {
        Response::Flag(true) => {
            assert(got.0 =~= all);
        },
        Response::Flag(false) => {
            lemma_add_step_any(order, world, (fuel - 1) as nat);
            let later = add_role_requests(order) + remove_role_requests(order) + record_requests(order)
                + ban_requests(order, world);
            let rest = run(add_step(order).0, add_step(order).1, world, (fuel - 1) as nat);
            assert(got.0 =~= seq![ask] + rest.0);
            assert(all =~= seq![ask] + later);
            lemma_prefix_after(seq![ask], rest.0, later);
        },
        _ => {
            assert(got.0 =~= seq![ask]);
            assert(got.0 =~= all.subrange(0, 1));
        },
    }
}

/// Whether a request records an action.
pub open spec fn records_action() -> spec_fn(Request) -> bool {
    |r: Request| r is InsertAction
}

/// Whether a request stores a user ban.
pub open spec fn stores_ban() -> spec_fn(Request) -> bool {
    |r: Request| r is BanUser
}

/// Whether a request changes the stored exemptions or tag bans, or removes user bans.
pub open spec fn alters_other_records(r: Request) -> bool {
    ||| r is InsertExemptUser
    ||| r is DeleteExemptedUser
    ||| r is InsertBannedTag
    ||| r is DeleteBannedTag
    ||| r is UnbanUser
}

proof fn lemma_quarantine_requests_effects(order: QuarantineOrder, world: spec_fn(Request) -> Response)
    ensures
        quarantine_requests(order, world).filter(records_action()).len() <= 1,
        quarantine_requests(order, world).filter(stores_ban()).len() <= 1,
        forall|i: int|
            0 <= i < quarantine_requests(order, world).len()
                ==> !alters_other_records(#[trigger] quarantine_requests(order, world)[i]),
{
    broadcast use Seq::filter_distributes_over_add, Seq::lemma_filter_push;
    reveal_with_fuel(Seq::filter, 1);
    let ask = seq![Request::IsUserExempted { user: order.user }];
    let (a, r) = (records_action(), stores_ban());
    assert(Seq::<Request>::empty().filter(a).len() == 0);
    assert(Seq::<Request>::empty().filter(r).len() == 0);
    if exempted(order.user, world) {
        let log = Request::Log { message: Message::UserExemptedLog { user: order.user } };
        assert(ask.push(log).filter(a).len() == 0);
        assert(ask.push(log).filter(r).len() == 0);
        assert(quarantine_requests(order, world) == ask.push(log));
    } else {
        assert(ask.filter(a).len() == 0 && ask.filter(r).len() == 0);
        assert(add_role_requests(order).filter(a).len() == 0 && add_role_requests(order).filter(r).len() == 0);
        assert(remove_role_requests(order).filter(a).len() == 0 && remove_role_requests(order).filter(r).len() == 0);
        let insert = seq![Request::InsertAction { action: Message::QuarantineActionName, user: order.user }];
        let rec = insert.push(Request::Log { message: Message::QuarantineLog { user: order.user } });
        assert(insert.filter(a).len() == 1 && insert.filter(r).len() == 0);
        assert(rec.filter(a).len() == 1 && rec.filter(r).len() == 0);
        assert(record_requests(order) == rec || record_requests(order) == Seq::<Request>::empty());
        assert(ban_requests(order, world).filter(a).len() == 0 && ban_requests(order, world).filter(r).len() <= 1);
        let head = ask + add_role_requests(order) + remove_role_requests(order);
        assert(head.filter(a).len() == 0 && head.filter(r).len() == 0);
        assert((head + record_requests(order)).filter(a).len() <= 1);
        assert((head + record_requests(order)).filter(r).len() == 0);
        assert(quarantine_requests(order, world) == head + record_requests(order) + ban_requests(order, world));
    }
}

/// Whatever the outside world answers, a quarantine records at most one action, stores at
/// most one user ban, and leaves the stored exemptions and tag bans alone and removes no
/// user ban. Where `quarantine_panics` holds, the requests made before the panic are the
/// first of these, so the law holds of them too.
pub proof fn law_quarantine_effects(order: QuarantineOrder, world: spec_fn(Request) -> Response, fuel: nat)
    requires
        fuel >= 7,
    ensures
        ({
            let made = run(begin_quarantine(order).0, begin_quarantine(order).1, world, fuel).0;
            &&& made.filter(records_action()).len() <= 1
            &&& made.filter(stores_ban()).len() <= 1
            &&& forall|i: int| 0 <= i < made.len() ==> !alters_other_records(#[trigger] made[i])
        }),
{
    let made = run(begin_quarantine(order).0, begin_quarantine(order).1, world, fuel).0;
    let all = quarantine_requests(order, world);
    lemma_quarantine_any(order, world, fuel);
    lemma_quarantine_requests_effects(order, world);
    made.lemma_filter_monotone(all, records_action());
    made.lemma_filter_monotone(all, stores_ban());
    assert forall|i: int| 0 <= i < made.len() implies !alters_other_records(#[trigger] made[i]) by {
        assert(made[i] == all[i]);
    }
}

proof fn lemma_ban_accepted(order: QuarantineOrder, world: spec_fn(Request) -> Response, fuel: nat)
    ensures
        run_accepted(ban_step(order).0, ban_step(order).1, world, fuel),
{
    reveal_with_fuel(run_accepted, 3);
}

proof fn lemma_record_accepted(order: QuarantineOrder, action_done: bool, world: spec_fn(Request) -> Response, fuel: nat)
    ensures
        run_accepted(record_step(order, action_done).0, record_step(order, action_done).1, world, fuel),
{
    reveal_with_fuel(run_accepted, 3);
    if fuel >= 2 {
        lemma_ban_accepted(order, world, (fuel - 2) as nat);
    }
    lemma_ban_accepted(order, world, fuel);
}

proof fn lemma_remove_accepted(order: QuarantineOrder, action_done: bool, world: spec_fn(Request) -> Response, fuel: nat)
    ensures
        run_accepted(remove_step(order, action_done).0, remove_step(order, action_done).1, world, fuel),
{
    reveal_with_fuel(run_accepted, 2);
    if fuel >= 1 {
        lemma_record_accepted(order, true, world, (fuel - 1) as nat);
    }
    lemma_record_accepted(order, action_done, world, fuel);
}

proof fn lemma_add_accepted(order: QuarantineOrder, world: spec_fn(Request) -> Response, fuel: nat)
    requires
        fuel >= 1,
    ensures
        run_accepted(add_step(order).0, add_step(order).1, world, fuel)
            == (role_to_add(order) && role_added(order, world) ==> order.config.prevent_role != Some(0u64)),
{
    reveal_with_fuel(run_accepted, 2);
    lemma_remove_accepted(order, true, world, (fuel - 1) as nat);
    lemma_remove_accepted(order, false, world, fuel);
}

/// A quarantine takes every response of its run without a panic exactly when
/// `quarantine_panics` does not hold: `quarantine_panics` says when the machine's `accepts`
/// refuses a response of the run.
pub proof fn law_quarantine_panics(order: QuarantineOrder, world: spec_fn(Request) -> Response, fuel: nat)
    requires
        fuel >= 2,
    ensures
        run_accepted(begin_quarantine(order).0, begin_quarantine(order).1, world, fuel) == !quarantine_panics(order, world),
{
    reveal_with_fuel(run_accepted, 3);
    lemma_add_accepted(order, world, (fuel - 1) as nat);
}

} // verus!
