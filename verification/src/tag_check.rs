//! Whether the primary guild a user displays is banned, by its tag text or by its id.
use vstd::prelude::*;
use crate::model::PrimaryGuild;
use crate::protocol::{Machine, Outcome, Request, Response, Step, run, serves};

verus! {

/// The check of a primary guild against the stored tag bans: first by tag text, then
/// by guild id; it answers `true` at the first match.
pub enum TagCheck {
    /// Waiting to learn whether the tag text is banned; the guild id is checked next.
    AwaitTag { guild: Option<u64> },
    /// Waiting to learn whether the guild is banned.
    AwaitGuild,
    /// Finished: nothing is pending.
    Finished,
}

/// The check after the tag text did not match: by guild id if there is one.
pub open spec fn check_guild(guild: Option<u64>) -> (TagCheck, Step) {
    match guild {
        Some(g) => (TagCheck::AwaitGuild, Step::Perform(Request::IsTagBannedByGuildId { guild: g })),
        None => (TagCheck::Finished, Step::Finish(Outcome::Answer(false))),
    }
}

/// The check of a primary guild from its start.
pub open spec fn begin_tag_check(primary: PrimaryGuild) -> (TagCheck, Step) {
    match primary.tag {
        Some(tag) => (
            TagCheck::AwaitTag { guild: primary.identity_guild_id },
            Step::Perform(Request::IsTagBannedByTag { tag }),
        ),
        None => check_guild(primary.identity_guild_id),
    }
}

fn start_guild_check(guild: Option<u64>) -> (r: (TagCheck, Step))
    ensures
        r == check_guild(guild),
{
    match guild {
        Some(g) => (TagCheck::AwaitGuild, Step::Perform(Request::IsTagBannedByGuildId { guild: g })),
        None => (TagCheck::Finished, Step::Finish(Outcome::Answer(false))),
    }
}

impl TagCheck {
    /// Starts checking a primary guild.
    pub fn start(primary: PrimaryGuild) -> (r: (TagCheck, Step))
        ensures
            r == begin_tag_check(primary),
    {
        match primary.tag {
            Some(tag) => (
                TagCheck::AwaitTag { guild: primary.identity_guild_id },
                Step::Perform(Request::IsTagBannedByTag { tag }),
            ),
            None => start_guild_check(primary.identity_guild_id),
        }
    }
}

impl Machine for TagCheck {
    open spec fn next(self, response: Response) -> (TagCheck, Step) {
        match self {
            TagCheck::AwaitTag { guild } => match response {
                Response::Flag(true) => (TagCheck::Finished, Step::Finish(Outcome::Answer(true))),
                Response::Flag(false) => check_guild(guild),
                _ => (TagCheck::Finished, Step::Finish(Outcome::Failed)),
            },
            TagCheck::AwaitGuild => match response {
                Response::Flag(banned) => (TagCheck::Finished, Step::Finish(Outcome::Answer(banned))),
                _ => (TagCheck::Finished, Step::Finish(Outcome::Failed)),
            },
            TagCheck::Finished => (TagCheck::Finished, Step::Finish(Outcome::Failed)),
        }
    }

    open spec fn accepts(self, response: Response) -> bool {
        true
    }

    fn can_accept(&self, response: &Response) -> (b: bool) {
        true
    }

    fn resume(self, response: Response) -> (r: (TagCheck, Step)) {
        match self {
            TagCheck::AwaitTag { guild } => match response {
                Response::Flag(true) => (TagCheck::Finished, Step::Finish(Outcome::Answer(true))),
                Response::Flag(false) => start_guild_check(guild),
                _ => (TagCheck::Finished, Step::Finish(Outcome::Failed)),
            },
            TagCheck::AwaitGuild => match response {
                Response::Flag(banned) => (TagCheck::Finished, Step::Finish(Outcome::Answer(banned))),
                _ => (TagCheck::Finished, Step::Finish(Outcome::Failed)),
            },
            TagCheck::Finished => (TagCheck::Finished, Step::Finish(Outcome::Failed)),
        }
    }
}

/// Whether the outside world holds a ban of the primary guild's tag text or of its id.
pub open spec fn tag_banned(primary: PrimaryGuild, world: spec_fn(Request) -> Response) -> bool {
    ||| primary.tag matches Some(tag) && world(Request::IsTagBannedByTag { tag }) == Response::Flag(true)
    ||| primary.identity_guild_id matches Some(g)
        && world(Request::IsTagBannedByGuildId { guild: g }) == Response::Flag(true)
}

/// The requests of a tag check: the tag text first, if there is one; then the guild id,
/// if there is one and the tag text did not match.
pub open spec fn tag_check_requests(primary: PrimaryGuild, world: spec_fn(Request) -> Response) -> Seq<Request> {
    let by_tag = match primary.tag {
        Some(tag) => seq![Request::IsTagBannedByTag { tag }],
        None => Seq::empty(),
    };
    let tag_matched = primary.tag matches Some(tag)
        && world(Request::IsTagBannedByTag { tag }) == Response::Flag(true);
    let by_guild = match primary.identity_guild_id {
        Some(g) => if tag_matched { Seq::empty() } else { seq![Request::IsTagBannedByGuildId { guild: g }] },
        None => Seq::empty(),
    };
    by_tag + by_guild
}

/// A tag check asks about the tag text, then the guild id, stops at the first match, and
/// answers whether either is banned.
pub proof fn law_tag_check(primary: PrimaryGuild, world: spec_fn(Request) -> Response, fuel: nat)
    requires
        serves(world),
        fuel >= 2,
    ensures
        run(begin_tag_check(primary).0, begin_tag_check(primary).1, world, fuel)
            == (tag_check_requests(primary, world), Some(Outcome::Answer(tag_banned(primary, world)))),
{
    reveal_with_fuel(run, 3);
    match primary.tag {
        Some(tag) => {
            assert(crate::protocol::proper_response(
                Request::IsTagBannedByTag { tag },
                world(Request::IsTagBannedByTag { tag }),
            ));
        },
        None => {},
    }
    match primary.identity_guild_id {
        Some(g) => {
            assert(crate::protocol::proper_response(
                Request::IsTagBannedByGuildId { guild: g },
                world(Request::IsTagBannedByGuildId { guild: g }),
            ));
        },
        None => {},
    }
    assert(run(begin_tag_check(primary).0, begin_tag_check(primary).1, world, fuel).0
        =~= tag_check_requests(primary, world));
}

} // verus!
