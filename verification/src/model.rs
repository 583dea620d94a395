//! Plain-valued records that the moderation logic reads.
use vstd::prelude::*;

verus! {

/// The primary guild a user displays: the guild's id, if it is public, and its tag text.
#[derive(Debug, PartialEq, Eq)]
pub struct PrimaryGuild {
    pub identity_guild_id: Option<u64>,
    pub tag: Option<String>,
}

/// What an account update carries: the user's id and the primary guild it displays.
#[derive(Debug, PartialEq, Eq)]
pub struct UserSnapshot {
    pub id: u64,
    pub primary_guild: Option<PrimaryGuild>,
}

/// One stored tag ban: its row id, the banned guild (if any) and the banned tag text (if any).
#[derive(Debug, PartialEq, Eq)]
pub struct BannedTagRow {
    pub rowid: i64,
    pub server_id: Option<u64>,
    pub tag: Option<String>,
}

/// One stored exemption: the exempted user and the time of the exemption, in seconds since
/// the Unix epoch.
#[derive(Debug, PartialEq, Eq)]
pub struct ExemptedUserRow {
    pub user_id: u64,
    pub timestamp: i64,
}

/// One stored user ban: its row id and the banned user.
#[derive(Debug, PartialEq, Eq)]
pub struct BannedUserRow {
    pub rowid: i64,
    pub user_id: u64,
}

/// The counts of stored records, in the order tag bans, exemptions, user bans, actions.
#[derive(Debug, PartialEq, Eq)]
pub struct RecordCounts {
    pub banned_tags: i64,
    pub exempted_users: i64,
    pub banned_users: i64,
    pub actions: i64,
}

/// The roles that a quarantine adds and removes, as configured.
#[derive(Debug, PartialEq, Eq)]
pub struct QuarantineRoles {
    pub add_role: Option<u64>,
    pub prevent_role: Option<u64>,
}

} // verus!
