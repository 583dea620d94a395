//! Who may use the moderators' commands.
use vstd::prelude::*;
use crate::quarantine::holds_role;

verus! {

/// The permission bit of an administrator in a Discord permission set.
pub const ADMINISTRATOR: u64 = 8;

/// The command's author as a member of the guild: the permission bits, when Discord sent
/// them, and the roles the member holds.
pub struct AuthorMember {
    pub permissions: Option<u64>,
    pub roles: Vec<u64>,
}

/// Whether a permission set holds the administrator permission.
pub open spec fn is_administrator(bits: u64) -> bool {
    bits & ADMINISTRATOR == ADMINISTRATOR
}

/// Whether the permission set holds the administrator permission.
pub fn administrator(bits: u64) -> (b: bool)
    ensures
        b == is_administrator(bits),
{
    bits & ADMINISTRATOR == ADMINISTRATOR
}

/// Whether the author's permission set, if known, holds the administrator permission.
pub open spec fn member_is_administrator(member: AuthorMember) -> bool {
    member.permissions matches Some(bits) && is_administrator(bits)
}

/// Whether the author may use the moderators' commands: an administrator may; otherwise a
/// member holding the configured moderator role may; no one else may, nor anyone who is
/// not a member of the guild.
pub open spec fn permitted(member: Option<AuthorMember>, mod_role: Option<u64>) -> bool {
    match member {
        Some(m) => member_is_administrator(m) || (mod_role matches Some(r) && m.roles@.contains(r)),
        None => false,
    }
}

/// Decides whether the author may use the moderators' commands. The moderator role is
/// turned into a Discord role id, which panics on zero, when the author is a member who is
/// no administrator; `requires` leaves that out.
pub fn check_permissions(member: &Option<AuthorMember>, mod_role: Option<u64>) -> (allowed: bool)
    requires
        *member matches Some(m) && !member_is_administrator(m) ==> mod_role != Some(0u64),
    ensures
        allowed == permitted(*member, mod_role),
{
    match member {
        Some(m) => {
            match m.permissions {
                Some(bits) => {
                    if administrator(bits) {
                        return true;
                    }
                },
                None => {},
            }
            match mod_role {
                Some(role) => holds_role(&m.roles, role),
                None => false,
            }
        },
        None => false,
    }
}

/// Who may use the moderators' commands: a member whose permission bits hold the
/// administrator bit may; a member holding the configured moderator role may, whatever
/// permission bits Discord sent or left out; a member who is neither may not; and an
/// author who is not a member of the guild may not.
pub proof fn law_permissions(m: AuthorMember, mod_role: Option<u64>)
    ensures
        (m.permissions matches Some(bits) && bits & 8u64 == 8u64) ==> permitted(Some(m), mod_role),
        (mod_role matches Some(r) && m.roles@.contains(r)) ==> forall|p: Option<u64>|
            #[trigger] permitted(Some(AuthorMember { permissions: p, roles: m.roles }), mod_role),
        !(m.permissions matches Some(bits) && bits & 8u64 == 8u64)
            && !(mod_role matches Some(r) && m.roles@.contains(r)) ==> !permitted(Some(m), mod_role),
        !permitted(None, mod_role),
{
}

} // verus!
