//! Permission-related types shared between the sharer and viewer protocols.
use super::{Role, TeamAclData};
use vstd::prelude::*;

verus! {

#[derive(Clone, Debug)]
pub enum LinkAccessLevelUpdateResponse {
    /// The update was applied; `role` is the link's new access level (on the wire, `Ok`).
    Updated { role: Option<Role> },
    Error,
}

#[derive(Clone, Copy, Debug)]
pub enum AddGuestsResponse {
    Success,
    Error(FailedToAddGuestsReason),
}

#[derive(Clone, Copy, Debug)]
pub enum FailedToAddGuestsReason {
    /// Unexpected, something went wrong in the server.
    Invalid,
    /// One or more of the emails did not correspond with Warp users.
    NotWarpUsers,
    /// One or more of the guests has already been added to the session.
    GuestAlreadyAdded,
}

#[derive(Clone, Copy, Debug)]
pub enum RemoveGuestResponse {
    Success,
    Error(FailedToRemoveGuestReason),
}

#[derive(Clone, Copy, Debug)]
pub enum FailedToRemoveGuestReason {
    /// Unexpected, something went wrong in the server.
    Invalid,
}

#[derive(Clone, Copy, Debug)]
pub enum UpdatePendingUserRoleResponse {
    Success,
    Error(FailedToUpdatePendingUserRoleReason),
}

#[derive(Clone, Copy, Debug)]
pub enum FailedToUpdatePendingUserRoleReason {
    /// Unexpected, something went wrong in the server.
    Invalid,
}

#[derive(Clone, Debug)]
pub enum TeamAccessLevelUpdateResponse {
    Success { team_uid: String, team_acl: Option<TeamAclData> },
    Error(FailedToUpdateTeamAccessLevelReason),
}

#[derive(Clone, Copy, Debug)]
pub enum FailedToUpdateTeamAccessLevelReason {
    /// Unexpected, something went wrong in the server.
    Invalid,
}

} // verus!
