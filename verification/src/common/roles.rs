use super::ids::{is_random_uuid_text, random_uuid_text};
use super::ParticipantId;
use vstd::prelude::*;

verus! {

#[derive(Clone, Copy, Debug, PartialEq, Eq, Structural)]
pub enum Role {
    Reader,
    Executor,
    /// Executor, and can change ACLs of others
    Full,
}

/// The role shown in place of `role` to a client without support for `Full`.
pub open spec fn downgraded(role: Role) -> Role {
    if role == Role::Full {
        Role::Executor
    } else {
        role
    }
}

/// Whether `role` grants execution permissions.
pub open spec fn executes(role: Role) -> bool {
    role == Role::Executor || role == Role::Full
}

impl Role {
    /// Returns true if this role has execution permissions.
    pub fn can_execute(&self) -> (r: bool)
        ensures
            r == executes(*self),
    {
        match self {
            Role::Executor | Role::Full => true,
            Role::Reader => false,
        }
    }

    /// Downgrades `Full` to `Executor` for clients that don't support the Full role.
    pub fn downgrade_full(&mut self)
        ensures
            *final(self) == downgraded(*old(self)),
    {
        if *self == Role::Full {
            *self = Role::Executor;
        }
    }
}

impl Default for Role {
    fn default() -> (r: Self)
        ensures
            r == Role::Reader,
    {
        Role::Reader
    }
}

/// Executors and full participants may execute; readers may not.
pub proof fn lemma_execution_rights()
    ensures
        !executes(Role::Reader),
        executes(Role::Executor),
        executes(Role::Full),
{
}

/// Downgrading is idempotent, never yields `Full`, and keeps execution permissions.
pub proof fn lemma_downgrade_full(role: Role)
    ensures
        downgraded(downgraded(role)) == downgraded(role),
        downgraded(role) != Role::Full,
        executes(downgraded(role)) == executes(role),
        role != Role::Full ==> downgraded(role) == role,
{
}

/// Info about different types of ACLs for a user.
#[derive(Clone, Copy, Debug, PartialEq, Eq, Structural)]
pub struct AccessLevels {
    /// The maximum ACL given to the user, could be direct, link-based, etc.
    pub max_acl: Role,
    /// The direct ACL given to the user.
    pub direct_acl: Option<Role>,
}

/// An ID for a role request that is unique across all participants across all shared sessions.
#[derive(Clone, Debug, Hash, PartialEq, Eq, PartialOrd, Ord)]
pub struct RoleRequestId(String);

impl View for RoleRequestId {
    type V = Seq<char>;

    closed spec fn view(&self) -> Seq<char> {
        self.0@
    }
}

impl From<String> for RoleRequestId {
    fn from(value: String) -> (r: Self)
        ensures
            r@ == value@,
    {
        RoleRequestId(value)
    }
}

impl vstd::std_specs::convert::FromSpecImpl<String> for RoleRequestId {
    open spec fn obeys_from_spec() -> bool {
        true
    }

    closed spec fn from_spec(v: String) -> Self {
        RoleRequestId(v)
    }
}

impl RoleRequestId {
    /// A fresh id: the text of a random version-4 UUID.
    pub fn new() -> (r: RoleRequestId)
        ensures
            is_random_uuid_text(r@),
    {
        RoleRequestId(random_uuid_text())
    }

    /// The id's text, as its `Display` writes it.
    pub fn to_string(&self) -> (r: String)
        ensures
            r@ == self@,
    {
        self.0.clone()
    }
}

impl Default for RoleRequestId {
    fn default() -> (r: Self)
        ensures
            is_random_uuid_text(r@),
    {
        RoleRequestId::new()
    }
}

#[derive(Clone, Debug)]
pub enum RoleRequestRejectedReason {
    RejectedBySharer,
}

#[derive(Clone, Debug)]
pub enum RoleRequestResponse {
    Approved { new_role: Role },
    Rejected { reason: RoleRequestRejectedReason },
}

#[derive(Clone, Debug)]
pub struct PendingRoleRequest {
    pub participant_id: ParticipantId,
    pub request_id: RoleRequestId,
    pub role: Role,
}

} // verus!
