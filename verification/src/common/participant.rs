use super::ids::{is_random_uuid_text, random_uuid_text};
use super::roles::downgraded;
use super::{InputReplicaId, Role, Selection};
use vstd::prelude::*;

verus! {

#[derive(Clone, Copy, Debug, PartialEq, Eq, Structural)]
pub enum ParticipantType {
    Sharer,
    Viewer { role: Role },
}

/// An ID for a shared session participant that is unique across all participants across all shared sessions.
/// If a viewer joins a shared session multiple times from the same machine, they are treated as separate participants with their own ParticipantId.
/// A participant reconnecting should keep the same participant ID.
#[derive(Clone, Debug, Hash, PartialEq, Eq, PartialOrd, Ord)]
pub struct ParticipantId(String);

impl View for ParticipantId {
    type V = Seq<char>;

    closed spec fn view(&self) -> Seq<char> {
        self.0@
    }
}

impl From<String> for ParticipantId {
    fn from(value: String) -> (r: Self)
        ensures
            r@ == value@,
    {
        ParticipantId(value)
    }
}

impl vstd::std_specs::convert::FromSpecImpl<String> for ParticipantId {
    open spec fn obeys_from_spec() -> bool {
        true
    }

    closed spec fn from_spec(v: String) -> Self {
        ParticipantId(v)
    }
}

impl ParticipantId {
    /// A fresh participant id: the text of a random version-4 UUID.
    pub fn new() -> (r: ParticipantId)
        ensures
            is_random_uuid_text(r@),
    {
        ParticipantId(random_uuid_text())
    }

    /// The id as its `Display` writes it.
    pub fn to_string(&self) -> (r: String)
        ensures
            r@ == self@,
    {
        self.0.clone()
    }
}

impl Default for ParticipantId {
    fn default() -> (r: Self)
        ensures
            is_random_uuid_text(r@),
    {
        ParticipantId::new()
    }
}

/// Mostly static information about a participant.
#[derive(Clone, Debug, Default)]
pub struct ProfileData {
    pub firebase_uid: String,
    pub display_name: String,
    /// If None, the client should render an avatar themselves.
    pub photo_url: Option<String>,
    pub email: Option<String>,
    pub input_replica_id: InputReplicaId,
}

/// Contains information about a shared session participant.
#[derive(Clone, Debug, Default)]
pub struct ParticipantInfo {
    pub id: ParticipantId,
    pub profile_data: ProfileData,
    pub selection: Selection,
}

#[derive(Clone, Debug, Default)]
pub struct Sharer {
    pub info: ParticipantInfo,
}

#[derive(Clone, Debug, Default)]
pub struct Viewer {
    pub info: ParticipantInfo,
    pub role: Role,
    /// Whether or not this viewer is still part of the session.
    pub is_present: bool,
}

/// Information about a viewer that is still part of the session.
#[derive(Clone, Debug, Default)]
pub struct PresentViewer {
    pub info: ParticipantInfo,
    /// The maximum access level this viewer has been given.
    pub max_acl: Role,
}

/// Information about a viewer that is no longer a part of the session.
#[derive(Clone, Debug, Default)]
pub struct AbsentViewer {
    pub info: ParticipantInfo,
}

/// Information about a user who is a direct guest on the session.
#[derive(Clone, Debug, Default)]
pub struct Guest {
    pub profile_data: ProfileData,
    /// The direct access level that this guest has been given.
    pub direct_acl: Role,
}

/// Information about a non-Warp user who has been invited to the session.
#[derive(Clone, Debug, Default)]
pub struct PendingGuest {
    pub email: String,
    /// The direct access level that this guest has been given.
    pub direct_acl: Role,
}

/// Information about the full list of all participants in a shared session.
///
/// To derive the session's direct guests, all of the users with direct acls
/// across `present_viewers`, `absent_viewers`, and `non_viewer_guests` must be
/// accumulated.
#[derive(Clone, Debug, Default)]
pub struct ParticipantList {
    pub sharer: Sharer,
    /// Legacy field kept for backwards compatibility. After the ACL transition
    /// we should be using `present_viewers`, `absent_viewers`, and
    /// `non_viewer_guests` and can remove this field.
    pub viewers: Vec<Viewer>,
    /// Viewers that are currently on the session.
    pub present_viewers: Vec<PresentViewer>,
    /// Viewers that are no longer on the session.
    pub absent_viewers: Vec<AbsentViewer>,
    /// Users that have a direct ACL on the session.
    pub guests: Vec<Guest>,
    /// Non-Warp users who have been invited to the session.
    pub pending_guests: Vec<PendingGuest>,
}

pub open spec fn downgraded_viewer(v: Viewer) -> Viewer {
    Viewer { info: v.info, role: downgraded(v.role), is_present: v.is_present }
}

pub open spec fn downgraded_present_viewer(v: PresentViewer) -> PresentViewer {
    PresentViewer { info: v.info, max_acl: downgraded(v.max_acl) }
}

pub open spec fn downgraded_guest(g: Guest) -> Guest {
    Guest { profile_data: g.profile_data, direct_acl: downgraded(g.direct_acl) }
}

pub open spec fn downgraded_pending_guest(g: PendingGuest) -> PendingGuest {
    PendingGuest { email: g.email, direct_acl: downgraded(g.direct_acl) }
}

/// `new` is `old` as a client without support for `Full` is shown it: every role in
/// it downgraded, everything else unchanged.
pub open spec fn is_downgrade_of(new: ParticipantList, old: ParticipantList) -> bool {
    &&& new.sharer == old.sharer
    &&& new.viewers@ == old.viewers@.map_values(|v: Viewer| downgraded_viewer(v))
    &&& new.present_viewers@ == old.present_viewers@.map_values(
        |v: PresentViewer| downgraded_present_viewer(v),
    )
    &&& new.absent_viewers@ == old.absent_viewers@
    &&& new.guests@ == old.guests@.map_values(|g: Guest| downgraded_guest(g))
    &&& new.pending_guests@ == old.pending_guests@.map_values(
        |g: PendingGuest| downgraded_pending_guest(g),
    )
}

/// Every role that the list grants.
pub open spec fn roles_granted(l: ParticipantList) -> Seq<Role> {
    l.viewers@.map_values(|v: Viewer| v.role) + l.present_viewers@.map_values(
        |v: PresentViewer| v.max_acl,
    ) + l.guests@.map_values(|g: Guest| g.direct_acl) + l.pending_guests@.map_values(
        |g: PendingGuest| g.direct_acl,
    )
}

fn downgrade_viewers(viewers: &mut Vec<Viewer>)
    ensures
        final(viewers)@ == old(viewers)@.map_values(|v: Viewer| downgraded_viewer(v)),
{
    let mut i: usize = 0;
    while i < viewers.len()
        invariant
            i <= viewers@.len(),
            viewers@.len() == old(viewers)@.len(),
            forall|j: int| 0 <= j < i ==> viewers@[j] == downgraded_viewer(old(viewers)@[j]),
            forall|j: int| i <= j < viewers@.len() ==> viewers@[j] == old(viewers)@[j],
        decreases old(viewers)@.len() - i,
    {
        viewers[i].role.downgrade_full();
        i = i + 1;
    }
    assert(viewers@ =~= old(viewers)@.map_values(|v: Viewer| downgraded_viewer(v)));
}

fn downgrade_present_viewers(viewers: &mut Vec<PresentViewer>)
    ensures
        final(viewers)@ == old(viewers)@.map_values(|v: PresentViewer| downgraded_present_viewer(v)),
{
    let mut i: usize = 0;
    while i < viewers.len()
        invariant
            i <= viewers@.len(),
            viewers@.len() == old(viewers)@.len(),
            forall|j: int| 0 <= j < i ==> viewers@[j] == downgraded_present_viewer(old(viewers)@[j]),
            forall|j: int| i <= j < viewers@.len() ==> viewers@[j] == old(viewers)@[j],
        decreases old(viewers)@.len() - i,
    {
        viewers[i].max_acl.downgrade_full();
        i = i + 1;
    }
    assert(viewers@ =~= old(viewers)@.map_values(|v: PresentViewer| downgraded_present_viewer(v)));
}

fn downgrade_guests(viewers: &mut Vec<Guest>)
    ensures
        final(viewers)@ == old(viewers)@.map_values(|v: Guest| downgraded_guest(v)),
{
    let mut i: usize = 0;
    while i < viewers.len()
        invariant
            i <= viewers@.len(),
            viewers@.len() == old(viewers)@.len(),
            forall|j: int| 0 <= j < i ==> viewers@[j] == downgraded_guest(old(viewers)@[j]),
            forall|j: int| i <= j < viewers@.len() ==> viewers@[j] == old(viewers)@[j],
        decreases old(viewers)@.len() - i,
    {
        viewers[i].direct_acl.downgrade_full();
        i = i + 1;
    }
    assert(viewers@ =~= old(viewers)@.map_values(|v: Guest| downgraded_guest(v)));
}

fn downgrade_pending_guests(viewers: &mut Vec<PendingGuest>)
    ensures
        final(viewers)@ == old(viewers)@.map_values(|v: PendingGuest| downgraded_pending_guest(v)),
{
    let mut i: usize = 0;
    while i < viewers.len()
        invariant
            i <= viewers@.len(),
            viewers@.len() == old(viewers)@.len(),
            forall|j: int| 0 <= j < i ==> viewers@[j] == downgraded_pending_guest(old(viewers)@[j]),
            forall|j: int| i <= j < viewers@.len() ==> viewers@[j] == old(viewers)@[j],
        decreases old(viewers)@.len() - i,
    {
        viewers[i].direct_acl.downgrade_full();
        i = i + 1;
    }
    assert(viewers@ =~= old(viewers)@.map_values(|v: PendingGuest| downgraded_pending_guest(v)));
}

impl ParticipantList {
    /// Downgrades all `Role::Full` fields to `Role::Executor`.
    /// Used for backward compatibility with clients that don't support the Full role.
    pub fn downgrade_full_roles(&mut self)
        ensures
            is_downgrade_of(*final(self), *old(self)),
    {
        downgrade_viewers(&mut self.viewers);
        downgrade_present_viewers(&mut self.present_viewers);
        downgrade_guests(&mut self.guests);
        downgrade_pending_guests(&mut self.pending_guests);
    }
}

/// After downgrading, the list grants no `Full` role.
pub proof fn lemma_downgraded_list_has_no_full_role(once: ParticipantList, original: ParticipantList)
    requires
        is_downgrade_of(once, original),
    ensures
        forall|i: int|
            0 <= i < roles_granted(once).len() ==> #[trigger] roles_granted(once)[i] != Role::Full,
{
    let granted = roles_granted(once);
    assert forall|i: int| 0 <= i < granted.len() implies #[trigger] granted[i] != Role::Full by {
        let a = once.viewers@.map_values(|v: Viewer| v.role);
        let b = once.present_viewers@.map_values(|v: PresentViewer| v.max_acl);
        let c = once.guests@.map_values(|g: Guest| g.direct_acl);
        let d = once.pending_guests@.map_values(|g: PendingGuest| g.direct_acl);
        if i < a.len() {
            assert(granted[i] == a[i]);
        } else if i < a.len() + b.len() {
            assert(granted[i] == b[i - a.len()]);
        } else if i < a.len() + b.len() + c.len() {
            assert(granted[i] == c[i - a.len() - b.len()]);
        } else {
            assert(granted[i] == d[i - a.len() - b.len() - c.len()]);
        }
    }
}

/// Downgrading changes a list's roles one by one and nothing else: every `Full` role becomes
/// `Executor`, every other role stays as it was, and the participants, their order and
/// everything else they carry are kept.
pub proof fn lemma_downgrade_changes_only_full_roles(new: ParticipantList, old: ParticipantList)
    requires
        is_downgrade_of(new, old),
    ensures
        new.sharer == old.sharer,
        new.absent_viewers@ == old.absent_viewers@,
        new.viewers@.len() == old.viewers@.len(),
        new.present_viewers@.len() == old.present_viewers@.len(),
        new.guests@.len() == old.guests@.len(),
        new.pending_guests@.len() == old.pending_guests@.len(),
        forall|i: int|
            0 <= i < old.viewers@.len() ==> {
                &&& #[trigger] new.viewers@[i].info == old.viewers@[i].info
                &&& new.viewers@[i].is_present == old.viewers@[i].is_present
                &&& new.viewers@[i].role == (if old.viewers@[i].role == Role::Full {
                    Role::Executor
                } else {
                    old.viewers@[i].role
                })
            },
        forall|i: int|
            0 <= i < old.present_viewers@.len() ==> {
                &&& #[trigger] new.present_viewers@[i].info == old.present_viewers@[i].info
                &&& new.present_viewers@[i].max_acl == (if old.present_viewers@[i].max_acl
                    == Role::Full {
                    Role::Executor
                } else {
                    old.present_viewers@[i].max_acl
                })
            },
        forall|i: int|
            0 <= i < old.guests@.len() ==> {
                &&& #[trigger] new.guests@[i].profile_data == old.guests@[i].profile_data
                &&& new.guests@[i].direct_acl == (if old.guests@[i].direct_acl == Role::Full {
                    Role::Executor
                } else {
                    old.guests@[i].direct_acl
                })
            },
        forall|i: int|
            0 <= i < old.pending_guests@.len() ==> {
                &&& #[trigger] new.pending_guests@[i].email == old.pending_guests@[i].email
                &&& new.pending_guests@[i].direct_acl == (if old.pending_guests@[i].direct_acl
                    == Role::Full {
                    Role::Executor
                } else {
                    old.pending_guests@[i].direct_acl
                })
            },
{
}

/// Downgrading a list a second time changes nothing.
pub proof fn lemma_list_downgrade_is_idempotent(
    once: ParticipantList,
    twice: ParticipantList,
    original: ParticipantList,
)
    requires
        is_downgrade_of(once, original),
        is_downgrade_of(twice, once),
    ensures
        twice.sharer == once.sharer,
        twice.viewers@ == once.viewers@,
        twice.present_viewers@ == once.present_viewers@,
        twice.absent_viewers@ == once.absent_viewers@,
        twice.guests@ == once.guests@,
        twice.pending_guests@ == once.pending_guests@,
{
    assert(twice.viewers@ =~= once.viewers@);
    assert(twice.present_viewers@ =~= once.present_viewers@);
    assert(twice.guests@ =~= once.guests@);
    assert(twice.pending_guests@ =~= once.pending_guests@);
}

} // verus!

verus! {

/// Information received from fetching and processing the participant list.
pub struct ParticipantListInfo {
    /// The full list of participants in a shared session.
    pub list: ParticipantList,
    /// The list of present participants who do not have access to the session.
    pub viewers_without_access: Vec<ParticipantId>,
}

} // verus!
