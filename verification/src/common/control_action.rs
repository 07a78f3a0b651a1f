use super::ids::{is_random_uuid_text, random_uuid_text};
use super::ServerConversationToken;
use vstd::prelude::*;

verus! {

/// A unique id to track control action requests.
#[derive(Clone, Debug)]
pub struct ControlActionRequestId(String);

impl View for ControlActionRequestId {
    type V = Seq<char>;

    closed spec fn view(&self) -> Seq<char> {
        self.0@
    }
}

impl From<String> for ControlActionRequestId {
    fn from(value: String) -> (r: Self)
        ensures
            r@ == value@,
    {
        ControlActionRequestId(value)
    }
}

impl vstd::std_specs::convert::FromSpecImpl<String> for ControlActionRequestId {
    open spec fn obeys_from_spec() -> bool {
        true
    }

    closed spec fn from_spec(v: String) -> Self {
        ControlActionRequestId(v)
    }
}

impl ControlActionRequestId {
    /// A fresh id: the text of a random version-4 UUID.
    #[allow(clippy::new_without_default)]
    pub fn new() -> (r: Self)
        ensures
            is_random_uuid_text(r@),
    {
        Self(random_uuid_text())
    }

    /// Returns the underlying opaque id string.
    pub fn id(&self) -> (r: &str)
        ensures
            r@ == self@,
    {
        self.0.as_str()
    }
}

/// Higher-level control messages that don't correspond 1:1 to terminal actions/inputs
/// (or imply a warp-specific action outside of their normal terminal use).
#[derive(Clone, Debug)]
pub enum ControlAction {
    /// Request that a shared-session AI conversation be cancelled by the sharer.
    CancelConversation { server_conversation_token: ServerConversationToken },
}

/// Reasons a control action request from a viewer might fail.
#[derive(Clone, Copy, Debug)]
pub enum ControlActionFailureReason {
    /// The viewer does not have permission to perform this control action.
    InsufficientPermissions,
    /// The session no longer exists.
    SessionNotFound,
    /// There is no sharer currently connected to handle the action.
    SharerUnavailable,
    /// Unexpected, something went wrong in the server.
    InternalServerError,
}

} // verus!
