use super::ids::{is_random_uuid_text, random_uuid_text};
use vstd::prelude::*;

verus! {

/// An opaque id to track command execution requests.
#[derive(Clone, Debug)]
pub struct CommandExecutionRequestId(String);

impl View for CommandExecutionRequestId {
    type V = Seq<char>;

    closed spec fn view(&self) -> Seq<char> {
        self.0@
    }
}

impl From<String> for CommandExecutionRequestId {
    fn from(value: String) -> (r: Self)
        ensures
            r@ == value@,
    {
        CommandExecutionRequestId(value)
    }
}

impl vstd::std_specs::convert::FromSpecImpl<String> for CommandExecutionRequestId {
    open spec fn obeys_from_spec() -> bool {
        true
    }

    closed spec fn from_spec(v: String) -> Self {
        CommandExecutionRequestId(v)
    }
}

impl CommandExecutionRequestId {
    /// The id's text.
    pub fn as_str(&self) -> (r: &str)
        ensures
            r@ == self@,
    {
        self.0.as_str()
    }

    /// A fresh id: the text of a random version-4 UUID.
    #[allow(clippy::new_without_default)]
    pub fn new() -> (r: Self)
        ensures
            is_random_uuid_text(r@),
    {
        Self(random_uuid_text())
    }
}

/// A set of reasons for which a command execution request might fail.
#[derive(Clone, Debug)]
pub enum CommandExecutionFailureReason {
    /// The viewer does not have sufficient permissions to run commands.
    InsufficientPermissions,
    /// The buffer for which the command execution was requested is old.
    /// Specifically, there is either a newer buffer or a command
    /// is in-progress for the given buffer.
    StaleBuffer,
}

} // verus!
