use super::ids::{
    hyphenated, is_random_uuid_text, is_random_v4, parse_uuid, parsed_uuid, random_uuid_bits,
    random_uuid_text, uuid_bits, uuid_from_bits, uuid_text, uuid_with_bits,
};
use super::BlockId;
use uuid::Uuid;
use vstd::prelude::*;

verus! {

/// An opaque id to track agent prompt requests from viewers.
#[derive(Clone, Debug, PartialEq, Eq, Hash)]
pub struct AgentPromptRequestId(String);

impl View for AgentPromptRequestId {
    type V = Seq<char>;

    closed spec fn view(&self) -> Seq<char> {
        self.0@
    }
}

impl From<String> for AgentPromptRequestId {
    fn from(value: String) -> (r: Self)
        ensures
            r@ == value@,
    {
        AgentPromptRequestId(value)
    }
}

impl vstd::std_specs::convert::FromSpecImpl<String> for AgentPromptRequestId {
    open spec fn obeys_from_spec() -> bool {
        true
    }

    closed spec fn from_spec(v: String) -> Self {
        AgentPromptRequestId(v)
    }
}

impl AgentPromptRequestId {
    /// The id's text.
    pub fn as_str(&self) -> (r: &str)
        ensures
            r@ == self@,
    {
        self.0.as_str()
    }

    /// A fresh id: the text of a random version-4 UUID.
    pub fn new() -> (r: Self)
        ensures
            is_random_uuid_text(r@),
    {
        Self(random_uuid_text())
    }
}

impl Default for AgentPromptRequestId {
    fn default() -> (r: Self)
        ensures
            is_random_uuid_text(r@),
    {
        Self::new()
    }
}

/// A set of reasons for which an agent prompt request might fail.
#[derive(Clone, Debug)]
pub enum AgentPromptFailureReason {
    /// The viewer does not have sufficient permissions to send agent prompts.
    InsufficientPermissions,
    /// The conversation ID provided is invalid or doesn't exist.
    InvalidConversation,
    /// There is a long running command that is already in progress.
    CommandInProgress,
}

/// Represents an AI agent attachment that can be sent with a prompt.
/// This is a simplified version for the protocol - the sharer will reconstruct
/// the full attachment from the block ID.
#[derive(Clone, Debug)]
pub enum AgentAttachment {
    /// A reference to a terminal block by ID.
    /// The sharer will resolve this to the actual block content.
    BlockReference { block_id: BlockId },
    /// Plain text attachment (e.g., clipboard content).
    PlainText { content: String },
    /// A reference to a file that has been uploaded to GCS.
    /// The host fetches download URLs directly from warp-server using the attachment ID.
    FileReference { attachment_id: String, file_name: String },
}

/// An optional server conversation token for continuing an existing agent conversation,
/// held as the 128 bits of its UUID.
/// The id provided here is 1:1 with the ServerConversationToken used on the client/server (not AIAgentConversationId).
/// If no token is provided, a new conversation will be started.
#[derive(Clone, Debug, PartialEq, Eq, Hash, Copy, Structural)]
pub struct ServerConversationToken(u128);

impl View for ServerConversationToken {
    type V = u128;

    closed spec fn view(&self) -> u128 {
        self.0
    }
}

/// Conversation tokens are equal exactly when their UUID bits are.
pub proof fn lemma_conversation_token_view_injective(
    a: ServerConversationToken,
    b: ServerConversationToken,
)
    ensures
        (a == b) <==> (a@ == b@),
{
}

impl ServerConversationToken {
    /// A fresh token from a random version-4 UUID.
    pub fn new() -> (r: Self)
        ensures
            is_random_v4(r@),
    {
        Self(random_uuid_bits())
    }

    pub fn from_uuid(uuid: Uuid) -> (r: Self)
        ensures
            uuid_with_bits(r@) == uuid,
    {
        Self(uuid_bits(&uuid))
    }

    pub fn as_uuid(&self) -> (r: Uuid)
        ensures
            r == uuid_with_bits(self@),
    {
        uuid_from_bits(self.0)
    }

    /// The token as its `Display` writes it: the hyphenated lowercase UUID.
    pub fn to_string(&self) -> (r: String)
        ensures
            r@ == hyphenated(self@),
            parsed_uuid(r@) == Some(self@),
    {
        uuid_text(self.0)
    }

    /// Reads a token from UUID text; fails with the `uuid` crate's error where it does not parse.
    pub fn from_str(s: &str) -> (r: Result<Self, uuid::Error>)
        ensures
            match r {
                Ok(token) => parsed_uuid(s@) == Some(token@),
                Err(_) => parsed_uuid(s@) is None,
            },
    {
        match parse_uuid(s) {
            Ok(bits) => Ok(Self(bits)),
            Err(e) => Err(e),
        }
    }
}

impl Default for ServerConversationToken {
    fn default() -> (r: Self)
        ensures
            is_random_v4(r@),
    {
        Self::new()
    }
}

/// The data for an agent prompt request from a viewer.
#[derive(Clone, Debug)]
pub struct AgentPromptRequest {
    /// Unique identifier for this request.
    pub id: AgentPromptRequestId,
    /// The server conversation token to continue. If None, start a new conversation.
    /// This is the server_conversation_token that links viewer and sharer conversations.
    pub server_conversation_token: Option<ServerConversationToken>,
    /// The user's prompt/query.
    pub prompt: String,
    /// Optional attachments (blocks, files, etc.) referenced in the prompt.
    pub attachments: Vec<AgentAttachment>,
    /// Idempotency key for a bootstrap request: set, together with a
    /// `server_conversation_token` of `None`, when the request comes from an authenticated
    /// server-side injection that must create or reuse exactly one conversation.
    /// `None` for an ordinary agent prompt request from a live viewer.
    ///
    /// The key exists so the injector can correlate a retry with its original attempt.
    /// Deduplication belongs to the session-sharing service, which claims the key before
    /// injecting, so a retry of a key it has already answered does not reach the sharer. The
    /// sharer is not required to keep per-key state.
    pub idempotency_key: Option<String>,
    /// An encoded envelope attributing the user query, base64 text that the decoder at the
    /// destination interprets. The relay passes it on unchanged, even when it is malformed
    /// or empty, and counts its bytes in the session's size. `None` for a request that
    /// carries no attribution.
    pub user_query_attribution_b64: Option<String>,
}

} // verus!
