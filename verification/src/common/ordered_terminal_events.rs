use super::text::{byte_len, utf8_len};
use super::{BlockId, ByteCount, ParticipantId, SemanticCursor};
use vstd::prelude::*;

verus! {

/// AI metadata for correlating terminal blocks with agent commands.
/// This allows viewers in shared sessions to associate terminal command blocks
/// with the agent tool calls that triggered them.
#[derive(Clone, Debug)]
pub struct AICommandMetadata {
    /// The tool call ID from the Multi-Agent API protocol.
    /// Corresponds to action_id on the sharer side.
    pub tool_call_id: String,
    /// Whether this command is being monitored by an agent as a long-running command.
    pub is_agent_monitored: bool,
}

/// Types of terminal events that need to be ordered against each other.
#[derive(Clone)]
pub enum OrderedTerminalEventType {
    /// Bytes read off the sharer's pty (session contents).
    PtyBytesRead { bytes: Vec<u8> },
    /// A command is beginning to execute.
    CommandExecutionStarted {
        /// The ID of the participant who ran the command.
        participant_id: ParticipantId,
        /// AI metadata if this command was executed by an agent.
        ai_metadata: Option<AICommandMetadata>,
    },
    CommandExecutionFinished { next_block_id: BlockId },
    /// The sharer's terminal was resized.
    Resize { window_size: WindowSize },
    /// The sharer received an AI agent response event. Response events include all
    /// information needed to reconstruct a conversation, including the start and end of
    /// individual requests, incremental agent output, and echoed user messages and tool
    /// call results.
    AgentResponseEvent {
        /// The ID of the participant who sent the query to initiate this agent response.
        response_initiator: Option<ParticipantId>,
        /// The base64-encoded MAA ResponseEvent protocol buffer message.
        response_event: String,
        /// For forked conversations, this is the original conversation token that the
        /// conversation was forked from. Viewers use this to link the new server-assigned
        /// conversation token to an existing conversation created during historical replay.
        forked_from_conversation_token: Option<String>,
    },
    /// Marks the start of historical agent conversation replay.
    /// Viewers should use this to suppress live-conversation specific actions until replay ends
    /// (e.g. the insertion of the ambient agent conversation tombstone).
    AgentConversationReplayStarted,
    /// Marks the end of historical agent conversation replay.
    AgentConversationReplayEnded,
    /// Emitted by the sandboxed Oz AgentDriver when the cloud-mode setup phase is complete but no
    /// initial LLM turn will follow (e.g. empty-prompt local-to-cloud handoff with `--skip-initial-turn`).
    CloudModeSetupPhaseEnded,
    /// A serialized ConversationMutation protobuf.
    ///
    /// Servers must only send this variant to an endpoint that positively
    /// negotiated SemanticConversationOnly and supports_semantic_conversation.
    SemanticConversationMutation { cursor: SemanticCursor, mutation: Vec<u8> },
}

/// Represents the size of a PTY. Mimics the winsize struct that
/// can be queried via [ioctl](https://man7.org/linux/man-pages/man2/ioctl_tty.2.html).
#[derive(Clone, Copy, Debug, Default)]
pub struct WindowSize {
    pub num_rows: usize,
    pub num_cols: usize,
}

/// The size of the data an event carries: the pty bytes, the encoded response event,
/// or the semantic mutation; other events carry none.
pub open spec fn event_size(event: OrderedTerminalEventType) -> nat {
    match event {
        OrderedTerminalEventType::PtyBytesRead { bytes } => bytes@.len(),
        OrderedTerminalEventType::AgentResponseEvent { response_event, .. } => utf8_len(
            response_event@,
        ) as nat,
        OrderedTerminalEventType::SemanticConversationMutation { mutation, .. } => mutation@.len(),
        _ => 0,
    }
}

/// An event's size is the data it carries: the PTY bytes read, the bytes of the agent
/// response event's text, or the bytes of the semantic mutation; every other event carries
/// none.
pub proof fn lemma_event_sizes(event: OrderedTerminalEventType)
    ensures
        event matches OrderedTerminalEventType::PtyBytesRead { bytes } ==> event_size(event)
            == bytes@.len(),
        event matches OrderedTerminalEventType::AgentResponseEvent { response_event, .. }
            ==> event_size(event) == utf8_len(response_event@),
        event matches OrderedTerminalEventType::SemanticConversationMutation { mutation, .. }
            ==> event_size(event) == mutation@.len(),
        !(event is PtyBytesRead || event is AgentResponseEvent
            || event is SemanticConversationMutation) ==> event_size(event) == 0,
{
}

impl OrderedTerminalEventType {
    /// Whether this variant is unknown to legacy peers and therefore requires
    /// positive semantic negotiation before it is sent.
    pub fn requires_semantic_support(&self) -> (r: bool)
        ensures
            r == (*self is SemanticConversationMutation),
    {
        match self {
            Self::SemanticConversationMutation { .. } => true,
            _ => false,
        }
    }

    pub fn num_bytes(&self) -> (r: ByteCount)
        ensures
            r@ == event_size(*self),
    {
        match self {
            OrderedTerminalEventType::PtyBytesRead { bytes } => ByteCount::from_usize(bytes.len()),
            OrderedTerminalEventType::AgentResponseEvent { response_event, .. } => {
                ByteCount::from_usize(byte_len(response_event))
            },
            OrderedTerminalEventType::SemanticConversationMutation { mutation, .. } => {
                ByteCount::from_usize(mutation.len())
            },
            OrderedTerminalEventType::CommandExecutionStarted { .. }
            | OrderedTerminalEventType::CommandExecutionFinished { .. }
            | OrderedTerminalEventType::AgentConversationReplayStarted
            | OrderedTerminalEventType::AgentConversationReplayEnded
            | OrderedTerminalEventType::CloudModeSetupPhaseEnded
            | OrderedTerminalEventType::Resize { .. } => ByteCount::from_u64(0),
        }
    }
}

/// Any terminal event where strict ordering against other terminal events is important.
#[derive(Clone)]
pub struct OrderedTerminalEvent {
    pub event_no: usize,
    pub event_type: OrderedTerminalEventType,
}

impl OrderedTerminalEvent {
    pub fn requires_semantic_support(&self) -> (r: bool)
        ensures
            r == (self.event_type is SemanticConversationMutation),
    {
        self.event_type.requires_semantic_support()
    }

    pub fn num_bytes(&self) -> (r: ByteCount)
        ensures
            r@ == event_size(self.event_type),
    {
        self.event_type.num_bytes()
    }
}

} // verus!
