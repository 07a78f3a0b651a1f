//! The message types that are communicated between the
//! server and a sharer client.
//!
//! When a client wants to create a shared session, the client
//! will make a request against /sessions/create. The client
//! must then send an [`UpstreamMessage::Initialize`] message with the relevant data
//! to start the shared session. If successful, the server
//! will acknowledge the creation of the shared
//! session via the [`DownstreamMessage::SessionInitialized`] message.
//!
//! Every field added to these messages needs a default on the wire for backward
//! compatibility, since old clients may not specify new fields expected by the server.
use crate::common::event_size;
use crate::common::input::op_sizes;
use crate::common::{
    block_sizes, saturated, total, ActivePrompt, ActivePromptUpdate, AgentPromptFailureReason,
    AgentPromptRequest, AgentPromptRequestId, BlockId, BufferId, ByteCount,
    CommandExecutionFailureReason, CommandExecutionRequestId, ControlAction,
    ControlActionFailureReason, ControlActionRequestId, FeatureSupport, InputOperationId,
    InputReplicaId, InputUpdate, InputUpdateFailureReason, OrderedTerminalEvent, ParticipantId,
    ParticipantList, ParticipantPresenceUpdate, Role, RoleRequestId, RoleRequestResponse,
    Scrollback, Selection, SelectionUpdate, ServerConversationToken, SessionId, SessionSecret,
    TelemetryContext, UniversalDeveloperInputContext, UniversalDeveloperInputContextUpdate,
    UserID, WindowSize, WriteToPtyFailureReason, WriteToPtyRequestId,
};
use crate::common::ids::{is_random_uuid_text, random_uuid_text};
use vstd::prelude::*;

// Permission response types live in `common::permissions`; they are re-exported here for
// backward compatibility.
pub use crate::common::{
    AddGuestsResponse, FailedToAddGuestsReason, FailedToRemoveGuestReason,
    FailedToUpdatePendingUserRoleReason, FailedToUpdateTeamAccessLevelReason,
    LinkAccessLevelUpdateResponse, RemoveGuestResponse, TeamAccessLevelUpdateResponse,
    UpdatePendingUserRoleResponse,
};

verus! {

/// Possible reasons why the server might gracefully terminate
/// a shared session.
#[derive(Clone, Debug)]
pub enum SessionTerminatedReason {
    /// Unknown error occurred. Session cannot continue.
    InternalServerError {
        /// Details about what happened. This should
        /// 1. only be provided to the sharer client,
        /// 2. not necessarily be user-facing, and
        /// 3. clients should _not_ try to match on the exact message
        details: String,
    },
    /// The session exceeded its size limit.
    ExceededSizeLimit,
    /// The user does not have any more quota remaining.
    NoUserQuotaRemaining {},
}

impl SessionTerminatedReason {
    pub fn internal_server_error<T: Into<String>>(details: T) -> (r: Self)
        ensures
            r matches SessionTerminatedReason::InternalServerError { details: text } && call_ensures(
                <T as Into<String>>::into,
                (details,),
                text,
            ),
    {
        Self::InternalServerError { details: details.into() }
    }

    pub fn internal_server_error_without_details() -> (r: Self)
        ensures
            r matches SessionTerminatedReason::InternalServerError { details } && details@ == Seq::<char>::empty(),
    {
        Self::internal_server_error(String::new())
    }
}

/// Client-side reasons for ending the shared session.
#[derive(Clone, Copy, Debug)]
pub enum SessionEndedReason {
    /// The session was ended gracefully.
    EndedBySharer,
    /// The sharer was idle for too long.
    InactivityLimitReached,
    /// The session exceeded its size limit.
    ExceededSizeLimit,
}

#[derive(Debug)]
pub enum ReconnectionFailedReason {
    /// Unexpected, means something went wrong in the server.
    Invalid,
    /// The session with the specified ID does not exist.
    SessionNotFound,
    /// The specified password was incorrect.
    WrongPassword,
    /// The specified reconnection token was incorrect.
    WrongReconnectionToken,
    /// The firebase ID of the sharer was missing or doesn't match the original one.
    WrongFirebaseUid,
    /// The sharer does not have any remaining quota.
    NoUserQuotaRemaining,
    /// The session is not accessible.
    SessionNotAccessible,
}

#[derive(Default, Debug, Clone, Copy, PartialEq, Eq, Structural)]
pub enum RoleUpdateReason {
    #[default]
    UpdatedBySharer,
    InactivityLimitReached,
}

#[derive(Debug, Clone, Copy)]
pub enum QuotaType {
    BytesUsed,
    SessionsCreated,
}

/// The reasons we might fail to initialize a new session.
#[derive(Clone, Debug)]
pub enum FailedToInitializeSessionReason {
    /// The scrollback exceeds the user's quota.
    ScrollbackTooLarge {},
    /// The sharer does not have any remaining quota.
    NoUserQuotaRemaining { quota_type: QuotaType },
    /// The sharer could not be attributed to a Warp user.
    UserNotFound,
    /// Something unexpectedly went wrong.
    InternalServerError {
        /// Details about what happened. This should
        /// not necessarily be user-facing, and clients should
        /// _not_ try to match on the exact message.
        details: String,
    },
}

impl FailedToInitializeSessionReason {
    pub fn internal_server_error_without_details() -> (r: Self)
        ensures
            r matches FailedToInitializeSessionReason::InternalServerError { details } && details@ == Seq::<char>::empty(),
    {
        FailedToInitializeSessionReason::InternalServerError { details: String::new() }
    }
}

#[derive(Clone, Debug)]
pub enum SessionSourceType {
    /// The session was started by a user directly.
    User,
    /// The session was started in the course of spinning up an ambient agent.
    AmbientAgent { task_id: Option<String> },
}

impl Default for SessionSourceType {
    fn default() -> (r: Self)
        ensures
            r is User,
    {
        SessionSourceType::User
    }
}

/// The two shapes in which a [`SessionSourceType`] arrives on the wire: the legacy
/// unit-variant form and the new struct-variant form.
pub enum SessionSourceTypeWire {
    /// Legacy representation: bare `"User"` or `"AmbientAgent"`.
    Legacy(LegacySessionSourceType),
    /// New representation: externally tagged `AmbientAgent` with fields, e.g.
    /// `{ "AmbientAgent": { "task_id": "..." } }`.
    New { ambient_agent: AmbientAgentFields },
}

/// The fields of the new `AmbientAgent` form.
pub struct AmbientAgentFields {
    pub task_id: Option<String>,
}

/// The source type that a wire form stands for: the legacy forms carry no task id.
pub open spec fn source_of_wire(wire: SessionSourceTypeWire) -> SessionSourceType {
    match wire {
        SessionSourceTypeWire::Legacy(LegacySessionSourceType::User) => SessionSourceType::User,
        SessionSourceTypeWire::Legacy(LegacySessionSourceType::AmbientAgent) => SessionSourceType::AmbientAgent {
            task_id: None,
        },
        SessionSourceTypeWire::New { ambient_agent } => SessionSourceType::AmbientAgent {
            task_id: ambient_agent.task_id,
        },
    }
}

impl From<SessionSourceTypeWire> for SessionSourceType {
    fn from(value: SessionSourceTypeWire) -> (r: Self)
        ensures
            r == source_of_wire(value),
    {
        match value {
            SessionSourceTypeWire::Legacy(LegacySessionSourceType::User) => SessionSourceType::User,
            SessionSourceTypeWire::Legacy(LegacySessionSourceType::AmbientAgent) => {
                SessionSourceType::AmbientAgent { task_id: None }
            },
            SessionSourceTypeWire::New { ambient_agent } => SessionSourceType::AmbientAgent {
                task_id: ambient_agent.task_id,
            },
        }
    }
}

impl vstd::std_specs::convert::FromSpecImpl<SessionSourceTypeWire> for SessionSourceType {
    open spec fn obeys_from_spec() -> bool {
        true
    }

    open spec fn from_spec(value: SessionSourceTypeWire) -> Self {
        source_of_wire(value)
    }
}

#[derive(Clone, Debug, PartialEq, Eq, Structural)]
pub enum LegacySessionSourceType {
    User,
    AmbientAgent,
}

impl Default for LegacySessionSourceType {
    fn default() -> (r: Self)
        ensures
            r == LegacySessionSourceType::User,
    {
        LegacySessionSourceType::User
    }
}

/// The legacy form of a source type: whether it is a user or an ambient agent.
pub open spec fn legacy_of(source: SessionSourceType) -> LegacySessionSourceType {
    match source {
        SessionSourceType::User => LegacySessionSourceType::User,
        SessionSourceType::AmbientAgent { .. } => LegacySessionSourceType::AmbientAgent,
    }
}

impl<'a> From<&'a SessionSourceType> for LegacySessionSourceType {
    fn from(value: &'a SessionSourceType) -> (r: Self)
        ensures
            r == legacy_of(*value),
    {
        match value {
            SessionSourceType::User => LegacySessionSourceType::User,
            SessionSourceType::AmbientAgent { .. } => LegacySessionSourceType::AmbientAgent,
        }
    }
}

impl<'a> vstd::std_specs::convert::FromSpecImpl<&'a SessionSourceType> for LegacySessionSourceType {
    open spec fn obeys_from_spec() -> bool {
        true
    }

    open spec fn from_spec(value: &'a SessionSourceType) -> Self {
        legacy_of(*value)
    }
}

/// Reading a legacy wire form and writing the legacy form back gives the same form.
pub proof fn lemma_legacy_source_round_trip(legacy: LegacySessionSourceType)
    ensures
        legacy_of(source_of_wire(SessionSourceTypeWire::Legacy(legacy))) == legacy,
{
}

/// Configures the lifetime of the session after sharing ends.
#[derive(Clone, Copy, Debug, Default)]
pub enum Lifetime {
    /// The session is deleted immediately when sharing ends.
    #[default]
    Ephemeral,
    /// The session persists after sharing ends.
    ///
    /// It is not specified how long a lingering session is available for after it ends.
    /// Currently, all session contents expire after one week, but this is a server implementation
    /// detail that clients must not rely on. In the future, we may expose a lifetime option that
    /// includes a client-provided TTL.
    Lingering,
}

/// The reasons the sharer may request extended retention for a shared session.
#[derive(Clone, Copy, Debug, Default)]
pub enum SessionRetentionReason {
    /// Environment setup failed. The session should remain available so users can inspect setup
    /// command output from the shared session link after the sandbox shuts down.
    #[default]
    SetupFailed,
}

/// The initial state that the sharer must supply when starting
/// a shared session.
pub struct InitPayload {
    pub scrollback: Scrollback,
    pub active_prompt: ActivePrompt,
    pub window_size: WindowSize,
    pub user_id: UserID,
    /// What the sharer currently has selected for presence.
    pub selection: Selection,
    pub init_block_id: BlockId,
    pub input_replica_id: InputReplicaId,
    pub telemetry_context: Option<TelemetryContext>,
    pub lifetime: Lifetime,
    /// The universal developer input context state.
    pub universal_developer_input_context: Option<UniversalDeveloperInputContext>,
    /// The source type for this shared session (i.e. user or ambient agent).
    pub source_type: SessionSourceType,
    /// Optional orchestrator `task_id` carried alongside `source_type`.
    /// Set when the sharer wants downstream orchestration discovery to find
    /// this share's children regardless of variant kind. Sidecar so the
    /// `User` variant can stay a unit and old viewers ignore it.
    pub source_task_id: Option<String>,
    /// Client feature support declaration.
    pub feature_support: FeatureSupport,
}

/// The reconnection token for a shared session.
/// A sharer must specify this to reconnect to the session and resume sharing.
/// The client should treat this as some opaque string.
#[derive(Hash, Eq, PartialEq, Clone)]
pub struct ReconnectToken(String);

impl View for ReconnectToken {
    type V = Seq<char>;

    closed spec fn view(&self) -> Seq<char> {
        self.0@
    }
}

impl ReconnectToken {
    /// A fresh token: the text of a random version-4 UUID.
    pub fn new() -> (r: Self)
        ensures
            is_random_uuid_text(r@),
    {
        Self(random_uuid_text())
    }

    /// Reads a token from the route text as it is; this never fails.
    pub fn from_str(s: &str) -> (r: Result<Self, core::convert::Infallible>)
        ensures
            r matches Ok(token) && token@ == s@,
    {
        Ok(ReconnectToken(s.to_string()))
    }

    /// The token's text itself, for the wire.
    pub fn as_str(&self) -> (r: &str)
        ensures
            r@ == self@,
    {
        self.0.as_str()
    }

    /// The token as its `Display` writes it: a mask, so that it does not leak by accident.
    pub fn to_string(&self) -> (r: String)
        ensures
            r@ == "***"@,
    {
        String::from("***")
    }
}

impl Default for ReconnectToken {
    fn default() -> (r: Self)
        ensures
            is_random_uuid_text(r@),
    {
        Self::new()
    }
}

/// Payload sharer must supply to reconnect to an existing shared session
/// when the websocket was terminated by the server.
pub struct ReconnectPayload {
    pub session_secret: SessionSecret,
    pub reconnect_token: ReconnectToken,
    pub user_id: UserID,
    /// The ID of the latest block when reconnecting.
    /// This allows the sharer to catch up on any
    /// missed input updates while they were disconnected.
    pub latest_block_id: BlockId,
    /// What the sharer currently has selected for presence.
    pub selection: Selection,
    /// Client feature support declaration.
    pub feature_support: FeatureSupport,
}

/// The possible messages sent from server to client (sharer).
#[allow(inconsistent_fields)]
pub enum DownstreamMessage {
    /// The server sends this message when the session was successfully created.
    SessionInitialized {
        session_id: SessionId,
        session_secret: SessionSecret,
        reconnect_token: ReconnectToken,
        /// The ID assigned to the sharer
        sharer_id: ParticipantId,
        /// The Firebase UID assigned to the sharer.
        sharer_firebase_uid: String,
    },
    /// The server denied the initialization request. No further messages will be processed.
    FailedToInitializeSession { reason: FailedToInitializeSessionReason },
    /// The session was terminated. No further messages
    /// will be processed.
    SessionTerminated { reason: SessionTerminatedReason },
    /// The server accepted the reconnection request.
    SessionReconnected {
        /// The last event no received by the server.
        /// The sharer can use this to update the server with any newer events created while disconnected.
        last_received_event_no: Option<usize>,
        participant_list: ParticipantList,
    },
    /// The server denied the reconnection request. No further messages will be processed.
    FailedToReconnect { reason: ReconnectionFailedReason },
    /// The server sends this to confirm it has fully processed events up to the latest_processed_event_no,
    /// and the sharer can safely remove them from memory.
    EventsProcessedAck { latest_processed_event_no: usize },
    /// Sent when the list of participants in the shared session changes.
    ParticipantListUpdated(ParticipantList),
    /// Sent when a participant's presence changes.
    ParticipantPresenceUpdated(ParticipantPresenceUpdate),
    /// The participant (identified by `participant_id`) requested the `role` role.
    RoleRequested { participant_id: ParticipantId, request_id: RoleRequestId, role: Role },
    /// The participant (identified by `participant_id`) has cancelled their role request.
    RoleRequestCancelled { participant_id: ParticipantId, request_id: RoleRequestId },
    /// A participant's (identified by `participant_id`) role was updated.
    ParticipantRoleChanged { participant_id: ParticipantId, role: Role },
    /// A participant requested a control action (e.g. cancel conversation).
    ControlActionRequested {
        participant_id: ParticipantId,
        request_id: ControlActionRequestId,
        action: ControlAction,
    },
    /// The input was updated by a participant.
    /// When we receive our own update, we can treat it as an ack.
    InputUpdated(InputUpdate),
    /// The rejection was successfully applied (does not need to be retried by the client).
    InputUpdateRejectedAck { id: InputOperationId },
    /// A participant requested that the given `command` be run in the given buffer.
    CommandExecutionRequested {
        id: CommandExecutionRequestId,
        participant_id: ParticipantId,
        buffer_id: BufferId,
        command: String,
    },
    /// A participant requested to write to the pty, specifically for a long running command.
    WriteToPtyRequested { id: WriteToPtyRequestId, bytes: Vec<u8> },
    /// A participant requested to send an agent prompt.
    AgentPromptRequested {
        id: AgentPromptRequestId,
        participant_id: ParticipantId,
        request: AgentPromptRequest,
    },
    /// The sharer's link access level update request was responded to.
    LinkAccessLevelUpdateResponse(LinkAccessLevelUpdateResponse),
    /// The request to add guests was responded to.
    AddGuestsResponse(AddGuestsResponse),
    /// The request to remove a guest was responded to.
    RemoveGuestResponse(RemoveGuestResponse),
    /// The request to update a pending user role was responded to.
    UpdatePendingUserRoleResponse(UpdatePendingUserRoleResponse),
    /// The sharer's team access level update request was responsed to.
    TeamAccessLevelUpdateResponse(TeamAccessLevelUpdateResponse),
    /// Update to the universal developer input context from sharer or editor viewers.
    UniversalDeveloperInputContextUpdated(UniversalDeveloperInputContextUpdate),
    /// A viewer reported its terminal size.
    /// Used for remote-control sessions where the viewer's viewport should drive the PTY size.
    ViewerTerminalSizeReported { participant_id: ParticipantId, window_size: WindowSize },
    /// A response to a [`UpstreamMessage::Ping`].
    /// Used to demonstrate that the server is still alive.
    Pong { data: Vec<u8> },
}

/// The possible messages sent from client (sharer) to server.
#[allow(inconsistent_fields)]
pub enum UpstreamMessage {
    /// The client sends this message to start a shared session.
    /// supplying any necessary initial state.
    Initialize(InitPayload),
    /// A heartbeat message to demonstrate that the
    /// client is still alive.
    Ping { data: Vec<u8> },
    /// The client sends this message to explicitly end a session
    /// and notify viewers before the websocket closes.
    EndSession { reason: SessionEndedReason },
    /// The client sends this message to request that the server retain session data longer than
    /// normal after sharing ends.
    ExtendSessionRetention { reason: SessionRetentionReason },
    /// Update to the sharer's active prompt.
    UpdateActivePrompt(ActivePromptUpdate),
    /// Update to the universal developer input context (model selection, etc.).
    UpdateUniversalDeveloperInputContext(UniversalDeveloperInputContextUpdate),
    /// Sent when there is any ordered terminal event.
    OrderedTerminalEvent(OrderedTerminalEvent),
    /// Sent to reconnect to the server after disconnection.
    Reconnect(ReconnectPayload),
    /// Sent when the sharer changes what they have selected.
    UpdateSelection(SelectionUpdate),
    /// Changes the participant's (identified by `participant_id`) role.
    UpdateRole { participant_id: ParticipantId, role: Role },
    /// Changes the user's role (applied to all participants with the same UID).
    UpdateUserRole { user_uid: String, role: Role },
    /// Changes the pending user's role (applied to all participants with the same UID).
    UpdatePendingUserRole { email: String, role: Role },
    /// Responds to the participant's (identified by `participant_id`) role request.
    RespondToRoleRequest {
        participant_id: ParticipantId,
        request_id: RoleRequestId,
        response: RoleRequestResponse,
    },
    /// Updates all participants' roles to be [Role::Reader].
    UpdateAllRolesToReader { reason: RoleUpdateReason },
    /// The sharer updated the input.
    UpdateInput(InputUpdate),
    /// The given operation should be undone on all participants.
    RejectInputUpdate { id: InputOperationId, reason: InputUpdateFailureReason },
    /// The given command execution request was denied for the specified `reason`.
    RejectCommandExecutionRequest {
        id: CommandExecutionRequestId,
        participant_id: ParticipantId,
        reason: CommandExecutionFailureReason,
    },
    /// The given write to pty request was denied for the specified `reason`.
    RejectWriteToPtyRequest { id: WriteToPtyRequestId, reason: WriteToPtyFailureReason },
    /// The given agent prompt request was denied for the specified `reason`.
    RejectAgentPromptRequest {
        id: AgentPromptRequestId,
        participant_id: ParticipantId,
        reason: AgentPromptFailureReason,
        /// Echoes the originating request's idempotency key when it was a bootstrap
        /// request, so the server can persist the rejection under the same key a caller's
        /// retry will look up. `None` for an ordinary rejection.
        idempotency_key: Option<String>,
    },
    /// Reports the conversation the sharer created or reused for a bootstrap agent prompt
    /// request that carried no `server_conversation_token`. Never sent for an ordinary agent
    /// prompt request, since the server already knows that conversation's token by other
    /// means. The server must persist this before the request may be treated as delivered:
    /// a lost acknowledgement here is what would otherwise let a retry start a second,
    /// independent conversation.
    AcknowledgeAgentPromptRequest {
        id: AgentPromptRequestId,
        participant_id: ParticipantId,
        server_conversation_token: ServerConversationToken,
        /// Echoes the originating request's idempotency key, which the server correlates
        /// against its own pending wait for this bootstrap's result.
        idempotency_key: String,
    },
    /// The given control action request was denied for the specified `reason`.
    RejectControlActionRequest {
        participant_id: ParticipantId,
        request_id: ControlActionRequestId,
        reason: ControlActionFailureReason,
    },
    /// The sharer updated the session's link permissions.
    UpdateLinkAccessLevel { role: Option<Role> },
    /// The sharer updated the session's team permissions.
    UpdateTeamAccessLevel { team_uid: String, role: Option<Role> },
    /// The sharer added users as session guests by email.
    AddGuests { emails: Vec<String>, role: Role },
    /// The sharer removed a user as a session guest.
    RemoveGuest { user_uid: String },
    /// The sharer removed a pending user as a session guest.
    RemovePendingGuest { email: String },
}

/// The size of the session data a sharer message carries, which the session accounts for:
/// the scrollback of an initialization, an ordered event's data, or an input update's
/// operations; other messages carry none.
pub open spec fn upstream_size(message: UpstreamMessage) -> u64 {
    match message {
        UpstreamMessage::Initialize(init) => saturated(total(block_sizes(init.scrollback.blocks@))),
        UpstreamMessage::OrderedTerminalEvent(event) => event_size(event.event_type) as u64,
        UpstreamMessage::UpdateInput(update) => saturated(total(op_sizes(update.ops@))),
        _ => 0,
    }
}

impl UpstreamMessage {
    pub fn num_bytes(&self) -> (r: ByteCount)
        ensures
            r@ == upstream_size(*self),
    {
        match self {
            UpstreamMessage::Initialize(init_payload) => init_payload.scrollback.num_bytes(),
            UpstreamMessage::OrderedTerminalEvent(ordered_terminal_event) => {
                ordered_terminal_event.num_bytes()
            },
            UpstreamMessage::UpdateInput(input_update) => input_update.num_bytes(),
            _ => ByteCount::from_u64(0),
        }
    }
}

/// The size of a sharer message is the data it carries: an initialization counts its
/// scrollback's blocks, an ordered event its own size, an input update its operations (each
/// saturating at `u64::MAX`); every other message counts nothing.
pub proof fn lemma_sharer_message_sizes(message: UpstreamMessage)
    ensures
        message matches UpstreamMessage::Initialize(init) ==> upstream_size(message) == saturated(
            total(block_sizes(init.scrollback.blocks@)),
        ),
        message matches UpstreamMessage::OrderedTerminalEvent(event) ==> (event_size(
            event.event_type,
        ) <= u64::MAX ==> upstream_size(message) == event_size(event.event_type)),
        message matches UpstreamMessage::UpdateInput(update) ==> upstream_size(message) == saturated(
            total(op_sizes(update.ops@)),
        ),
        !(message is Initialize || message is OrderedTerminalEvent || message is UpdateInput)
            ==> upstream_size(message) == 0,
{
}

} // verus!
