//! The message types that are communicated between the
//! server and a viewer client.
//!
//! When a client wants to join a shared session, the client
//! will make a request against /sessions/join/:uuid. The client
//! must then send an [`UpstreamMessage::Initialize`] message with the relevant data
//! to join the shared session. If successful, the server
//! will acknowledge the joining of the shared
//! session via the [`DownstreamMessage::JoinedSuccessfully`] message.
//!
//! To reconnect to a shared session, the viewer can use the same
//! join endpoint, setting the init payload appropriately.
//! The server will acknowledge the rejoining via the
//! [`DownstreamMessage::RejoinedSuccessfully`] message.
use crate::common::input::op_sizes;
use crate::common::participant::{is_downgrade_of, lemma_downgraded_list_has_no_full_role, roles_granted};
use crate::common::roles::downgraded;
use crate::common::text::{byte_len, utf8_len};
use crate::common::{
    saturated, total, ActivePrompt, ActivePromptUpdate, AddGuestsResponse, AgentAttachment,
    AgentPromptFailureReason, AgentPromptRequest, AgentPromptRequestId, BlockId, BufferId,
    ByteCount, CommandExecutionFailureReason, CommandExecutionRequestId, ControlAction,
    ControlActionFailureReason, ExecutionIdentity, FeatureSupport, InputOperationId,
    InputReplicaId, InputUpdate, InputUpdateFailureReason, LinkAccessLevelUpdateResponse,
    NegotiatedSessionContent, OrderedTerminalEvent, ParticipantId, ParticipantList,
    ParticipantPresenceUpdate, RemoveGuestResponse, Role, RoleRequestId, RoleRequestResponse,
    Scrollback, SelectionUpdate, SemanticCursor, SemanticResyncReason, SessionContentMode,
    TeamAccessLevelUpdateResponse, TeamAclData, TelemetryContext, UniversalDeveloperInputContext,
    UniversalDeveloperInputContextUpdate, UpdatePendingUserRoleResponse, UserID, WindowSize,
    WriteToPtyFailureReason, WriteToPtyRequestId,
};
use crate::sharer::{self, LegacySessionSourceType, SessionSourceType};
use vstd::prelude::*;

verus! {

/// Sent by sharer client or server
/// when the shared session has been ended.
#[derive(Clone, Copy, Debug)]
pub enum SessionEndedReason {
    /// Unexpected, means something went wrong in the server.
    InternalServerError,
    /// The session was ended gracefully.
    EndedBySharer,
    /// The sharer was idle for too long.
    InactivityLimitReached,
    /// DEPRECATED
    ExceededSizeLimit,
}

#[derive(Clone, Debug)]
pub enum FailedToJoinReason {
    /// Unexpected, means something went wrong in the server.
    Invalid,
    SessionNotFound,
    WrongPassword,
    InternalServerError,
    MaxNumberOfParticipantsReached,
    SessionNotAccessible,
}

#[derive(Default, Debug, Clone, Copy, PartialEq, Eq, Structural)]
pub enum RoleUpdatedReason {
    #[default]
    UpdatedBySharer,
    InactivityLimitReached,
}

/// The reason a viewer is told for a role update that the sharer gave for it.
pub open spec fn updated_reason(reason: sharer::RoleUpdateReason) -> RoleUpdatedReason {
    match reason {
        sharer::RoleUpdateReason::UpdatedBySharer => RoleUpdatedReason::UpdatedBySharer,
        sharer::RoleUpdateReason::InactivityLimitReached => RoleUpdatedReason::InactivityLimitReached,
    }
}

impl From<sharer::RoleUpdateReason> for RoleUpdatedReason {
    fn from(value: sharer::RoleUpdateReason) -> (r: Self)
        ensures
            r == updated_reason(value),
    {
        match value {
            sharer::RoleUpdateReason::UpdatedBySharer => RoleUpdatedReason::UpdatedBySharer,
            sharer::RoleUpdateReason::InactivityLimitReached => {
                RoleUpdatedReason::InactivityLimitReached
            },
        }
    }
}

impl vstd::std_specs::convert::FromSpecImpl<sharer::RoleUpdateReason> for RoleUpdatedReason {
    open spec fn obeys_from_spec() -> bool {
        true
    }

    open spec fn from_spec(value: sharer::RoleUpdateReason) -> Self {
        updated_reason(value)
    }
}

#[derive(Clone, Copy, Debug)]
pub enum ViewerRemovedReason {
    LostAccess,
}

/// The initial state that the viewer must supply when joining or rejoining
/// a shared session.
pub struct InitPayload {
    /// The ID previously assigned to this viewer when joining.
    /// Should be specified if the viewer is rejoining.
    pub viewer_id: Option<ParticipantId>,
    pub user_id: UserID,
    /// If the viewer is reconnecting, they should specify the last event no received.
    /// The server will only send events after this event no.
    pub last_received_event_no: Option<usize>,
    /// The ID of the last block the viewer has seen.
    /// Should only be specified when re-joining.
    pub latest_block_id: Option<BlockId>,
    pub telemetry_context: Option<TelemetryContext>,
    /// Client feature support declaration.
    pub feature_support: FeatureSupport,
    /// Requested session content mode. Omitted on the legacy full-terminal wire.
    pub content_mode: SessionContentMode,
    /// Required when joining a semantic-only session.
    pub semantic_schema_version: Option<u32>,
    /// Exact execution expected by a semantic bootstrap caller.
    pub execution_identity: Option<ExecutionIdentity>,
    /// Last contiguous semantic mutation already applied by a rejoining viewer.
    pub semantic_cursor: Option<SemanticCursor>,
}

/// The possible messages sent from server to client (viewer).
#[allow(inconsistent_fields)]
#[derive(Clone)]
pub enum DownstreamMessage {
    /// The server sends this message when the session was successfully joined.
    JoinedSuccessfully {
        scrollback: Box<Scrollback>,
        /// The sharer's active prompt.
        active_prompt: ActivePrompt,
        /// The latest event no of the session the viewer will be catching up to.
        /// If None, there are no events to catch up to.
        latest_event_no: Option<usize>,
        window_size: WindowSize,
        participant_list: Box<ParticipantList>,
        /// The ID assigned to this viewer
        viewer_id: ParticipantId,
        /// The Firebase UID assigned to this viewer.
        viewer_firebase_uid: String,
        /// The block ID of the first block after scrollback.
        /// The viewer can use this to identify buffer updates for
        /// the first block.
        init_block_id: BlockId,
        input_replica_id: InputReplicaId,
        /// The universal developer input context (model selection, etc.).
        universal_developer_input_context: Option<UniversalDeveloperInputContext>,
        /// The legacy source type for this shared session (i.e. user or ambient agent).
        /// Deprecated: use `detailed_source_type` instead.
        source_type: LegacySessionSourceType,
        /// The detailed source type for this shared session.
        detailed_source_type: SessionSourceType,
        /// Optional orchestrator `task_id` carried alongside the source
        /// type, mirroring `sharer::InitPayload::source_task_id`. Lets
        /// viewers find this share's orchestrator task without keying
        /// off the source-type variant kind.
        source_task_id: Option<String>,
        /// Present only when the server positively negotiated semantic content.
        negotiated_content: Option<NegotiatedSessionContent>,
    },
    /// The server sends this message when the session was successfully rejoined.
    RejoinedSuccessfully {
        participant_list: Box<ParticipantList>,
        /// Present only when the server positively negotiated semantic content.
        negotiated_content: Option<NegotiatedSessionContent>,
    },
    /// The semantic session can no longer continue from its current cursor.
    ///
    /// Servers must not send this variant to an endpoint that did not positively
    /// negotiate semantic conversation support.
    SemanticResyncRequired { reason: SemanticResyncReason },
    /// Sent when the viewer fails to join the shared session.
    /// The client should not expect any more messages after this.
    FailedToJoin { reason: FailedToJoinReason },
    /// Sent when the shared session has been ended.
    /// The client should not expect any more messages after this.
    SessionEnded { reason: SessionEndedReason },
    /// Update to the sharer's active prompt.
    ActivePromptUpdated(ActivePromptUpdate),
    /// Update to the universal developer input context (model selection, etc.) from sharer or editor viewers.
    UniversalDeveloperInputContextUpdated(UniversalDeveloperInputContextUpdate),
    /// Sent when there is any ordered terminal event.
    /// These messages are only sent _after_ [`DownstreamMessage::JoinedSuccessfully`].
    OrderedTerminalEvent(OrderedTerminalEvent),
    /// Sent when the list of participants in the shared session changes.
    ParticipantListUpdated(ParticipantList),
    /// Sent when a participant's presence changes.
    ParticipantPresenceUpdated(ParticipantPresenceUpdate),
    /// The server has acknowledged the role request and sent it to the sharer.
    /// There can only be at most one role request in flight per participant.
    RoleRequestInFlight(RoleRequestId),
    /// The viewer's role request was responded to.
    RoleRequestResponse(RoleRequestResponse),
    /// A participant's (identified by `participant_id`) role was updated.
    ParticipantRoleChanged { participant_id: ParticipantId, reason: RoleUpdatedReason, role: Role },
    /// The input was updated by a participant.
    /// When we receive our own update, we can treat it as an ack.
    InputUpdated(InputUpdate),
    /// An input operation was rejected and should be undone.
    InputUpdateRejected { id: InputOperationId, reason: InputUpdateFailureReason },
    /// The server has acknowledged the command execution request and sent it to the sharer.
    /// There can only be at most one command execution request in flight per participant.
    CommandExecutionRequestInFlight(CommandExecutionRequestId),
    /// The viewer's command execution request failed.
    /// Note: there is no "success" response; that is implicitly handled
    /// by the fact that the command is executed.
    CommandExecutionRequestFailed {
        id: CommandExecutionRequestId,
        reason: CommandExecutionFailureReason,
    },
    /// The viewer's write to pty request failed.
    WriteToPtyRequestFailed { reason: WriteToPtyFailureReason },
    /// The server has acknowledged the agent prompt request and sent it to the sharer.
    AgentPromptRequestInFlight(AgentPromptRequestId),
    /// The viewer's agent prompt request failed.
    /// Note: there is no "success" response; that is implicitly handled
    /// by the fact that agent response events start streaming.
    AgentPromptRequestFailed { reason: AgentPromptFailureReason },
    /// The viewer's control action request failed.
    ControlActionRequestFailed { reason: ControlActionFailureReason },
    /// The viewer was removed from the session by the sharer.
    ViewerRemoved { reason: ViewerRemovedReason },
    /// Deprecated: superseded by [`DownstreamMessage::LinkAccessLevelUpdateResponse`].
    /// Kept temporarily for backward compatibility with older clients. Remove once
    /// all clients handle `LinkAccessLevelUpdateResponse`.
    LinkAccessLevelUpdated { role: Option<Role> },
    /// Deprecated: superseded by [`DownstreamMessage::TeamAccessLevelUpdateResponse`].
    /// Kept temporarily for backward compatibility with older clients. Remove once
    /// all clients handle `TeamAccessLevelUpdateResponse`.
    TeamAccessLevelUpdated {
        /// The UID of the updated team.
        team_uid: String,
        /// The ACL of the updated team. None if team has no ACL.
        team_acl: Option<TeamAclData>,
    },
    /// The viewer's link access level update request was responded to.
    LinkAccessLevelUpdateResponse(LinkAccessLevelUpdateResponse),
    /// The request to add guests was responded to.
    AddGuestsResponse(AddGuestsResponse),
    /// The request to remove a guest was responded to.
    RemoveGuestResponse(RemoveGuestResponse),
    /// The request to update a pending user role was responded to.
    UpdatePendingUserRoleResponse(UpdatePendingUserRoleResponse),
    /// The viewer's team access level update request was responded to.
    TeamAccessLevelUpdateResponse(TeamAccessLevelUpdateResponse),
    /// A response to a [`UpstreamMessage::Ping`].
    /// Used to demonstrate that the server is still alive.
    Pong { data: Vec<u8> },
}

/// Whether sending a message requires positive semantic negotiation: a semantic resync,
/// or an ordered event that carries a semantic mutation.
pub open spec fn needs_semantic_support(message: DownstreamMessage) -> bool {
    match message {
        DownstreamMessage::SemanticResyncRequired { .. } => true,
        DownstreamMessage::OrderedTerminalEvent(event) => event.event_type is SemanticConversationMutation,
        _ => false,
    }
}

/// The participant list that a message carries, if any.
pub open spec fn carried_list(message: DownstreamMessage) -> Option<ParticipantList> {
    match message {
        DownstreamMessage::JoinedSuccessfully { participant_list, .. } => Some(*participant_list),
        DownstreamMessage::RejoinedSuccessfully { participant_list, .. } => Some(*participant_list),
        DownstreamMessage::ParticipantListUpdated(list) => Some(list),
        _ => None,
    }
}

/// A team ACL with its role downgraded.
pub open spec fn downgraded_team_acl(acl: Option<TeamAclData>) -> Option<TeamAclData> {
    match acl {
        Some(acl) => Some(TeamAclData { acl: downgraded(acl.acl), uid: acl.uid, name: acl.name }),
        None => None,
    }
}

/// An optional role, downgraded where present.
pub open spec fn downgraded_opt(role: Option<Role>) -> Option<Role> {
    match role {
        Some(role) => Some(downgraded(role)),
        None => None,
    }
}

/// The message as a client without support for `Full` is sent it, given the downgraded
/// form `list` of the participant list it carries: every role it grants is downgraded,
/// everything else unchanged.
pub open spec fn downgraded_message(message: DownstreamMessage, list: ParticipantList) -> DownstreamMessage {
    match message {
        DownstreamMessage::JoinedSuccessfully {
            scrollback,
            active_prompt,
            latest_event_no,
            window_size,
            participant_list,
            viewer_id,
            viewer_firebase_uid,
            init_block_id,
            input_replica_id,
            universal_developer_input_context,
            source_type,
            detailed_source_type,
            source_task_id,
            negotiated_content,
        } => DownstreamMessage::JoinedSuccessfully {
            scrollback,
            active_prompt,
            latest_event_no,
            window_size,
            participant_list: Box::new(list),
            viewer_id,
            viewer_firebase_uid,
            init_block_id,
            input_replica_id,
            universal_developer_input_context,
            source_type,
            detailed_source_type,
            source_task_id,
            negotiated_content,
        },
        DownstreamMessage::RejoinedSuccessfully { participant_list, negotiated_content } => {
            DownstreamMessage::RejoinedSuccessfully { participant_list: Box::new(list), negotiated_content }
        },
        DownstreamMessage::ParticipantListUpdated(_) => DownstreamMessage::ParticipantListUpdated(list),
        DownstreamMessage::ParticipantRoleChanged { participant_id, reason, role } => {
            DownstreamMessage::ParticipantRoleChanged { participant_id, reason, role: downgraded(role) }
        },
        DownstreamMessage::RoleRequestResponse(RoleRequestResponse::Approved { new_role }) => {
            DownstreamMessage::RoleRequestResponse(
                RoleRequestResponse::Approved { new_role: downgraded(new_role) },
            )
        },
        DownstreamMessage::LinkAccessLevelUpdated { role } => {
            DownstreamMessage::LinkAccessLevelUpdated { role: downgraded_opt(role) }
        },
        DownstreamMessage::TeamAccessLevelUpdated { team_uid, team_acl } => {
            DownstreamMessage::TeamAccessLevelUpdated { team_uid, team_acl: downgraded_team_acl(team_acl) }
        },
        DownstreamMessage::LinkAccessLevelUpdateResponse(
            LinkAccessLevelUpdateResponse::Updated { role },
        ) => DownstreamMessage::LinkAccessLevelUpdateResponse(
            LinkAccessLevelUpdateResponse::Updated { role: downgraded_opt(role) },
        ),
        DownstreamMessage::TeamAccessLevelUpdateResponse(
            TeamAccessLevelUpdateResponse::Success { team_uid, team_acl },
        ) => DownstreamMessage::TeamAccessLevelUpdateResponse(
            TeamAccessLevelUpdateResponse::Success { team_uid, team_acl: downgraded_team_acl(team_acl) },
        ),
        other => other,
    }
}

impl DownstreamMessage {
    /// Whether sending this message requires positive semantic negotiation.
    pub fn requires_semantic_support(&self) -> (r: bool)
        ensures
            r == needs_semantic_support(*self),
    {
        match self {
            Self::SemanticResyncRequired { .. } => true,
            Self::OrderedTerminalEvent(event) => event.requires_semantic_support(),
            _ => false,
        }
    }

    /// Downgrades all `Role::Full` fields to `Role::Executor`.
    /// Used for backward compatibility with clients that don't support the Full role.
    pub fn downgrade_full_roles(&mut self)
        ensures
            match carried_list(*old(self)) {
                Some(list) => exists|new_list: ParticipantList|
                    is_downgrade_of(new_list, list) && *final(self) == downgraded_message(
                        *old(self),
                        new_list,
                    ),
                None => *final(self) == downgraded_message(*old(self), arbitrary()),
            },
    {
        match self {
            Self::JoinedSuccessfully { participant_list, .. } => {
                participant_list.downgrade_full_roles();
            },
            Self::RejoinedSuccessfully { participant_list, .. } => {
                participant_list.downgrade_full_roles();
            },
            Self::ParticipantListUpdated(list) => list.downgrade_full_roles(),
            Self::ParticipantRoleChanged { role, .. } => role.downgrade_full(),
            Self::RoleRequestResponse(RoleRequestResponse::Approved { new_role }) => {
                new_role.downgrade_full()
            },
            Self::LinkAccessLevelUpdated { role: Some(role) } => {
                role.downgrade_full();
            },
            Self::TeamAccessLevelUpdated { team_acl: Some(team_acl), .. } => {
                team_acl.acl.downgrade_full();
            },
            Self::LinkAccessLevelUpdateResponse(
                LinkAccessLevelUpdateResponse::Updated { role: Some(role) },
            ) => {
                role.downgrade_full();
            },
            Self::TeamAccessLevelUpdateResponse(
                TeamAccessLevelUpdateResponse::Success { team_acl: Some(team_acl), .. },
            ) => {
                team_acl.acl.downgrade_full();
            },
            _ => {},
        }
    }
}

/// Every role that a message grants: those of the participant list it carries, the role
/// it reports, or the role of the team or link access it reports.
pub open spec fn message_roles(message: DownstreamMessage) -> Seq<Role> {
    match message {
        DownstreamMessage::JoinedSuccessfully { participant_list, .. } => roles_granted(*participant_list),
        DownstreamMessage::RejoinedSuccessfully { participant_list, .. } => roles_granted(*participant_list),
        DownstreamMessage::ParticipantListUpdated(list) => roles_granted(list),
        DownstreamMessage::ParticipantRoleChanged { role, .. } => seq![role],
        DownstreamMessage::RoleRequestResponse(RoleRequestResponse::Approved { new_role }) => seq![new_role],
        DownstreamMessage::LinkAccessLevelUpdated { role: Some(role) } => seq![role],
        DownstreamMessage::TeamAccessLevelUpdated { team_acl: Some(team_acl), .. } => seq![team_acl.acl],
        DownstreamMessage::LinkAccessLevelUpdateResponse(
            LinkAccessLevelUpdateResponse::Updated { role: Some(role) },
        ) => seq![role],
        DownstreamMessage::TeamAccessLevelUpdateResponse(
            TeamAccessLevelUpdateResponse::Success { team_acl: Some(team_acl), .. },
        ) => seq![team_acl.acl],
        _ => Seq::empty(),
    }
}

/// A downgraded message grants no `Full` role, whatever message it was made from.
pub proof fn lemma_downgraded_message_grants_no_full_role(
    message: DownstreamMessage,
    list: ParticipantList,
)
    requires
        match carried_list(message) {
            Some(carried) => is_downgrade_of(list, carried),
            None => true,
        },
    ensures
        forall|i: int|
            0 <= i < message_roles(downgraded_message(message, list)).len()
                ==> #[trigger] message_roles(downgraded_message(message, list))[i] != Role::Full,
{
    if carried_list(message) is Some {
        lemma_downgraded_list_has_no_full_role(list, carried_list(message).unwrap());
    }
}

/// Only semantic content needs semantic negotiation: a message that carries an ordered
/// terminal event needs it exactly when the event is a semantic conversation mutation (PTY
/// bytes, command, resize and agent events never do), a semantic resync always does, and
/// no other message does.
pub proof fn lemma_semantic_support_only_for_semantic_content(message: DownstreamMessage)
    ensures
        message matches DownstreamMessage::OrderedTerminalEvent(event) ==> (needs_semantic_support(
            message,
        ) <==> event.event_type is SemanticConversationMutation),
        message is SemanticResyncRequired ==> needs_semantic_support(message),
        !(message is OrderedTerminalEvent || message is SemanticResyncRequired)
            ==> !needs_semantic_support(message),
{
}

/// `Full` as `Executor`, any other role as it is.
pub open spec fn full_as_executor(role: Role) -> Role {
    if role == Role::Full {
        Role::Executor
    } else {
        role
    }
}

/// Downgrading a message changes only the roles it grants, one by one: a reported `Full`
/// role becomes `Executor`, any other role is kept, and everything else the message carries
/// stays. A message that grants no role and carries no participant list is unchanged.
pub proof fn lemma_downgraded_message_changes_only_full_roles(
    message: DownstreamMessage,
    list: ParticipantList,
)
    ensures
        message matches DownstreamMessage::ParticipantRoleChanged { participant_id, reason, role }
            ==> downgraded_message(message, list) == (DownstreamMessage::ParticipantRoleChanged {
            participant_id,
            reason,
            role: full_as_executor(role),
        }),
        message matches DownstreamMessage::RoleRequestResponse(
            RoleRequestResponse::Approved { new_role },
        ) ==> downgraded_message(message, list) == (DownstreamMessage::RoleRequestResponse(
            RoleRequestResponse::Approved { new_role: full_as_executor(new_role) },
        )),
        message matches DownstreamMessage::LinkAccessLevelUpdated { role: Some(role) }
            ==> downgraded_message(message, list) == (DownstreamMessage::LinkAccessLevelUpdated {
            role: Some(full_as_executor(role)),
        }),
        message matches DownstreamMessage::TeamAccessLevelUpdated { team_uid, team_acl: Some(acl) }
            ==> downgraded_message(message, list) == (DownstreamMessage::TeamAccessLevelUpdated {
            team_uid,
            team_acl: Some(TeamAclData { acl: full_as_executor(acl.acl), uid: acl.uid, name: acl.name }),
        }),
        message matches DownstreamMessage::LinkAccessLevelUpdateResponse(
            LinkAccessLevelUpdateResponse::Updated { role: Some(role) },
        ) ==> downgraded_message(message, list) == (DownstreamMessage::LinkAccessLevelUpdateResponse(
            LinkAccessLevelUpdateResponse::Updated { role: Some(full_as_executor(role)) },
        )),
        message matches DownstreamMessage::TeamAccessLevelUpdateResponse(
            TeamAccessLevelUpdateResponse::Success { team_uid, team_acl: Some(acl) },
        ) ==> downgraded_message(message, list) == (DownstreamMessage::TeamAccessLevelUpdateResponse(
            TeamAccessLevelUpdateResponse::Success {
                team_uid,
                team_acl: Some(TeamAclData { acl: full_as_executor(acl.acl), uid: acl.uid, name: acl.name }),
            },
        )),
        (carried_list(message) is None && message_roles(message).len() == 0) ==> (downgraded_message(
            message,
            list,
        ) == message),
{
}

/// The possible messages sent from client (viewer) to server.
#[allow(inconsistent_fields)]
pub enum UpstreamMessage {
    /// The client sends this message to join the shared session.
    Initialize(InitPayload),
    /// A heartbeat message to demonstrate that the
    /// client is still alive.
    Ping { data: Vec<u8> },
    /// Sent when the viewer changes what they have selected.
    UpdateSelection(SelectionUpdate),
    /// The viewer is requesting a new role.
    RequestRole(Role),
    /// The viewer no longer wants to change roles.
    CancelRoleRequest(RoleRequestId),
    /// The viewer updated their input.
    /// This is an optimistic update and thus was already applied on the viewer's client.
    UpdateInput(InputUpdate),
    /// The viewer is requesting the sharer to execute the provided command
    /// in the given buffer.
    ExecuteCommand { buffer_id: BufferId, command: String },
    /// The viewer is requesting to write to the pty,
    /// specifically to a long running command.
    WriteToPty { request_id: WriteToPtyRequestId, bytes: Vec<u8> },
    /// The viewer is requesting to send an agent prompt.
    /// If there's an existing in-flight request for the same conversation,
    /// it will be cancelled and replaced with this new request.
    SendAgentPrompt(AgentPromptRequest),
    /// The viewer (with Editor role) is updating the universal developer input context.
    UpdateUniversalDeveloperInputContext(UniversalDeveloperInputContextUpdate),
    /// The viewer is requesting a one-off control action to be applied to the shared session.
    SendControlAction(ControlAction),
    /// The viewer has reauthenticated.
    Reauthenticated { user_id: UserID },
    /// The viewer updated the session's link permissions.
    UpdateLinkAccessLevel { role: Option<Role> },
    /// The viewer updated the session's team permissions.
    UpdateTeamAccessLevel { team_uid: String, role: Option<Role> },
    /// The viewer added users as session guests by email.
    AddGuests { emails: Vec<String>, role: Role },
    /// The viewer removed a user as a session guest.
    RemoveGuest { user_uid: String },
    /// The viewer removed a pending user as a session guest.
    RemovePendingGuest { email: String },
    /// The viewer changed a user's role.
    UpdateUserRole { user_uid: String, role: Role },
    /// The viewer changed a pending user's role.
    UpdatePendingUserRole { email: String, role: Role },
    /// The viewer is reporting its terminal size to the sharer.
    /// Used for remote-control sessions where the viewer's viewport should drive the PTY size.
    ReportTerminalSize { window_size: WindowSize },
}

/// The size of the data an attachment adds to the session: plain text counts with its
/// bytes; block references are already part of the session, and uploaded files are
/// referred to by ids only.
pub open spec fn attachment_size(attachment: AgentAttachment) -> int {
    match attachment {
        AgentAttachment::PlainText { content } => utf8_len(content@) as int,
        AgentAttachment::BlockReference { .. } => 0,
        AgentAttachment::FileReference { .. } => 0,
    }
}

/// The sizes of the attachments of a prompt request.
pub open spec fn attachment_sizes(attachments: Seq<AgentAttachment>) -> Seq<int> {
    attachments.map_values(|a: AgentAttachment| attachment_size(a))
}

/// The size of a prompt request's attribution envelope: the bytes of its text, or none.
pub open spec fn attribution_size(envelope: Option<String>) -> int {
    match envelope {
        Some(text) => utf8_len(text@) as int,
        None => 0,
    }
}

/// The size of the data a viewer message carries, which the session accounts for: an
/// input update's operations, a command's text, the bytes written to the pty, or an agent
/// prompt with its plain-text attachments and its attribution envelope (saturating at
/// `u64::MAX`); other messages carry none.
pub open spec fn upstream_size(message: UpstreamMessage) -> u64 {
    match message {
        UpstreamMessage::UpdateInput(update) => saturated(total(op_sizes(update.ops@))),
        UpstreamMessage::ExecuteCommand { command, .. } => utf8_len(command@) as u64,
        UpstreamMessage::WriteToPty { bytes, .. } => bytes@.len() as u64,
        UpstreamMessage::SendAgentPrompt(request) => saturated(
            utf8_len(request.prompt@) + total(attachment_sizes(request.attachments@))
                + attribution_size(request.user_query_attribution_b64),
        ),
        _ => 0,
    }
}

/// The attachments' sizes summed as `usize` values do not overflow (they are the lengths
/// of texts held in memory).
pub open spec fn attachments_fit(message: UpstreamMessage) -> bool {
    message matches UpstreamMessage::SendAgentPrompt(request) ==> total(
        attachment_sizes(request.attachments@),
    ) <= usize::MAX
}

fn attachments_num_bytes(attachments: &Vec<AgentAttachment>) -> (r: usize)
    requires
        total(attachment_sizes(attachments@)) <= usize::MAX,
    ensures
        r == total(attachment_sizes(attachments@)),
{
    let mut sum: usize = 0;
    let mut i: usize = 0;
    while i < attachments.len()
        invariant
            i <= attachments@.len(),
            total(attachment_sizes(attachments@)) <= usize::MAX,
            sum == total(attachment_sizes(attachments@.subrange(0, i as int))),
        decreases attachments@.len() - i,
    {
        let ghost prefix = attachments@.subrange(0, i as int);
        let ghost next = attachments@.subrange(0, i + 1);
        let n: usize = match &attachments[i] {
            AgentAttachment::PlainText { content } => byte_len(content),
            // Blocks are already included in the shared session thus far,
            // so they are not counted again here.
            AgentAttachment::BlockReference { .. } => 0,
            // A file reference is just ids; the actual data is stored elsewhere.
            AgentAttachment::FileReference { .. } => 0,
        };
        assert(total(attachment_sizes(next)) == total(attachment_sizes(prefix)) + n) by {
            assert(attachment_sizes(next).drop_last() =~= attachment_sizes(prefix));
        }
        proof {
            crate::common::scrollback::lemma_total_nonnegative(attachment_sizes(next));
            lemma_total_prefix_bounded(attachment_sizes(attachments@), i + 1);
            assert(attachment_sizes(attachments@).subrange(0, i + 1) =~= attachment_sizes(next));
        }
        sum = sum + n;
        i = i + 1;
    }
    assert(attachments@.subrange(0, i as int) =~= attachments@);
    sum
}

/// A prefix of nonnegative sizes totals no more than all of them.
proof fn lemma_total_prefix_bounded(sizes: Seq<int>, n: int)
    requires
        0 <= n <= sizes.len(),
        forall|i: int| 0 <= i < sizes.len() ==> sizes[i] >= 0,
    ensures
        total(sizes.subrange(0, n)) <= total(sizes),
    decreases sizes.len(),
{
    if n < sizes.len() {
        assert(sizes.drop_last() =~= sizes.subrange(0, sizes.len() - 1));
        lemma_total_prefix_bounded(sizes.drop_last(), n);
        assert(sizes.drop_last().subrange(0, n) =~= sizes.subrange(0, n));
    } else {
        assert(sizes.subrange(0, n) =~= sizes);
    }
}

impl UpstreamMessage {
    pub fn num_bytes(&self) -> (r: ByteCount)
        requires
            attachments_fit(*self),
        ensures
            r@ == upstream_size(*self),
    {
        match self {
            UpstreamMessage::UpdateInput(input_update) => input_update.num_bytes(),
            UpstreamMessage::ExecuteCommand { command, .. } => ByteCount::from_usize(
                byte_len(command),
            ),
            UpstreamMessage::WriteToPty { bytes, .. } => ByteCount::from_usize(bytes.len()),
            UpstreamMessage::SendAgentPrompt(request) => {
                // Count prompt length + attachments
                let prompt_bytes = ByteCount::from_usize(byte_len(&request.prompt));
                let attachments_bytes = ByteCount::from_usize(
                    attachments_num_bytes(&request.attachments),
                );
                let content_bytes = match prompt_bytes.add(attachments_bytes) {
                    Some(sum) => sum,
                    None => ByteCount::from_u64(u64::MAX),
                };
                // The attribution envelope travels with the prompt and is counted as its text.
                let envelope_bytes = match &request.user_query_attribution_b64 {
                    Some(envelope) => ByteCount::from_usize(byte_len(envelope)),
                    None => ByteCount::from_u64(0),
                };
                match content_bytes.add(envelope_bytes) {
                    Some(sum) => sum,
                    None => ByteCount::from_u64(u64::MAX),
                }
            },
            _ => ByteCount::from_u64(0),
        }
    }
}

/// The size of a viewer message is the data it carries: the bytes it writes to the pty, the
/// bytes of the command it runs, or the same size as the sharer's message with the same input
/// update; a message that carries no session data counts nothing.
pub proof fn lemma_viewer_message_sizes(message: UpstreamMessage)
    ensures
        message matches UpstreamMessage::WriteToPty { bytes, .. } ==> (bytes@.len() <= u64::MAX
            ==> upstream_size(message) == bytes@.len()),
        message matches UpstreamMessage::ExecuteCommand { command, .. } ==> upstream_size(message)
            == utf8_len(command@),
        message matches UpstreamMessage::UpdateInput(update) ==> upstream_size(message)
            == sharer::upstream_size(sharer::UpstreamMessage::UpdateInput(update)),
        !(message is WriteToPty || message is ExecuteCommand || message is UpdateInput
            || message is SendAgentPrompt) ==> upstream_size(message) == 0,
{
}

/// A prompt with neither attachments nor an attribution envelope counts the bytes of its text.
pub proof fn lemma_bare_prompt_size(request: AgentPromptRequest)
    requires
        request.attachments@.len() == 0,
        request.user_query_attribution_b64 is None,
    ensures
        upstream_size(UpstreamMessage::SendAgentPrompt(request)) == utf8_len(request.prompt@),
{
    assert(attachment_sizes(request.attachments@) =~= Seq::<int>::empty());
}

/// Adding an attachment to a prompt request adds the bytes of a plain-text attachment's
/// content (while the total fits a `u64`) and nothing for a block or file reference.
pub proof fn lemma_attachment_adds_its_text(
    before: AgentPromptRequest,
    after: AgentPromptRequest,
    attachment: AgentAttachment,
)
    requires
        after.prompt@ == before.prompt@,
        after.user_query_attribution_b64 == before.user_query_attribution_b64,
        after.attachments@ == before.attachments@.push(attachment),
    ensures
        !(attachment is PlainText) ==> upstream_size(UpstreamMessage::SendAgentPrompt(after))
            == upstream_size(UpstreamMessage::SendAgentPrompt(before)),
        attachment matches AgentAttachment::PlainText { content } ==> (upstream_size(
            UpstreamMessage::SendAgentPrompt(before),
        ) + utf8_len(content@) <= u64::MAX ==> upstream_size(
            UpstreamMessage::SendAgentPrompt(after),
        ) == upstream_size(UpstreamMessage::SendAgentPrompt(before)) + utf8_len(content@)),
{
    assert(attachment_sizes(after.attachments@).drop_last() =~= attachment_sizes(
        before.attachments@,
    ));
    crate::common::scrollback::lemma_total_nonnegative(attachment_sizes(before.attachments@));
}

/// Attaching an attribution envelope to a request that had none adds the bytes of its text,
/// saturating at `u64::MAX`.
pub proof fn lemma_envelope_adds_its_text(
    before: AgentPromptRequest,
    after: AgentPromptRequest,
    envelope: String,
)
    requires
        after.prompt@ == before.prompt@,
        after.attachments@ == before.attachments@,
        before.user_query_attribution_b64 is None,
        after.user_query_attribution_b64 == Some(envelope),
    ensures
        upstream_size(UpstreamMessage::SendAgentPrompt(before)) + utf8_len(envelope@) <= u64::MAX
            ==> upstream_size(UpstreamMessage::SendAgentPrompt(after)) == upstream_size(
            UpstreamMessage::SendAgentPrompt(before),
        ) + utf8_len(envelope@),
        upstream_size(UpstreamMessage::SendAgentPrompt(before)) + utf8_len(envelope@) > u64::MAX
            ==> upstream_size(UpstreamMessage::SendAgentPrompt(after)) == u64::MAX,
{
    crate::common::scrollback::lemma_total_nonnegative(attachment_sizes(before.attachments@));
}

} // verus!
