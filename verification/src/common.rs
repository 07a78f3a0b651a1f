//! Types shared by the sharer and viewer protocols.
pub mod active_session_snapshot;
pub mod agent_prompt;
pub mod byte_count;
pub mod command_execution;
pub mod control_action;
pub mod feature_support;
pub mod ids;
pub mod input;
pub mod ordered_terminal_events;
pub mod participant;
pub mod permissions;
pub mod presence;
pub mod prompt;
pub mod roles;
pub mod scrollback;
pub mod semantic_session;
pub mod session_params;
pub mod team;
pub mod ui_state;
pub mod telemetry;
pub mod text;
pub mod user;
pub mod write_to_pty;

pub use active_session_snapshot::{
    ActiveRestoreSnapshot, ActiveSessionSnapshotCapabilities, ActiveSessionSnapshotCompression,
    ActiveSessionSnapshotDescriptor, ActiveSessionSnapshotIdentity,
    ActiveSessionSnapshotPublicationAck, ActiveSessionSnapshotPublicationStatus,
    ActiveSessionSnapshotRestore, ActiveSessionSnapshotResumeCursor,
    ActiveSessionSnapshotResyncReason, ActiveSessionSnapshotStorage,
    ActiveSessionSnapshotStorageLayoutKind, ActiveSessionSnapshotValidationError,
    ImmutableActiveSessionSnapshotObject, NegotiatedActiveSessionSnapshot,
    NegotiatedActiveSessionSnapshotProtocol, PreparedActiveSessionSnapshotReceipt,
    validate_active_restore_snapshot, validate_active_session_snapshot_restore,
    validate_active_session_snapshot_resume, ACTIVE_RESTORE_REDUCER_VERSION_V1,
    ACTIVE_RESTORE_SNAPSHOT_SCHEMA_VERSION_V1,
};
pub use agent_prompt::{
    AgentAttachment, AgentPromptFailureReason, AgentPromptRequest, AgentPromptRequestId,
    ServerConversationToken,
};
pub use byte_count::{checked_sum, ByteCount};
pub use command_execution::{CommandExecutionFailureReason, CommandExecutionRequestId};
pub use control_action::{ControlAction, ControlActionFailureReason, ControlActionRequestId};
pub use feature_support::FeatureSupport;
pub use ids::{hyphenated, is_random_uuid_text, is_random_v4, parsed_uuid};
pub use input::{
    BufferId, CrdtOperation, InputOperationId, InputOperationSeqNo, InputReplicaId, InputUpdate,
    InputUpdateFailureReason,
};
pub use participant::{
    AbsentViewer, Guest, ParticipantId, ParticipantInfo, ParticipantList, ParticipantListInfo,
    ParticipantType, PendingGuest, PresentViewer, ProfileData, Sharer, Viewer,
};
pub use permissions::{
    AddGuestsResponse, FailedToAddGuestsReason, FailedToRemoveGuestReason,
    FailedToUpdatePendingUserRoleReason, FailedToUpdateTeamAccessLevelReason,
    LinkAccessLevelUpdateResponse, RemoveGuestResponse, TeamAccessLevelUpdateResponse,
    UpdatePendingUserRoleResponse,
};
pub use presence::{
    BlockId, BlockPoint, GridType, ParticipantPresenceUpdate, ParticipantSelection, Point,
    PresenceUpdate, Selection, SelectionEventNo, SelectionUpdate,
};
pub use prompt::{ActivePrompt, ActivePromptUpdate};
pub use roles::{
    AccessLevels, PendingRoleRequest, Role, RoleRequestId, RoleRequestRejectedReason,
    RoleRequestResponse,
};
pub use scrollback::{block_sizes, saturated, total, Scrollback, ScrollbackBlock};
pub use session_params::{join_route, JoinSessionLinkArgs, SessionId, SessionSecret};
pub use team::TeamAclData;
pub use telemetry::TelemetryContext;
pub use user::{FirebaseUid, UserID};
pub use write_to_pty::{WriteToPtyFailureReason, WriteToPtyRequestId, WriteToPtySeqNo};
pub use semantic_session::{
    validate_negotiated_content, ExecutionIdentity, NegotiatedSessionContent, SemanticCursor,
    SemanticNegotiationError, SemanticResyncReason, SessionContentMode,
    SEMANTIC_CONVERSATION_SCHEMA_VERSION_V1,
};
pub use ordered_terminal_events::{
    event_size, AICommandMetadata, OrderedTerminalEvent, OrderedTerminalEventType, WindowSize,
};
pub use ui_state::{
    CLIAgentSessionState, InputMode, InputType, LongRunningCommandAgentInteraction,
    LongRunningCommandAgentInteractionState, SelectedAgentModel, SelectedConversation,
    UniversalDeveloperInputContext, UniversalDeveloperInputContextUpdate,
};
