use session_sharing_protocol::common::{
    AgentAttachment, AgentPromptRequest, AgentPromptRequestId, BlockId, BufferId, ByteCount,
    CrdtOperation, InputOperationId, InputOperationSeqNo, InputUpdate, OrderedTerminalEvent,
    OrderedTerminalEventType, ParticipantId, ParticipantList, PendingGuest, PresentViewer, Guest,
    Role, RoleRequestResponse, Scrollback, ScrollbackBlock, SemanticCursor, SessionContentMode,
    SessionId, TeamAccessLevelUpdateResponse, TeamAclData, Viewer, WindowSize,
    LinkAccessLevelUpdateResponse, AbsentViewer, SemanticResyncReason,
};
use session_sharing_protocol::sharer::{
    AmbientAgentFields, LegacySessionSourceType, SessionSourceType, SessionSourceTypeWire,
};
use session_sharing_protocol::{sharer, viewer};

fn prompt_request(prompt: &str, attachments: Vec<AgentAttachment>) -> AgentPromptRequest {
    AgentPromptRequest {
        id: AgentPromptRequestId::new(),
        server_conversation_token: None,
        prompt: prompt.to_owned(),
        attachments,
        idempotency_key: None,
        user_query_attribution_b64: None,
    }
}

#[test]
fn session_byte_accounting_includes_encoded_envelope_and_inline_content() {
    let mut request = prompt_request("hello", Vec::new());
    request.id = AgentPromptRequestId::from("req-1".to_string());
    request.prompt = "hello 👋".to_owned();
    request.attachments = vec![
        AgentAttachment::PlainText { content: "résumé".to_owned() },
        AgentAttachment::FileReference {
            attachment_id: "already-uploaded-file".to_owned(),
            file_name: "file.txt".to_owned(),
        },
    ];
    let baseline_bytes = "hello 👋".len() + "résumé".len();
    assert_eq!(
        viewer::UpstreamMessage::SendAgentPrompt(request.clone()).num_bytes().as_u64(),
        baseline_bytes as u64,
    );
    request.user_query_attribution_b64 = Some("CgIKAA==".to_owned());
    assert_eq!(
        viewer::UpstreamMessage::SendAgentPrompt(request).num_bytes().as_u64(),
        (baseline_bytes + "CgIKAA==".len()) as u64,
    );
}

#[test]
fn block_references_and_empty_envelopes_add_no_bytes() {
    let mut request = prompt_request(
        "hi",
        vec![AgentAttachment::BlockReference { block_id: BlockId::from("b".to_string()) }],
    );
    request.user_query_attribution_b64 = Some(String::new());
    assert_eq!(viewer::UpstreamMessage::SendAgentPrompt(request).num_bytes().as_u64(), 2);
}

#[test]
fn viewer_message_bytes() {
    let command = viewer::UpstreamMessage::ExecuteCommand {
        buffer_id: BufferId::from("b".to_string()),
        command: "ls -la ü".to_string(),
    };
    assert_eq!(command.num_bytes().as_u64(), "ls -la ü".len() as u64);
    let ping = viewer::UpstreamMessage::Ping { data: vec![1, 2, 3] };
    assert_eq!(ping.num_bytes().as_u64(), 0);
    let role = viewer::UpstreamMessage::RequestRole(Role::Executor);
    assert_eq!(role.num_bytes().as_u64(), 0);
}

fn input_update(sizes: &[usize]) -> InputUpdate {
    InputUpdate {
        id: InputOperationId {
            participant_id: ParticipantId::from("p".to_string()),
            buffer_id: BufferId::from("b".to_string()),
            op_no: InputOperationSeqNo::zero(),
        },
        ops: sizes.iter().map(|&n| CrdtOperation(vec![0; n])).collect(),
    }
}

#[test]
fn input_update_bytes_sum_the_operations() {
    assert_eq!(input_update(&[3, 4, 0]).num_bytes().as_u64(), 7);
    assert_eq!(input_update(&[]).num_bytes().as_u64(), 0);
    let upstream = sharer::UpstreamMessage::UpdateInput(input_update(&[5, 6]));
    assert_eq!(upstream.num_bytes().as_u64(), 11);
}

#[test]
fn scrollback_size_and_limit() {
    let scrollback = Scrollback {
        blocks: vec![ScrollbackBlock { raw: vec![0; 10] }, ScrollbackBlock { raw: vec![0; 5] }],
        is_alt_screen_active: false,
    };
    assert_eq!(scrollback.num_bytes().as_u64(), 15);
    assert_eq!(scrollback.blocks[1].num_bytes().as_u64(), 5);
    assert!(scrollback.exceeds_size_bytes(ByteCount::from_u64(14)));
    assert!(!scrollback.exceeds_size_bytes(ByteCount::from_u64(15)));
}

fn cursor() -> SemanticCursor {
    SemanticCursor {
        session_id: SessionId::new(),
        conversation_id: "conversation".into(),
        execution_id: "execution".into(),
        content_mode: SessionContentMode::SemanticConversationOnly,
        schema_version: 1,
        mutation_sequence: 42,
    }
}

#[test]
fn ordered_event_bytes_and_semantic_support() {
    let pty = OrderedTerminalEventType::PtyBytesRead { bytes: vec![1; 9] };
    assert_eq!(pty.num_bytes().as_u64(), 9);
    assert!(!pty.requires_semantic_support());
    let response = OrderedTerminalEventType::AgentResponseEvent {
        response_initiator: None,
        response_event: "abcé".into(),
        forked_from_conversation_token: None,
    };
    assert_eq!(response.num_bytes().as_u64(), 5);
    let mutation = OrderedTerminalEventType::SemanticConversationMutation {
        cursor: cursor(),
        mutation: vec![1, 2, 3],
    };
    assert_eq!(mutation.num_bytes().as_u64(), 3);
    assert!(mutation.requires_semantic_support());
    let resize = OrderedTerminalEventType::Resize { window_size: WindowSize { num_rows: 2, num_cols: 3 } };
    assert_eq!(resize.num_bytes().as_u64(), 0);
    let event = OrderedTerminalEvent { event_no: 1, event_type: mutation };
    assert!(event.requires_semantic_support());
    assert_eq!(event.num_bytes().as_u64(), 3);
    let message = viewer::DownstreamMessage::OrderedTerminalEvent(event);
    assert!(message.requires_semantic_support());
    let upstream = sharer::UpstreamMessage::OrderedTerminalEvent(OrderedTerminalEvent {
        event_no: 2,
        event_type: pty,
    });
    assert_eq!(upstream.num_bytes().as_u64(), 9);
    let resync = viewer::DownstreamMessage::SemanticResyncRequired {
        reason: SemanticResyncReason::StorageUnavailable,
    };
    assert!(resync.requires_semantic_support());
    assert!(!viewer::DownstreamMessage::Pong { data: vec![] }.requires_semantic_support());
}

#[test]
fn roles_downgrade_and_execute() {
    let mut role = Role::Full;
    assert!(role.can_execute());
    role.downgrade_full();
    assert_eq!(role, Role::Executor);
    assert!(role.can_execute());
    let mut reader = Role::Reader;
    reader.downgrade_full();
    assert_eq!(reader, Role::Reader);
    assert!(!reader.can_execute());
    assert_eq!(Role::default(), Role::Reader);
}

fn full_list() -> ParticipantList {
    ParticipantList {
        viewers: vec![
            Viewer { role: Role::Full, is_present: true, ..Default::default() },
            Viewer { role: Role::Reader, is_present: false, ..Default::default() },
        ],
        present_viewers: vec![PresentViewer { max_acl: Role::Full, ..Default::default() }],
        absent_viewers: vec![AbsentViewer::default()],
        guests: vec![Guest { direct_acl: Role::Full, ..Default::default() }],
        pending_guests: vec![PendingGuest { email: "a@b.c".into(), direct_acl: Role::Full }],
        ..Default::default()
    }
}

#[test]
fn participant_list_downgrade_leaves_no_full_role() {
    let mut list = full_list();
    list.downgrade_full_roles();
    assert_eq!(list.viewers[0].role, Role::Executor);
    assert!(list.viewers[0].is_present);
    assert_eq!(list.viewers[1].role, Role::Reader);
    assert_eq!(list.present_viewers[0].max_acl, Role::Executor);
    assert_eq!(list.guests[0].direct_acl, Role::Executor);
    assert_eq!(list.pending_guests[0].direct_acl, Role::Executor);
    assert_eq!(list.pending_guests[0].email, "a@b.c");
    assert_eq!(list.absent_viewers.len(), 1);
    list.downgrade_full_roles();
    assert_eq!(list.viewers[0].role, Role::Executor);
}

#[test]
fn viewer_message_downgrade_covers_every_role() {
    let mut message = viewer::DownstreamMessage::ParticipantListUpdated(full_list());
    message.downgrade_full_roles();
    let viewer::DownstreamMessage::ParticipantListUpdated(list) = &message else { panic!("variant") };
    assert_eq!(list.guests[0].direct_acl, Role::Executor);

    let mut message = viewer::DownstreamMessage::RejoinedSuccessfully {
        participant_list: Box::new(full_list()),
        negotiated_content: None,
    };
    message.downgrade_full_roles();
    let viewer::DownstreamMessage::RejoinedSuccessfully { participant_list, .. } = &message else {
        panic!("variant")
    };
    assert_eq!(participant_list.viewers[0].role, Role::Executor);

    let mut message = viewer::DownstreamMessage::ParticipantRoleChanged {
        participant_id: ParticipantId::from("p".to_string()),
        reason: viewer::RoleUpdatedReason::UpdatedBySharer,
        role: Role::Full,
    };
    message.downgrade_full_roles();
    assert!(matches!(message, viewer::DownstreamMessage::ParticipantRoleChanged { role: Role::Executor, .. }));

    let mut message =
        viewer::DownstreamMessage::RoleRequestResponse(RoleRequestResponse::Approved { new_role: Role::Full });
    message.downgrade_full_roles();
    assert!(matches!(
        message,
        viewer::DownstreamMessage::RoleRequestResponse(RoleRequestResponse::Approved { new_role: Role::Executor })
    ));

    let mut message = viewer::DownstreamMessage::LinkAccessLevelUpdated { role: Some(Role::Full) };
    message.downgrade_full_roles();
    assert!(matches!(message, viewer::DownstreamMessage::LinkAccessLevelUpdated { role: Some(Role::Executor) }));

    let mut message = viewer::DownstreamMessage::LinkAccessLevelUpdateResponse(
        LinkAccessLevelUpdateResponse::Updated { role: Some(Role::Full) },
    );
    message.downgrade_full_roles();
    assert!(matches!(
        message,
        viewer::DownstreamMessage::LinkAccessLevelUpdateResponse(LinkAccessLevelUpdateResponse::Updated {
            role: Some(Role::Executor)
        })
    ));

    let acl = TeamAclData { acl: Role::Full, uid: "t".into(), name: "team".into() };
    let mut message = viewer::DownstreamMessage::TeamAccessLevelUpdated {
        team_uid: "t".into(),
        team_acl: Some(acl.clone()),
    };
    message.downgrade_full_roles();
    let viewer::DownstreamMessage::TeamAccessLevelUpdated { team_acl: Some(updated), .. } = &message else {
        panic!("variant")
    };
    assert_eq!(updated.acl, Role::Executor);
    assert_eq!(updated.name, "team");

    let mut message = viewer::DownstreamMessage::TeamAccessLevelUpdateResponse(
        TeamAccessLevelUpdateResponse::Success { team_uid: "t".into(), team_acl: Some(acl) },
    );
    message.downgrade_full_roles();
    let viewer::DownstreamMessage::TeamAccessLevelUpdateResponse(TeamAccessLevelUpdateResponse::Success {
        team_acl: Some(updated),
        ..
    }) = &message
    else {
        panic!("variant")
    };
    assert_eq!(updated.acl, Role::Executor);
}

#[test]
fn source_types_convert_between_wire_forms() {
    let user = SessionSourceType::from(SessionSourceTypeWire::Legacy(LegacySessionSourceType::User));
    assert!(matches!(user, SessionSourceType::User));
    let agent = SessionSourceType::from(SessionSourceTypeWire::Legacy(LegacySessionSourceType::AmbientAgent));
    assert!(matches!(agent, SessionSourceType::AmbientAgent { task_id: None }));
    let tagged = SessionSourceType::from(SessionSourceTypeWire::New {
        ambient_agent: AmbientAgentFields { task_id: Some("task".into()) },
    });
    let SessionSourceType::AmbientAgent { task_id: Some(task) } = &tagged else { panic!("variant") };
    assert_eq!(task, "task");
    assert_eq!(LegacySessionSourceType::from(&tagged), LegacySessionSourceType::AmbientAgent);
    assert_eq!(LegacySessionSourceType::from(&user), LegacySessionSourceType::User);
    assert_eq!(
        viewer::RoleUpdatedReason::from(sharer::RoleUpdateReason::InactivityLimitReached),
        viewer::RoleUpdatedReason::InactivityLimitReached
    );
    assert_eq!(
        viewer::RoleUpdatedReason::from(sharer::RoleUpdateReason::default()),
        viewer::RoleUpdatedReason::UpdatedBySharer
    );
}

#[test]
fn terminated_reasons_carry_details() {
    let reason = sharer::SessionTerminatedReason::internal_server_error("boom");
    let sharer::SessionTerminatedReason::InternalServerError { details } = reason else { panic!("variant") };
    assert_eq!(details, "boom");
    let sharer::SessionTerminatedReason::InternalServerError { details } =
        sharer::SessionTerminatedReason::internal_server_error_without_details()
    else {
        panic!("variant")
    };
    assert!(details.is_empty());
    let sharer::FailedToInitializeSessionReason::InternalServerError { details } =
        sharer::FailedToInitializeSessionReason::internal_server_error_without_details()
    else {
        panic!("variant")
    };
    assert!(details.is_empty());
}
