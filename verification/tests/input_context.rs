use session_sharing_protocol::common::{
    BlockId, CLIAgentSessionState, InputMode, InputType, LongRunningCommandAgentInteraction,
    LongRunningCommandAgentInteractionState, SelectedAgentModel, SelectedConversation,
    ServerConversationToken, UniversalDeveloperInputContext, UniversalDeveloperInputContextUpdate,
};

fn context() -> UniversalDeveloperInputContext {
    UniversalDeveloperInputContext {
        selected_model: Some(SelectedAgentModel::new("model-a")),
        input_mode: Some(InputMode::new(InputType::AI, true)),
        selected_conversation: Some(SelectedConversation::NoConversation),
        long_running_command_agent_interaction_state: None,
        long_running_command_agent_interaction: Some(LongRunningCommandAgentInteraction {
            block_id: BlockId::from("block".to_string()),
            state: LongRunningCommandAgentInteractionState::TaggedIn,
        }),
        auto_approve_agent_actions: Some(false),
        cli_agent_session: CLIAgentSessionState::Active {
            cli_agent: "Gemini".into(),
            is_rich_input_open: false,
        },
    }
}

#[test]
fn empty_update_changes_nothing() {
    let update = UniversalDeveloperInputContextUpdate::default();
    assert!(!update.changes_cached_context(&context()));
    assert_eq!(update.merge_into(context()), context());
}

#[test]
fn update_with_a_new_value_changes_and_merges() {
    let update = UniversalDeveloperInputContextUpdate {
        selected_model: Some(SelectedAgentModel::new("model-b")),
        ..Default::default()
    };
    assert!(update.changes_cached_context(&context()));
    let merged = update.clone().merge_into(context());
    assert_eq!(merged.selected_model.as_ref().unwrap().model_id(), "model-b");
    assert_eq!(merged.input_mode, context().input_mode);
    assert!(!update.changes_cached_context(&merged));
}

#[test]
fn update_with_the_cached_value_does_not_change() {
    let update = UniversalDeveloperInputContextUpdate {
        input_mode: Some(InputMode::new(InputType::AI, true)),
        cli_agent_session: Some(CLIAgentSessionState::Active {
            cli_agent: "Gemini".into(),
            is_rich_input_open: false,
        }),
        ..Default::default()
    };
    assert!(!update.changes_cached_context(&context()));
    let closing = UniversalDeveloperInputContextUpdate {
        cli_agent_session: Some(CLIAgentSessionState::Inactive),
        ..Default::default()
    };
    assert!(closing.changes_cached_context(&context()));
    assert_eq!(closing.merge_into(context()).cli_agent_session, CLIAgentSessionState::Inactive);
}

#[test]
fn full_update_from_a_context_restores_it() {
    let update = UniversalDeveloperInputContextUpdate::from(context());
    assert!(!update.changes_cached_context(&context()));
    assert!(update.changes_cached_context(&UniversalDeveloperInputContext::default()));
    assert_eq!(update.clone().merge_into(context()), context());
    assert_eq!(update.merge_into(UniversalDeveloperInputContext::default()), context());
}

#[test]
fn selected_conversation_by_token() {
    let token = ServerConversationToken::new();
    let selected = SelectedConversation::new(Some(token));
    assert_eq!(selected.server_token(), Some(&token));
    assert!(!selected.is_new_conversation());
    let fresh = SelectedConversation::new(None);
    assert!(fresh.is_new_conversation());
    assert_eq!(fresh.server_token(), None);
    assert!(SelectedConversation::NoConversation.is_no_conversation());
    assert_eq!(SelectedConversation::default(), SelectedConversation::NewConversation);
}
