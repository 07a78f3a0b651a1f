use session_sharing_protocol::common::{
    validate_negotiated_content, ExecutionIdentity, NegotiatedSessionContent,
    SemanticNegotiationError, SessionContentMode,
};

fn execution() -> ExecutionIdentity {
    ExecutionIdentity {
        conversation_id: "conversation".into(),
        execution_id: "execution".into(),
        run_id: Some("run".into()),
        request_id: None,
    }
}

#[test]
fn semantic_negotiation_requires_an_exact_echo() {
    assert_eq!(
        validate_negotiated_content(
            SessionContentMode::SemanticConversationOnly,
            Some(1),
            Some(&execution()),
            None,
        ),
        Err(SemanticNegotiationError::MissingServerEcho)
    );

    let echoed = NegotiatedSessionContent {
        content_mode: SessionContentMode::SemanticConversationOnly,
        semantic_schema_version: 1,
        execution_identity: execution(),
    };
    assert!(
        validate_negotiated_content(
            SessionContentMode::SemanticConversationOnly,
            Some(1),
            Some(&execution()),
            Some(&echoed),
        )
        .is_ok()
    );
}

#[test]
fn full_terminal_accepts_only_an_absent_or_matching_echo() {
    assert!(
        validate_negotiated_content(SessionContentMode::FullTerminal, None, None, None).is_ok()
    );

    let matching_echo = NegotiatedSessionContent {
        content_mode: SessionContentMode::FullTerminal,
        semantic_schema_version: 0,
        execution_identity: execution(),
    };
    assert!(
        validate_negotiated_content(
            SessionContentMode::FullTerminal,
            None,
            None,
            Some(&matching_echo),
        )
        .is_ok()
    );

    let mismatched_echo = NegotiatedSessionContent {
        content_mode: SessionContentMode::SemanticConversationOnly,
        semantic_schema_version: 1,
        execution_identity: execution(),
    };
    assert_eq!(
        validate_negotiated_content(
            SessionContentMode::FullTerminal,
            None,
            None,
            Some(&mismatched_echo),
        ),
        Err(SemanticNegotiationError::ContentModeMismatch)
    );
}

#[test]
fn semantic_negotiation_reports_each_missing_or_mismatched_part() {
    let semantic = SessionContentMode::SemanticConversationOnly;
    let echoed = NegotiatedSessionContent {
        content_mode: semantic,
        semantic_schema_version: 1,
        execution_identity: execution(),
    };
    assert_eq!(
        validate_negotiated_content(semantic, None, Some(&execution()), Some(&echoed)),
        Err(SemanticNegotiationError::MissingRequestedSchema)
    );
    assert_eq!(
        validate_negotiated_content(semantic, Some(1), None, Some(&echoed)),
        Err(SemanticNegotiationError::MissingRequestedExecution)
    );
    assert_eq!(
        validate_negotiated_content(semantic, Some(2), Some(&execution()), Some(&echoed)),
        Err(SemanticNegotiationError::SchemaMismatch)
    );
    let mut other = execution();
    other.request_id = Some("request".into());
    assert_eq!(
        validate_negotiated_content(semantic, Some(1), Some(&other), Some(&echoed)),
        Err(SemanticNegotiationError::ExecutionMismatch)
    );
    let full_echo = NegotiatedSessionContent {
        content_mode: SessionContentMode::FullTerminal,
        semantic_schema_version: 1,
        execution_identity: execution(),
    };
    assert_eq!(
        validate_negotiated_content(semantic, Some(1), Some(&execution()), Some(&full_echo)),
        Err(SemanticNegotiationError::ContentModeMismatch)
    );
}

#[test]
fn content_mode_defaults_to_full_terminal() {
    assert!(SessionContentMode::default().is_full_terminal());
    assert!(!SessionContentMode::SemanticConversationOnly.is_full_terminal());
}
