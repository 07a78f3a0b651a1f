use super::text::{opt_text, opt_text_eq};
use super::SessionId;
use vstd::prelude::*;

verus! {

/// Determines which ordered content a shared session may contain.
#[derive(Clone, Copy, Debug, Default, PartialEq, Eq, Structural)]
pub enum SessionContentMode {
    /// The legacy terminal protocol, including PTY, input, and agent events.
    #[default]
    FullTerminal,
    /// Only versioned semantic conversation mutations.
    SemanticConversationOnly,
}

impl SessionContentMode {
    pub fn is_full_terminal(&self) -> (r: bool)
        ensures
            r == (*self == SessionContentMode::FullTerminal),
    {
        *self == Self::FullTerminal
    }
}

/// Current version of the semantic conversation protobuf schema.
pub const SEMANTIC_CONVERSATION_SCHEMA_VERSION_V1: u32 = 1;

/// Stable identity of the execution carried by a semantic session.
#[derive(Clone, Debug, Eq)]
pub struct ExecutionIdentity {
    pub conversation_id: String,
    pub execution_id: String,
    pub run_id: Option<String>,
    pub request_id: Option<String>,
}

impl View for ExecutionIdentity {
    type V = (Seq<char>, Seq<char>, Option<Seq<char>>, Option<Seq<char>>);

    open spec fn view(&self) -> Self::V {
        (self.conversation_id@, self.execution_id@, opt_text(self.run_id), opt_text(self.request_id))
    }
}

impl PartialEq for ExecutionIdentity {
    fn eq(&self, other: &Self) -> (r: bool) {
        self.conversation_id == other.conversation_id && self.execution_id == other.execution_id
            && opt_text_eq(&self.run_id, &other.run_id) && opt_text_eq(
            &self.request_id,
            &other.request_id,
        )
    }
}

impl vstd::std_specs::cmp::PartialEqSpecImpl for ExecutionIdentity {
    open spec fn obeys_eq_spec() -> bool {
        true
    }

    open spec fn eq_spec(&self, other: &Self) -> bool {
        self@ == other@
    }
}

/// A cursor bound to one negotiated semantic conversation stream.
#[derive(Clone, Debug, PartialEq, Eq)]
pub struct SemanticCursor {
    pub session_id: SessionId,
    pub conversation_id: String,
    pub execution_id: String,
    pub content_mode: SessionContentMode,
    pub schema_version: u32,
    pub mutation_sequence: u64,
}

/// Values positively accepted and echoed by the server.
///
/// Semantic callers must validate this echo before sending or accepting semantic
/// event variants. A missing echo is only compatible with legacy full-terminal mode.
#[derive(Clone, Debug, PartialEq, Eq)]
pub struct NegotiatedSessionContent {
    pub content_mode: SessionContentMode,
    pub semantic_schema_version: u32,
    pub execution_identity: ExecutionIdentity,
}

/// Why a semantic caller must discard transient state and fetch a new bootstrap.
#[derive(Clone, Debug, PartialEq, Eq, Structural)]
pub enum SemanticResyncReason {
    SessionChanged,
    ExecutionChanged,
    SchemaMismatch { expected: u32, received: u32 },
    CursorSessionMismatch,
    CursorExecutionMismatch,
    CursorAhead { highest_contiguous_sequence: u64 },
    CursorExpired,
    ReplayGap { expected_sequence: u64, next_available_sequence: u64 },
    ConflictingDuplicate { mutation_sequence: u64 },
    StorageUnavailable,
    SessionStateUnavailable,
}

/// Fail-closed validation errors for semantic negotiation.
#[derive(Clone, Debug, PartialEq, Eq, Structural)]
pub enum SemanticNegotiationError {
    MissingRequestedSchema,
    MissingRequestedExecution,
    MissingServerEcho,
    ContentModeMismatch,
    SchemaMismatch,
    ExecutionMismatch,
}

/// The verdict on a server echo for a requested content mode.
///
/// Legacy full-terminal callers accept an absent echo; a present echo must retain
/// full-terminal mode. Semantic callers require the requested schema and execution,
/// an echo, and exact mode, schema, and execution identity matches, checked in that order.
pub open spec fn negotiation_verdict(
    requested_mode: SessionContentMode,
    requested_schema: Option<u32>,
    requested_execution: Option<&ExecutionIdentity>,
    echoed: Option<&NegotiatedSessionContent>,
) -> Result<(), SemanticNegotiationError> {
    if requested_mode == SessionContentMode::FullTerminal {
        match echoed {
            Some(e) => if e.content_mode != requested_mode {
                Err(SemanticNegotiationError::ContentModeMismatch)
            } else {
                Ok(())
            },
            None => Ok(()),
        }
    } else {
        match (requested_schema, requested_execution, echoed) {
            (None, _, _) => Err(SemanticNegotiationError::MissingRequestedSchema),
            (Some(_), None, _) => Err(SemanticNegotiationError::MissingRequestedExecution),
            (Some(_), Some(_), None) => Err(SemanticNegotiationError::MissingServerEcho),
            (Some(schema), Some(execution), Some(e)) => if e.content_mode != requested_mode {
                Err(SemanticNegotiationError::ContentModeMismatch)
            } else if e.semantic_schema_version != schema {
                Err(SemanticNegotiationError::SchemaMismatch)
            } else if e.execution_identity@ != execution@ {
                Err(SemanticNegotiationError::ExecutionMismatch)
            } else {
                Ok(())
            },
        }
    }
}

/// Validates the server echo for a requested content mode.
///
/// Legacy full-terminal callers accept an absent echo; a present echo must retain
/// full-terminal mode. Semantic callers require exact mode, schema, and execution
/// identity matches.
pub fn validate_negotiated_content(
    requested_mode: SessionContentMode,
    requested_schema: Option<u32>,
    requested_execution: Option<&ExecutionIdentity>,
    echoed: Option<&NegotiatedSessionContent>,
) -> (r: Result<(), SemanticNegotiationError>)
    ensures
        r == negotiation_verdict(requested_mode, requested_schema, requested_execution, echoed),
{
    if requested_mode == SessionContentMode::FullTerminal {
        return match echoed {
            Some(echoed) => {
                if echoed.content_mode != requested_mode {
                    Err(SemanticNegotiationError::ContentModeMismatch)
                } else {
                    Ok(())
                }
            },
            None => Ok(()),
        };
    }
    let requested_schema = match requested_schema {
        Some(schema) => schema,
        None => return Err(SemanticNegotiationError::MissingRequestedSchema),
    };
    let requested_execution = match requested_execution {
        Some(execution) => execution,
        None => return Err(SemanticNegotiationError::MissingRequestedExecution),
    };
    let echoed = match echoed {
        Some(echoed) => echoed,
        None => return Err(SemanticNegotiationError::MissingServerEcho),
    };
    if echoed.content_mode != requested_mode {
        return Err(SemanticNegotiationError::ContentModeMismatch);
    }
    if echoed.semantic_schema_version != requested_schema {
        return Err(SemanticNegotiationError::SchemaMismatch);
    }
    if echoed.execution_identity != *requested_execution {
        return Err(SemanticNegotiationError::ExecutionMismatch);
    }
    Ok(())
}

/// A semantic negotiation succeeds only on an echo that repeats the request exactly:
/// the requested semantic mode, schema and execution.
pub proof fn lemma_semantic_acceptance_is_exact(
    requested_mode: SessionContentMode,
    requested_schema: Option<u32>,
    requested_execution: Option<&ExecutionIdentity>,
    echoed: Option<&NegotiatedSessionContent>,
)
    requires
        requested_mode == SessionContentMode::SemanticConversationOnly,
        negotiation_verdict(requested_mode, requested_schema, requested_execution, echoed) is Ok,
    ensures
        echoed is Some,
        requested_execution is Some,
        echoed.unwrap().content_mode == requested_mode,
        requested_schema == Some(echoed.unwrap().semantic_schema_version),
        requested_execution.unwrap()@ == echoed.unwrap().execution_identity@,
{
}

/// A semantic request is accepted exactly when it names a schema and an execution and the
/// server echoes the semantic mode with that schema and that execution.
pub proof fn lemma_semantic_negotiation_accepts_exactly_an_exact_echo(
    requested_schema: Option<u32>,
    requested_execution: Option<&ExecutionIdentity>,
    echoed: Option<&NegotiatedSessionContent>,
)
    ensures
        negotiation_verdict(
            SessionContentMode::SemanticConversationOnly,
            requested_schema,
            requested_execution,
            echoed,
        ) is Ok <==> {
            &&& requested_schema is Some
            &&& requested_execution is Some
            &&& echoed is Some
            &&& echoed.unwrap().content_mode == SessionContentMode::SemanticConversationOnly
            &&& requested_schema == Some(echoed.unwrap().semantic_schema_version)
            &&& requested_execution.unwrap()@ == echoed.unwrap().execution_identity@
        },
{
}

/// A legacy full-terminal caller accepts an absent echo and any echo that keeps full-terminal mode.
pub proof fn lemma_full_terminal_accepts_absent_or_matching_echo(
    requested_schema: Option<u32>,
    requested_execution: Option<&ExecutionIdentity>,
    echoed: Option<&NegotiatedSessionContent>,
)
    ensures
        negotiation_verdict(
            SessionContentMode::FullTerminal,
            requested_schema,
            requested_execution,
            echoed,
        ) is Ok <==> (echoed is None || echoed.unwrap().content_mode
            == SessionContentMode::FullTerminal),
{
}

} // verus!
