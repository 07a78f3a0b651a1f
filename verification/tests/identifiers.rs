use session_sharing_protocol::common::{
    AgentPromptRequestId, BlockId, BufferId, ByteCount, CommandExecutionRequestId,
    ControlActionRequestId, FirebaseUid, InputOperationSeqNo, InputReplicaId,
    JoinSessionLinkArgs, ParticipantId, RoleRequestId, SelectionEventNo, ServerConversationToken,
    SessionId, SessionSecret, UserID, WriteToPtySeqNo,
};
use session_sharing_protocol::sharer::ReconnectToken;

fn is_random_v4_text(text: &str) -> bool {
    let chars: Vec<char> = text.chars().collect();
    chars.len() == 36
        && [8, 13, 18, 23].iter().all(|&i| chars[i] == '-')
        && chars[14] == '4'
        && ['8', '9', 'a', 'b'].contains(&chars[19])
        && chars
            .iter()
            .enumerate()
            .all(|(i, c)| [8, 13, 18, 23].contains(&i) || c.is_ascii_hexdigit() && !c.is_ascii_uppercase())
}

#[test]
fn session_id_text_is_hyphenated_lowercase_and_parses_back() {
    let id = SessionId::from_str("AAAAAAAA-AAAA-4AAA-8AAA-AAAAAAAAAAAA").unwrap();
    assert_eq!(id.to_string(), "aaaaaaaa-aaaa-4aaa-8aaa-aaaaaaaaaaaa");
    assert_eq!(SessionId::from_str(&id.to_string()).unwrap(), id);
    let fresh = SessionId::new();
    assert!(is_random_v4_text(&fresh.to_string()));
    assert_eq!(SessionId::from_str(&fresh.to_string()).unwrap(), fresh);
}

#[test]
fn session_id_and_its_uuid_round_trip() {
    let uuid = uuid::Uuid::parse_str("67e55044-10b1-426f-9247-bb680e5fe0c8").unwrap();
    let id = SessionId::from_uuid(uuid);
    assert_eq!(id.as_uuid(), uuid);
    assert_eq!(id.to_string(), "67e55044-10b1-426f-9247-bb680e5fe0c8");
    assert_eq!(SessionId::from_uuid(id.as_uuid()), id);
}

#[test]
fn session_id_rejects_text_that_is_no_uuid() {
    assert!(SessionId::from_str("not-a-uuid").is_err());
    assert!(SessionId::from_str("").is_err());
}

#[test]
fn join_route_carries_the_id_and_the_unmasked_secret() {
    let args = JoinSessionLinkArgs {
        session_id: SessionId::from_str("01234567-89ab-4def-8123-456789abcdef").unwrap(),
        session_secret: SessionSecret::from_str("s3cr3t").unwrap(),
    };
    assert_eq!(
        args.to_join_route(),
        "/sessions/join/01234567-89ab-4def-8123-456789abcdef?pwd=s3cr3t"
    );
    assert_eq!(args.secret_to_string(), "s3cr3t");
    assert_eq!(args.session_secret.to_string(), "***");
}

#[test]
fn secrets_and_reconnect_tokens_are_masked() {
    let secret = SessionSecret::new();
    assert_eq!(secret.to_string(), "***");
    assert!(SessionSecret::default() == SessionSecret::from_str("").unwrap());
    let token = ReconnectToken::from_str("token").unwrap();
    assert_eq!(token.to_string(), "***");
    assert!(ReconnectToken::new() != ReconnectToken::new());
}

#[test]
fn fresh_ids_are_random_v4_uuid_texts() {
    assert!(is_random_v4_text(&ParticipantId::new().to_string()));
    assert!(is_random_v4_text(&RoleRequestId::new().to_string()));
    assert!(is_random_v4_text(ControlActionRequestId::new().id()));
    assert!(is_random_v4_text(&UserID::default().anonymous_id));
    assert!(UserID::default().access_token.is_none());
    assert_ne!(ParticipantId::new(), ParticipantId::new());
    assert_ne!(AgentPromptRequestId::new(), AgentPromptRequestId::new());
    let _ = CommandExecutionRequestId::new();
    let token = ServerConversationToken::new();
    assert!(is_random_v4_text(&token.to_string()));
}

#[test]
fn conversation_token_text_and_uuid_round_trip() {
    let token = ServerConversationToken::from_str("67e55044-10b1-426f-9247-bb680e5fe0c8").unwrap();
    assert_eq!(token.to_string(), "67e55044-10b1-426f-9247-bb680e5fe0c8");
    let uuid = token.as_uuid();
    assert_eq!(ServerConversationToken::from_uuid(uuid), token);
    assert!(ServerConversationToken::from_str("xyz").is_err());
}

#[test]
fn string_ids_keep_their_text() {
    let block = BlockId::from("block-1".to_string());
    let buffer = BufferId::from(block.clone());
    assert_eq!(buffer.to_string(), "block-1");
    assert_eq!(BlockId::from(buffer), block);
    assert_eq!(ParticipantId::from("p".to_string()).to_string(), "p");
    assert_eq!(InputReplicaId::from("r".to_string()).to_string(), "r");
    assert_eq!(RoleRequestId::from("q".to_string()).to_string(), "q");
    let uid = FirebaseUid::from("uid".to_string());
    assert_eq!(String::from(uid), "uid");
}

#[test]
fn sequence_numbers_advance_by_one() {
    let mut input = InputOperationSeqNo::zero();
    input.advance();
    input.advance();
    assert_eq!(input.as_usize(), 2);
    assert_eq!(InputOperationSeqNo::from(7).as_usize(), 7);
    let mut pty = WriteToPtySeqNo::zero();
    pty.advance();
    assert_eq!(pty.as_usize(), 1);
    assert_eq!(WriteToPtySeqNo::from(3), WriteToPtySeqNo::from(3));
    assert_eq!(SelectionEventNo::from(5), SelectionEventNo::from(5));
}

#[test]
fn byte_counts_add_until_overflow() {
    let sum = ByteCount::from_u64(1024).add(ByteCount::from_u64(512)).unwrap();
    assert_eq!(sum.as_u64(), 1536);
    assert!(ByteCount::from_u64(u64::MAX).add(ByteCount::from_u64(1)).is_none());
    assert_eq!(ByteCount::from_usize(9).as_u64(), 9);
    assert!(ByteCount::from_u64(2).exceeds(ByteCount::from_u64(1)));
    assert!(!ByteCount::from_u64(1).exceeds(ByteCount::from_u64(1)));
}
