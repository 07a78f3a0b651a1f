use session_sharing_protocol::common::{
    validate_active_restore_snapshot, validate_active_session_snapshot_restore,
    validate_active_session_snapshot_resume, ActiveRestoreSnapshot,
    ActiveSessionSnapshotCapabilities, ActiveSessionSnapshotCompression,
    ActiveSessionSnapshotDescriptor, ActiveSessionSnapshotIdentity, ActiveSessionSnapshotRestore,
    ActiveSessionSnapshotResumeCursor, ActiveSessionSnapshotStorage,
    ActiveSessionSnapshotStorageLayoutKind, ActiveSessionSnapshotValidationError,
    ImmutableActiveSessionSnapshotObject, NegotiatedActiveSessionSnapshot, SessionId,
    ACTIVE_RESTORE_REDUCER_VERSION_V1, ACTIVE_RESTORE_SNAPSHOT_SCHEMA_VERSION_V1,
};

fn identity() -> ActiveSessionSnapshotIdentity {
    ActiveSessionSnapshotIdentity {
        session_id: SessionId::from_str("aaaaaaaa-aaaa-4aaa-8aaa-aaaaaaaaaaaa").unwrap(),
        conversation_id: "conversation".into(),
        execution_id: "314159".into(),
        run_id: Some("run".into()),
    }
}

fn capabilities() -> ActiveSessionSnapshotCapabilities {
    ActiveSessionSnapshotCapabilities {
        snapshot_schema_versions: vec![ACTIVE_RESTORE_SNAPSHOT_SCHEMA_VERSION_V1],
        reducer_versions: vec![ACTIVE_RESTORE_REDUCER_VERSION_V1],
        storage_layouts: vec![ActiveSessionSnapshotStorageLayoutKind::MonolithicV1],
        compression_codecs: vec![ActiveSessionSnapshotCompression::Zstd],
    }
}

fn descriptor() -> ActiveSessionSnapshotDescriptor {
    ActiveSessionSnapshotDescriptor {
        snapshot_id: "snapshot".into(),
        identity: identity(),
        snapshot_schema_version: ACTIVE_RESTORE_SNAPSHOT_SCHEMA_VERSION_V1,
        reducer_version: ACTIVE_RESTORE_REDUCER_VERSION_V1,
        through_event_no: 41,
        captured_at_unix_ms: 1_700_000_000_000,
        storage: ActiveSessionSnapshotStorage::MonolithicV1 {
            object: ImmutableActiveSessionSnapshotObject {
                object_id: "object".into(),
                object_generation: "7".into(),
                sha256: "00".repeat(32),
                compressed_size_bytes: 512,
                uncompressed_size_bytes: 1024,
                compression_codec: ActiveSessionSnapshotCompression::Zstd,
            },
        },
    }
}

fn bootstrap(resume: u64, catch_up: u64, floor: u64) -> ActiveSessionSnapshotRestore {
    let descriptor = descriptor();
    ActiveSessionSnapshotRestore::Bootstrap {
        negotiated: NegotiatedActiveSessionSnapshot {
            protocol: descriptor.negotiated_protocol(),
            identity: identity(),
        },
        snapshot: Box::new(descriptor),
        resume_from_event_no: resume,
        catch_up_through_event_no: catch_up,
        retained_event_floor: floor,
    }
}

fn cursor(last: u64) -> ActiveSessionSnapshotResumeCursor {
    let descriptor = descriptor();
    ActiveSessionSnapshotResumeCursor {
        snapshot_id: descriptor.snapshot_id.clone(),
        identity: descriptor.identity.clone(),
        snapshot_schema_version: descriptor.snapshot_schema_version,
        reducer_version: descriptor.reducer_version,
        storage_layout: descriptor.storage.kind(),
        compression_codec: descriptor.storage.compression_codec(),
        last_contiguous_event_no: last,
    }
}

fn resume(snapshot_id: &str, resume_from: u64) -> ActiveSessionSnapshotRestore {
    let descriptor = descriptor();
    ActiveSessionSnapshotRestore::Resume {
        negotiated: NegotiatedActiveSessionSnapshot {
            protocol: descriptor.negotiated_protocol(),
            identity: descriptor.identity,
        },
        snapshot_id: snapshot_id.into(),
        resume_from_event_no: resume_from,
        catch_up_through_event_no: 47,
        retained_event_floor: 42,
    }
}

#[test]
fn monolithic_bootstrap_requires_exact_protocol_and_cursor() {
    let descriptor = descriptor();
    let restore = ActiveSessionSnapshotRestore::Bootstrap {
        negotiated: NegotiatedActiveSessionSnapshot {
            protocol: descriptor.negotiated_protocol(),
            identity: identity(),
        },
        snapshot: Box::new(descriptor),
        resume_from_event_no: 42,
        catch_up_through_event_no: 45,
        retained_event_floor: 42,
    };

    assert!(validate_active_session_snapshot_restore(&capabilities(), &restore).is_ok());
}

#[test]
fn bootstrap_rejects_an_identity_mismatch() {
    let descriptor = descriptor();
    let mut negotiated_identity = identity();
    negotiated_identity.execution_id = "different-execution".into();
    let restore = ActiveSessionSnapshotRestore::Bootstrap {
        negotiated: NegotiatedActiveSessionSnapshot {
            protocol: descriptor.negotiated_protocol(),
            identity: negotiated_identity,
        },
        snapshot: Box::new(descriptor),
        resume_from_event_no: 42,
        catch_up_through_event_no: 45,
        retained_event_floor: 42,
    };

    assert_eq!(
        validate_active_session_snapshot_restore(&capabilities(), &restore),
        Err(ActiveSessionSnapshotValidationError::IdentityMismatch)
    );
}

#[test]
fn downloaded_snapshot_must_match_its_descriptor() {
    let descriptor = descriptor();
    let mut snapshot = ActiveRestoreSnapshot {
        snapshot_id: descriptor.snapshot_id.clone(),
        identity: descriptor.identity.clone(),
        snapshot_schema_version: descriptor.snapshot_schema_version,
        reducer_version: descriptor.reducer_version,
        through_event_no: descriptor.through_event_no,
        captured_at_unix_ms: descriptor.captured_at_unix_ms,
        ordered_message_ids: vec!["message-1".into()],
        terminal_state: vec![1],
        conversation_data: vec![2],
        additional_reducer_state: vec![3],
    };

    assert!(validate_active_restore_snapshot(&descriptor, &snapshot).is_ok());
    snapshot.through_event_no += 1;
    assert_eq!(
        validate_active_restore_snapshot(&descriptor, &snapshot),
        Err(ActiveSessionSnapshotValidationError::SnapshotMetadataMismatch)
    );
}

#[test]
fn resume_requires_the_exact_previous_cursor() {
    let descriptor = descriptor();
    let cursor = ActiveSessionSnapshotResumeCursor {
        snapshot_id: descriptor.snapshot_id.clone(),
        identity: descriptor.identity.clone(),
        snapshot_schema_version: descriptor.snapshot_schema_version,
        reducer_version: descriptor.reducer_version,
        storage_layout: descriptor.storage.kind(),
        compression_codec: descriptor.storage.compression_codec(),
        last_contiguous_event_no: 44,
    };
    let restore = ActiveSessionSnapshotRestore::Resume {
        negotiated: NegotiatedActiveSessionSnapshot {
            protocol: descriptor.negotiated_protocol(),
            identity: descriptor.identity,
        },
        snapshot_id: descriptor.snapshot_id,
        resume_from_event_no: 45,
        catch_up_through_event_no: 47,
        retained_event_floor: 42,
    };

    assert!(validate_active_session_snapshot_resume(&cursor, &restore).is_ok());
}

#[test]
fn unadvertised_schema_version_is_an_unsupported_protocol() {
    let unsupported = ActiveSessionSnapshotCapabilities {
        snapshot_schema_versions: vec![2],
        ..capabilities()
    };
    assert_eq!(
        validate_active_session_snapshot_restore(&unsupported, &bootstrap(42, 45, 42)),
        Err(ActiveSessionSnapshotValidationError::UnsupportedProtocol)
    );
    assert!(!unsupported.supports(&descriptor().negotiated_protocol()));
    assert!(capabilities().supports(&descriptor().negotiated_protocol()));
}

#[test]
fn bootstrap_with_another_protocol_is_a_protocol_mismatch() {
    let mut restore = bootstrap(42, 45, 42);
    if let ActiveSessionSnapshotRestore::Bootstrap { snapshot, .. } = &mut restore {
        snapshot.reducer_version = 2;
    }
    let caps = ActiveSessionSnapshotCapabilities {
        reducer_versions: vec![1, 2],
        ..capabilities()
    };
    assert_eq!(
        validate_active_session_snapshot_restore(&caps, &restore),
        Err(ActiveSessionSnapshotValidationError::ProtocolMismatch)
    );
}

#[test]
fn bootstrap_event_window_edges() {
    // The resume point must follow the snapshot's last event (41).
    assert_eq!(
        validate_active_session_snapshot_restore(&capabilities(), &bootstrap(43, 45, 42)),
        Err(ActiveSessionSnapshotValidationError::InvalidResumeCursor)
    );
    // Resuming one past the catch-up point is allowed, not further.
    assert!(validate_active_session_snapshot_restore(&capabilities(), &bootstrap(42, 41, 42)).is_ok());
    assert_eq!(
        validate_active_session_snapshot_restore(&capabilities(), &bootstrap(42, 40, 42)),
        Err(ActiveSessionSnapshotValidationError::InvalidResumeCursor)
    );
    // The retained floor may not exceed the resume point.
    assert_eq!(
        validate_active_session_snapshot_restore(&capabilities(), &bootstrap(42, 45, 43)),
        Err(ActiveSessionSnapshotValidationError::InvalidResumeCursor)
    );
}

#[test]
fn resume_window_is_checked_without_a_snapshot() {
    let restore = ActiveSessionSnapshotRestore::Resume {
        negotiated: NegotiatedActiveSessionSnapshot {
            protocol: descriptor().negotiated_protocol(),
            identity: identity(),
        },
        snapshot_id: "snapshot".into(),
        resume_from_event_no: u64::MAX,
        catch_up_through_event_no: u64::MAX,
        retained_event_floor: 0,
    };
    assert!(validate_active_session_snapshot_restore(&capabilities(), &restore).is_ok());
    let restore = ActiveSessionSnapshotRestore::Resume {
        negotiated: NegotiatedActiveSessionSnapshot {
            protocol: descriptor().negotiated_protocol(),
            identity: identity(),
        },
        snapshot_id: "snapshot".into(),
        resume_from_event_no: 10,
        catch_up_through_event_no: 5,
        retained_event_floor: 0,
    };
    assert_eq!(
        validate_active_session_snapshot_restore(&capabilities(), &restore),
        Err(ActiveSessionSnapshotValidationError::InvalidResumeCursor)
    );
}

#[test]
fn resume_errors_name_the_first_mismatch() {
    assert_eq!(
        validate_active_session_snapshot_resume(&cursor(44), &resume("other", 45)),
        Err(ActiveSessionSnapshotValidationError::SnapshotIdMismatch)
    );
    assert_eq!(
        validate_active_session_snapshot_resume(&cursor(44), &resume("snapshot", 46)),
        Err(ActiveSessionSnapshotValidationError::InvalidResumeCursor)
    );
    assert_eq!(
        validate_active_session_snapshot_resume(&cursor(44), &bootstrap(42, 45, 42)),
        Err(ActiveSessionSnapshotValidationError::InvalidResumeCursor)
    );
    let mut other_identity = cursor(44);
    other_identity.identity.run_id = None;
    assert_eq!(
        validate_active_session_snapshot_resume(&other_identity, &resume("snapshot", 45)),
        Err(ActiveSessionSnapshotValidationError::IdentityMismatch)
    );
    let mut other_protocol = cursor(44);
    other_protocol.snapshot_schema_version = 9;
    assert_eq!(
        validate_active_session_snapshot_resume(&other_protocol, &resume("snapshot", 45)),
        Err(ActiveSessionSnapshotValidationError::ProtocolMismatch)
    );
    assert_eq!(
        validate_active_session_snapshot_resume(&cursor(u64::MAX), &resume("snapshot", 0)),
        Err(ActiveSessionSnapshotValidationError::InvalidResumeCursor)
    );
}

#[test]
fn downloaded_snapshot_errors() {
    let descriptor = descriptor();
    let snapshot = ActiveRestoreSnapshot {
        snapshot_id: "another".into(),
        identity: descriptor.identity.clone(),
        snapshot_schema_version: descriptor.snapshot_schema_version,
        reducer_version: descriptor.reducer_version,
        through_event_no: descriptor.through_event_no,
        captured_at_unix_ms: descriptor.captured_at_unix_ms,
        ordered_message_ids: vec![],
        terminal_state: vec![],
        conversation_data: vec![],
        additional_reducer_state: vec![],
    };
    assert_eq!(
        validate_active_restore_snapshot(&descriptor, &snapshot),
        Err(ActiveSessionSnapshotValidationError::SnapshotIdMismatch)
    );
    let mut snapshot = snapshot;
    snapshot.snapshot_id = "snapshot".into();
    snapshot.identity.conversation_id = "other".into();
    assert_eq!(
        validate_active_restore_snapshot(&descriptor, &snapshot),
        Err(ActiveSessionSnapshotValidationError::IdentityMismatch)
    );
}
