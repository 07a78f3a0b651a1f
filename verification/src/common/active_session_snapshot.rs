use super::text::{opt_text, opt_text_eq};
use super::SessionId;
use vstd::prelude::*;

verus! {

/// Initial schema version for active-session restore snapshots.
pub const ACTIVE_RESTORE_SNAPSHOT_SCHEMA_VERSION_V1: u32 = 1;

/// Initial reducer version for active-session restore snapshots.
pub const ACTIVE_RESTORE_REDUCER_VERSION_V1: u32 = 1;

/// Storage layouts a client can read.
#[derive(Clone, Copy, Debug, PartialEq, Eq, Structural)]
pub enum ActiveSessionSnapshotStorageLayoutKind {
    MonolithicV1,
}

/// Compression codecs supported for immutable snapshot objects.
#[derive(Clone, Copy, Debug, PartialEq, Eq, Structural)]
pub enum ActiveSessionSnapshotCompression {
    Zstd,
}

/// Snapshot capabilities advertised by a client.
#[derive(Clone, Debug, PartialEq, Eq)]
pub struct ActiveSessionSnapshotCapabilities {
    pub snapshot_schema_versions: Vec<u32>,
    pub reducer_versions: Vec<u32>,
    pub storage_layouts: Vec<ActiveSessionSnapshotStorageLayoutKind>,
    pub compression_codecs: Vec<ActiveSessionSnapshotCompression>,
}

/// The client advertises every value that the protocol selects.
pub open spec fn supports_protocol(
    capabilities: ActiveSessionSnapshotCapabilities,
    protocol: NegotiatedActiveSessionSnapshotProtocol,
) -> bool {
    &&& capabilities.snapshot_schema_versions@.contains(protocol.snapshot_schema_version)
    &&& capabilities.reducer_versions@.contains(protocol.reducer_version)
    &&& capabilities.storage_layouts@.contains(protocol.storage_layout)
    &&& capabilities.compression_codecs@.contains(protocol.compression_codec)
}

fn contains_version(versions: &Vec<u32>, version: u32) -> (r: bool)
    ensures
        r == versions@.contains(version),
{
    let mut i: usize = 0;
    while i < versions.len()
        invariant
            i <= versions@.len(),
            forall|j: int| 0 <= j < i ==> versions@[j] != version,
        decreases versions@.len() - i,
    {
        if versions[i] == version {
            return true;
        }
        i = i + 1;
    }
    false
}

fn contains_layout(
    layouts: &Vec<ActiveSessionSnapshotStorageLayoutKind>,
    layout: ActiveSessionSnapshotStorageLayoutKind,
) -> (r: bool)
    ensures
        r == layouts@.contains(layout),
{
    let mut i: usize = 0;
    while i < layouts.len()
        invariant
            i <= layouts@.len(),
            forall|j: int| 0 <= j < i ==> layouts@[j] != layout,
        decreases layouts@.len() - i,
    {
        if layouts[i] == layout {
            return true;
        }
        i = i + 1;
    }
    false
}

fn contains_codec(
    codecs: &Vec<ActiveSessionSnapshotCompression>,
    codec: ActiveSessionSnapshotCompression,
) -> (r: bool)
    ensures
        r == codecs@.contains(codec),
{
    let mut i: usize = 0;
    while i < codecs.len()
        invariant
            i <= codecs@.len(),
            forall|j: int| 0 <= j < i ==> codecs@[j] != codec,
        decreases codecs@.len() - i,
    {
        if codecs[i] == codec {
            return true;
        }
        i = i + 1;
    }
    false
}

impl ActiveSessionSnapshotCapabilities {
    pub fn supports(&self, protocol: &NegotiatedActiveSessionSnapshotProtocol) -> (r: bool)
        ensures
            r == supports_protocol(*self, *protocol),
    {
        contains_version(&self.snapshot_schema_versions, protocol.snapshot_schema_version)
            && contains_version(&self.reducer_versions, protocol.reducer_version)
            && contains_layout(&self.storage_layouts, protocol.storage_layout) && contains_codec(
            &self.compression_codecs,
            protocol.compression_codec,
        )
    }
}

/// Snapshot protocol values positively selected by the server.
#[derive(Clone, Debug, PartialEq, Eq, Structural)]
pub struct NegotiatedActiveSessionSnapshotProtocol {
    pub snapshot_schema_version: u32,
    pub reducer_version: u32,
    pub storage_layout: ActiveSessionSnapshotStorageLayoutKind,
    pub compression_codec: ActiveSessionSnapshotCompression,
}

/// Exact session and active execution represented by a snapshot.
#[derive(Clone, Debug, Eq)]
pub struct ActiveSessionSnapshotIdentity {
    pub session_id: SessionId,
    pub conversation_id: String,
    /// Opaque server-issued execution epoch. Clients must not derive this value.
    pub execution_id: String,
    /// Stable conversation-run correlation key across execution handoffs.
    pub run_id: Option<String>,
}

impl View for ActiveSessionSnapshotIdentity {
    type V = (SessionId, Seq<char>, Seq<char>, Option<Seq<char>>);

    open spec fn view(&self) -> Self::V {
        (self.session_id, self.conversation_id@, self.execution_id@, opt_text(self.run_id))
    }
}

impl PartialEq for ActiveSessionSnapshotIdentity {
    fn eq(&self, other: &Self) -> (r: bool) {
        self.session_id == other.session_id && self.conversation_id == other.conversation_id
            && self.execution_id == other.execution_id && opt_text_eq(&self.run_id, &other.run_id)
    }
}

impl vstd::std_specs::cmp::PartialEqSpecImpl for ActiveSessionSnapshotIdentity {
    open spec fn obeys_eq_spec() -> bool {
        true
    }

    open spec fn eq_spec(&self, other: &Self) -> bool {
        self@ == other@
    }
}

/// A protocol selection bound to the exact execution being restored.
#[derive(Clone, Debug, PartialEq, Eq)]
pub struct NegotiatedActiveSessionSnapshot {
    pub protocol: NegotiatedActiveSessionSnapshotProtocol,
    pub identity: ActiveSessionSnapshotIdentity,
}

/// The downloaded logical snapshot payload.
///
/// Storage metadata is deliberately outside this payload so its hash does not
/// recursively include itself.
#[derive(Clone, Debug, PartialEq, Eq)]
pub struct ActiveRestoreSnapshot {
    pub snapshot_id: String,
    pub identity: ActiveSessionSnapshotIdentity,
    pub snapshot_schema_version: u32,
    pub reducer_version: u32,
    pub through_event_no: u64,
    pub captured_at_unix_ms: u64,
    pub ordered_message_ids: Vec<String>,
    pub terminal_state: Vec<u8>,
    pub conversation_data: Vec<u8>,
    pub additional_reducer_state: Vec<u8>,
}

/// An immutable object containing a compressed active-session snapshot.
#[derive(Clone, Debug, PartialEq, Eq)]
pub struct ImmutableActiveSessionSnapshotObject {
    /// Opaque storage-system identifier. This is not a download URL.
    pub object_id: String,
    /// Opaque immutable object generation.
    pub object_generation: String,
    /// Lowercase hexadecimal SHA-256 of the compressed object bytes.
    pub sha256: String,
    pub compressed_size_bytes: u64,
    pub uncompressed_size_bytes: u64,
    pub compression_codec: ActiveSessionSnapshotCompression,
}

/// Layout-specific storage descriptor for an active-session snapshot.
#[derive(Clone, Debug, PartialEq, Eq)]
pub enum ActiveSessionSnapshotStorage {
    MonolithicV1 { object: ImmutableActiveSessionSnapshotObject },
}

/// The codec that the stored object is compressed with.
pub open spec fn storage_codec(storage: ActiveSessionSnapshotStorage) -> ActiveSessionSnapshotCompression {
    match storage {
        ActiveSessionSnapshotStorage::MonolithicV1 { object } => object.compression_codec,
    }
}

/// The layout of a storage descriptor.
pub open spec fn storage_kind(storage: ActiveSessionSnapshotStorage) -> ActiveSessionSnapshotStorageLayoutKind {
    match storage {
        ActiveSessionSnapshotStorage::MonolithicV1 { .. } => ActiveSessionSnapshotStorageLayoutKind::MonolithicV1,
    }
}

impl ActiveSessionSnapshotStorage {
    pub fn kind(&self) -> (r: ActiveSessionSnapshotStorageLayoutKind)
        ensures
            r == storage_kind(*self),
    {
        match self {
            Self::MonolithicV1 { .. } => ActiveSessionSnapshotStorageLayoutKind::MonolithicV1,
        }
    }

    pub fn compression_codec(&self) -> (r: ActiveSessionSnapshotCompression)
        ensures
            r == storage_codec(*self),
    {
        match self {
            Self::MonolithicV1 { object } => object.compression_codec,
        }
    }
}

/// Immutable metadata needed to select and download one snapshot generation.
#[derive(Clone, Debug, PartialEq, Eq)]
pub struct ActiveSessionSnapshotDescriptor {
    pub snapshot_id: String,
    pub identity: ActiveSessionSnapshotIdentity,
    pub snapshot_schema_version: u32,
    pub reducer_version: u32,
    pub through_event_no: u64,
    pub captured_at_unix_ms: u64,
    pub storage: ActiveSessionSnapshotStorage,
}

/// The protocol values that a descriptor's snapshot was written with.
pub open spec fn descriptor_protocol(d: ActiveSessionSnapshotDescriptor) -> NegotiatedActiveSessionSnapshotProtocol {
    NegotiatedActiveSessionSnapshotProtocol {
        snapshot_schema_version: d.snapshot_schema_version,
        reducer_version: d.reducer_version,
        storage_layout: storage_kind(d.storage),
        compression_codec: storage_codec(d.storage),
    }
}

impl ActiveSessionSnapshotDescriptor {
    pub fn negotiated_protocol(&self) -> (r: NegotiatedActiveSessionSnapshotProtocol)
        ensures
            r == descriptor_protocol(*self),
    {
        NegotiatedActiveSessionSnapshotProtocol {
            snapshot_schema_version: self.snapshot_schema_version,
            reducer_version: self.reducer_version,
            storage_layout: self.storage.kind(),
            compression_codec: self.storage.compression_codec(),
        }
    }
}

/// A storage-validated snapshot that may be submitted for publication.
#[derive(Clone, PartialEq, Eq)]
pub struct PreparedActiveSessionSnapshotReceipt {
    pub receipt: String,
    pub descriptor: ActiveSessionSnapshotDescriptor,
}

/// Result of preparing or publishing a snapshot generation.
#[derive(Clone, Copy, Debug, PartialEq, Eq, Structural)]
pub enum ActiveSessionSnapshotPublicationStatus {
    Prepared,
    Committed,
    Idempotent,
    Stale,
    NotContiguousYet,
    Conflict,
    TooLarge,
    UnsupportedVersion,
    InvalidObject,
}

/// Acknowledgement for a snapshot publication attempt.
#[derive(Clone, Debug, PartialEq, Eq)]
pub struct ActiveSessionSnapshotPublicationAck {
    pub snapshot_id: String,
    pub status: ActiveSessionSnapshotPublicationStatus,
    pub highest_contiguous_event_no: Option<u64>,
    pub retained_event_floor: Option<u64>,
}

/// Cursor supplied by a viewer reconnecting after snapshot restoration.
#[derive(Clone, Debug, PartialEq, Eq)]
pub struct ActiveSessionSnapshotResumeCursor {
    pub snapshot_id: String,
    pub identity: ActiveSessionSnapshotIdentity,
    pub snapshot_schema_version: u32,
    pub reducer_version: u32,
    pub storage_layout: ActiveSessionSnapshotStorageLayoutKind,
    pub compression_codec: ActiveSessionSnapshotCompression,
    pub last_contiguous_event_no: u64,
}

/// The protocol values that a cursor was restored with.
pub open spec fn cursor_protocol(c: ActiveSessionSnapshotResumeCursor) -> NegotiatedActiveSessionSnapshotProtocol {
    NegotiatedActiveSessionSnapshotProtocol {
        snapshot_schema_version: c.snapshot_schema_version,
        reducer_version: c.reducer_version,
        storage_layout: c.storage_layout,
        compression_codec: c.compression_codec,
    }
}

impl ActiveSessionSnapshotResumeCursor {
    pub fn protocol(&self) -> (r: NegotiatedActiveSessionSnapshotProtocol)
        ensures
            r == cursor_protocol(*self),
    {
        NegotiatedActiveSessionSnapshotProtocol {
            snapshot_schema_version: self.snapshot_schema_version,
            reducer_version: self.reducer_version,
            storage_layout: self.storage_layout,
            compression_codec: self.compression_codec,
        }
    }
}

/// Restore instructions returned after a viewer joins or reconnects.
#[derive(Clone, Debug, PartialEq, Eq)]
pub enum ActiveSessionSnapshotRestore {
    Bootstrap {
        negotiated: NegotiatedActiveSessionSnapshot,
        snapshot: Box<ActiveSessionSnapshotDescriptor>,
        resume_from_event_no: u64,
        catch_up_through_event_no: u64,
        retained_event_floor: u64,
    },
    Resume {
        negotiated: NegotiatedActiveSessionSnapshot,
        snapshot_id: String,
        resume_from_event_no: u64,
        catch_up_through_event_no: u64,
        retained_event_floor: u64,
    },
}

/// Why a viewer must discard transient state and request a fresh bootstrap.
#[derive(Clone, Debug, PartialEq, Eq, Structural)]
pub enum ActiveSessionSnapshotResyncReason {
    SessionChanged,
    ConversationChanged,
    ExecutionChanged,
    SnapshotSchemaMismatch { expected: u32, received: u32 },
    ReducerVersionMismatch { expected: u32, received: u32 },
    StorageLayoutMismatch,
    SnapshotIdentityMismatch,
    CursorAhead { highest_contiguous_event_no: u64 },
    CursorBelowRetainedFloor { retained_event_floor: u64 },
    SnapshotMissing,
    EventMissing { event_no: u64 },
    SnapshotHashMismatch,
    SnapshotSizeMismatch,
    SnapshotDecompressionFailed,
    SnapshotDecodeFailed,
    ReplayGap { expected_event_no: u64, next_available_event_no: u64 },
    ConflictingDuplicate { event_no: u64 },
    StorageUnavailable,
    BufferLimitExceeded,
    BootstrapTimedOut,
}

/// Fail-closed validation error for negotiated snapshot restore instructions.
#[derive(Clone, Copy, Debug, PartialEq, Eq, Structural)]
pub enum ActiveSessionSnapshotValidationError {
    UnsupportedProtocol,
    ProtocolMismatch,
    IdentityMismatch,
    SnapshotIdMismatch,
    SnapshotMetadataMismatch,
    InvalidResumeCursor,
}

/// The verdict on a downloaded snapshot against the descriptor it was selected by: the ids,
/// then the identities, then the versions, event number and capture time must match.
pub open spec fn restore_snapshot_verdict(
    descriptor: ActiveSessionSnapshotDescriptor,
    snapshot: ActiveRestoreSnapshot,
) -> Result<(), ActiveSessionSnapshotValidationError> {
    if descriptor.snapshot_id@ != snapshot.snapshot_id@ {
        Err(ActiveSessionSnapshotValidationError::SnapshotIdMismatch)
    } else if descriptor.identity@ != snapshot.identity@ {
        Err(ActiveSessionSnapshotValidationError::IdentityMismatch)
    } else if descriptor.snapshot_schema_version != snapshot.snapshot_schema_version
        || descriptor.reducer_version != snapshot.reducer_version || descriptor.through_event_no
        != snapshot.through_event_no || descriptor.captured_at_unix_ms
        != snapshot.captured_at_unix_ms {
        Err(ActiveSessionSnapshotValidationError::SnapshotMetadataMismatch)
    } else {
        Ok(())
    }
}

pub fn validate_active_restore_snapshot(
    descriptor: &ActiveSessionSnapshotDescriptor,
    snapshot: &ActiveRestoreSnapshot,
) -> (r: Result<(), ActiveSessionSnapshotValidationError>)
    ensures
        r == restore_snapshot_verdict(*descriptor, *snapshot),
{
    if !(descriptor.snapshot_id == snapshot.snapshot_id) {
        return Err(ActiveSessionSnapshotValidationError::SnapshotIdMismatch);
    }
    if !(descriptor.identity == snapshot.identity) {
        return Err(ActiveSessionSnapshotValidationError::IdentityMismatch);
    }
    if descriptor.snapshot_schema_version != snapshot.snapshot_schema_version
        || descriptor.reducer_version != snapshot.reducer_version || descriptor.through_event_no
        != snapshot.through_event_no || descriptor.captured_at_unix_ms
        != snapshot.captured_at_unix_ms {
        return Err(ActiveSessionSnapshotValidationError::SnapshotMetadataMismatch);
    }
    Ok(())
}

/// The event window of restore instructions is consistent: the viewer resumes no later
/// than one past the catch-up point, and the retained floor is not above the resume point.
pub open spec fn window_is_consistent(
    resume_from_event_no: u64,
    catch_up_through_event_no: u64,
    retained_event_floor: u64,
) -> bool {
    resume_from_event_no <= catch_up_through_event_no + 1 && retained_event_floor
        <= resume_from_event_no
}

/// The verdict on restore instructions for a client with the given capabilities.
///
/// Both forms fail with `UnsupportedProtocol` unless the client advertises the negotiated
/// protocol. A bootstrap must then carry a snapshot written with exactly that protocol and
/// for exactly the negotiated identity, and resume right after the snapshot's last event.
/// Both forms need a consistent event window.
pub open spec fn restore_verdict(
    capabilities: ActiveSessionSnapshotCapabilities,
    restore: ActiveSessionSnapshotRestore,
) -> Result<(), ActiveSessionSnapshotValidationError> {
    match restore {
        ActiveSessionSnapshotRestore::Bootstrap {
            negotiated,
            snapshot,
            resume_from_event_no,
            catch_up_through_event_no,
            retained_event_floor,
        } => if !supports_protocol(capabilities, negotiated.protocol) {
            Err(ActiveSessionSnapshotValidationError::UnsupportedProtocol)
        } else if descriptor_protocol(*snapshot) != negotiated.protocol {
            Err(ActiveSessionSnapshotValidationError::ProtocolMismatch)
        } else if snapshot.identity@ != negotiated.identity@ {
            Err(ActiveSessionSnapshotValidationError::IdentityMismatch)
        } else if snapshot.through_event_no + 1 != resume_from_event_no || !window_is_consistent(
            resume_from_event_no,
            catch_up_through_event_no,
            retained_event_floor,
        ) {
            Err(ActiveSessionSnapshotValidationError::InvalidResumeCursor)
        } else {
            Ok(())
        },
        ActiveSessionSnapshotRestore::Resume {
            negotiated,
            resume_from_event_no,
            catch_up_through_event_no,
            retained_event_floor,
            ..
        } => if !supports_protocol(capabilities, negotiated.protocol) {
            Err(ActiveSessionSnapshotValidationError::UnsupportedProtocol)
        } else if !window_is_consistent(
            resume_from_event_no,
            catch_up_through_event_no,
            retained_event_floor,
        ) {
            Err(ActiveSessionSnapshotValidationError::InvalidResumeCursor)
        } else {
            Ok(())
        },
    }
}

pub fn validate_active_session_snapshot_restore(
    capabilities: &ActiveSessionSnapshotCapabilities,
    restore: &ActiveSessionSnapshotRestore,
) -> (r: Result<(), ActiveSessionSnapshotValidationError>)
    ensures
        r == restore_verdict(*capabilities, *restore),
{
    match restore {
        ActiveSessionSnapshotRestore::Bootstrap {
            negotiated,
            snapshot,
            resume_from_event_no,
            catch_up_through_event_no,
            retained_event_floor,
        } => {
            if !capabilities.supports(&negotiated.protocol) {
                return Err(ActiveSessionSnapshotValidationError::UnsupportedProtocol);
            }
            if snapshot.negotiated_protocol() != negotiated.protocol {
                return Err(ActiveSessionSnapshotValidationError::ProtocolMismatch);
            }
            if !(snapshot.identity == negotiated.identity) {
                return Err(ActiveSessionSnapshotValidationError::IdentityMismatch);
            }
            let next_event = snapshot.through_event_no.checked_add(1);
            let resumes_after_snapshot = match next_event {
                Some(next) => next == *resume_from_event_no,
                None => false,
            };
            if !resumes_after_snapshot || *resume_from_event_no
                > catch_up_through_event_no.saturating_add(1) || *retained_event_floor
                > *resume_from_event_no {
                return Err(ActiveSessionSnapshotValidationError::InvalidResumeCursor);
            }
        },
        ActiveSessionSnapshotRestore::Resume {
            negotiated,
            resume_from_event_no,
            catch_up_through_event_no,
            retained_event_floor,
            ..
        } => {
            if !capabilities.supports(&negotiated.protocol) {
                return Err(ActiveSessionSnapshotValidationError::UnsupportedProtocol);
            }
            if *resume_from_event_no > catch_up_through_event_no.saturating_add(1)
                || *retained_event_floor > *resume_from_event_no {
                return Err(ActiveSessionSnapshotValidationError::InvalidResumeCursor);
            }
        },
    }
    Ok(())
}

/// The verdict on resume instructions for a viewer holding the given cursor: they must be
/// a resume (not a bootstrap) of the cursor's snapshot, for its identity and protocol, and
/// continue right after the cursor's last contiguous event.
pub open spec fn resume_verdict(
    cursor: ActiveSessionSnapshotResumeCursor,
    restore: ActiveSessionSnapshotRestore,
) -> Result<(), ActiveSessionSnapshotValidationError> {
    match restore {
        ActiveSessionSnapshotRestore::Bootstrap { .. } => Err(
            ActiveSessionSnapshotValidationError::InvalidResumeCursor,
        ),
        ActiveSessionSnapshotRestore::Resume {
            negotiated,
            snapshot_id,
            resume_from_event_no,
            ..
        } => if snapshot_id@ != cursor.snapshot_id@ {
            Err(ActiveSessionSnapshotValidationError::SnapshotIdMismatch)
        } else if negotiated.identity@ != cursor.identity@ {
            Err(ActiveSessionSnapshotValidationError::IdentityMismatch)
        } else if negotiated.protocol != cursor_protocol(cursor) {
            Err(ActiveSessionSnapshotValidationError::ProtocolMismatch)
        } else if cursor.last_contiguous_event_no + 1 != resume_from_event_no {
            Err(ActiveSessionSnapshotValidationError::InvalidResumeCursor)
        } else {
            Ok(())
        },
    }
}

pub fn validate_active_session_snapshot_resume(
    cursor: &ActiveSessionSnapshotResumeCursor,
    restore: &ActiveSessionSnapshotRestore,
) -> (r: Result<(), ActiveSessionSnapshotValidationError>)
    ensures
        r == resume_verdict(*cursor, *restore),
{
    let (negotiated, snapshot_id, resume_from_event_no) = match restore {
        ActiveSessionSnapshotRestore::Resume {
            negotiated,
            snapshot_id,
            resume_from_event_no,
            ..
        } => (negotiated, snapshot_id, resume_from_event_no),
        ActiveSessionSnapshotRestore::Bootstrap { .. } => {
            return Err(ActiveSessionSnapshotValidationError::InvalidResumeCursor);
        },
    };
    if !(*snapshot_id == cursor.snapshot_id) {
        return Err(ActiveSessionSnapshotValidationError::SnapshotIdMismatch);
    }
    if !(negotiated.identity == cursor.identity) {
        return Err(ActiveSessionSnapshotValidationError::IdentityMismatch);
    }
    if negotiated.protocol != cursor.protocol() {
        return Err(ActiveSessionSnapshotValidationError::ProtocolMismatch);
    }
    let next_event = cursor.last_contiguous_event_no.checked_add(1);
    let continues_cursor = match next_event {
        Some(next) => next == *resume_from_event_no,
        None => false,
    };
    if !continues_cursor {
        return Err(ActiveSessionSnapshotValidationError::InvalidResumeCursor);
    }
    Ok(())
}

/// Accepted restore instructions are safe to follow: the client supports the negotiated
/// protocol, the event window is consistent, and a bootstrap's snapshot was written with the
/// negotiated protocol for the negotiated identity and is resumed right after its last event.
pub proof fn lemma_accepted_restore_is_consistent(
    capabilities: ActiveSessionSnapshotCapabilities,
    restore: ActiveSessionSnapshotRestore,
)
    requires
        restore_verdict(capabilities, restore) is Ok,
    ensures
        match restore {
            ActiveSessionSnapshotRestore::Bootstrap {
                negotiated,
                snapshot,
                resume_from_event_no,
                catch_up_through_event_no,
                retained_event_floor,
            } => {
                &&& supports_protocol(capabilities, negotiated.protocol)
                &&& descriptor_protocol(*snapshot) == negotiated.protocol
                &&& snapshot.identity@ == negotiated.identity@
                &&& resume_from_event_no == snapshot.through_event_no + 1
                &&& retained_event_floor <= resume_from_event_no <= catch_up_through_event_no + 1
            },
            ActiveSessionSnapshotRestore::Resume {
                negotiated,
                resume_from_event_no,
                catch_up_through_event_no,
                retained_event_floor,
                ..
            } => {
                &&& supports_protocol(capabilities, negotiated.protocol)
                &&& retained_event_floor <= resume_from_event_no <= catch_up_through_event_no + 1
            },
        },
{
}

/// Restore instructions are accepted exactly when they are safe to follow, and each refusal
/// names its cause. Both forms are accepted exactly when the client advertises every value
/// of the negotiated protocol and the viewer resumes at or above the retained floor and no
/// later than one past the catch-up point; a bootstrap must also carry a snapshot written
/// with that protocol for the negotiated identity and resume right after its last event. An
/// unadvertised protocol is refused as unsupported, and a supported resume whose window is
/// out of order is refused as an invalid cursor.
pub proof fn lemma_restore_accepted_exactly_when_consistent(
    capabilities: ActiveSessionSnapshotCapabilities,
    restore: ActiveSessionSnapshotRestore,
)
    ensures
        match restore {
            ActiveSessionSnapshotRestore::Bootstrap {
                negotiated,
                snapshot,
                resume_from_event_no,
                catch_up_through_event_no,
                retained_event_floor,
            } => {
                let advertised = {
                    &&& capabilities.snapshot_schema_versions@.contains(
                        negotiated.protocol.snapshot_schema_version,
                    )
                    &&& capabilities.reducer_versions@.contains(negotiated.protocol.reducer_version)
                    &&& capabilities.storage_layouts@.contains(negotiated.protocol.storage_layout)
                    &&& capabilities.compression_codecs@.contains(
                        negotiated.protocol.compression_codec,
                    )
                };
                &&& (restore_verdict(capabilities, restore) is Ok <==> {
                    &&& advertised
                    &&& snapshot.snapshot_schema_version == negotiated.protocol.snapshot_schema_version
                    &&& snapshot.reducer_version == negotiated.protocol.reducer_version
                    &&& match snapshot.storage {
                        ActiveSessionSnapshotStorage::MonolithicV1 { object } => {
                            &&& negotiated.protocol.storage_layout
                                == ActiveSessionSnapshotStorageLayoutKind::MonolithicV1
                            &&& object.compression_codec == negotiated.protocol.compression_codec
                        },
                    }
                    &&& snapshot.identity@ == negotiated.identity@
                    &&& resume_from_event_no == snapshot.through_event_no + 1
                    &&& retained_event_floor <= resume_from_event_no
                    &&& resume_from_event_no <= catch_up_through_event_no + 1
                })
                &&& (!advertised ==> restore_verdict(capabilities, restore) == Err::<
                    (),
                    ActiveSessionSnapshotValidationError,
                >(ActiveSessionSnapshotValidationError::UnsupportedProtocol))
            },
            ActiveSessionSnapshotRestore::Resume {
                negotiated,
                resume_from_event_no,
                catch_up_through_event_no,
                retained_event_floor,
                ..
            } => {
                let advertised = {
                    &&& capabilities.snapshot_schema_versions@.contains(
                        negotiated.protocol.snapshot_schema_version,
                    )
                    &&& capabilities.reducer_versions@.contains(negotiated.protocol.reducer_version)
                    &&& capabilities.storage_layouts@.contains(negotiated.protocol.storage_layout)
                    &&& capabilities.compression_codecs@.contains(
                        negotiated.protocol.compression_codec,
                    )
                };
                let in_window = retained_event_floor <= resume_from_event_no
                    && resume_from_event_no <= catch_up_through_event_no + 1;
                &&& (restore_verdict(capabilities, restore) is Ok <==> advertised && in_window)
                &&& (!advertised ==> restore_verdict(capabilities, restore) == Err::<
                    (),
                    ActiveSessionSnapshotValidationError,
                >(ActiveSessionSnapshotValidationError::UnsupportedProtocol))
                &&& (advertised && !in_window ==> restore_verdict(capabilities, restore) == Err::<
                    (),
                    ActiveSessionSnapshotValidationError,
                >(ActiveSessionSnapshotValidationError::InvalidResumeCursor))
            },
        },
{
}

/// An accepted resume continues exactly the viewer's cursor: same snapshot, identity and
/// protocol, from the event right after the last one it holds.
pub proof fn lemma_accepted_resume_continues_cursor(
    cursor: ActiveSessionSnapshotResumeCursor,
    restore: ActiveSessionSnapshotRestore,
)
    requires
        resume_verdict(cursor, restore) is Ok,
    ensures
        restore matches ActiveSessionSnapshotRestore::Resume {
            negotiated,
            snapshot_id,
            resume_from_event_no,
            ..
        } ==> {
            &&& snapshot_id@ == cursor.snapshot_id@
            &&& negotiated.identity@ == cursor.identity@
            &&& negotiated.protocol == cursor_protocol(cursor)
            &&& resume_from_event_no == cursor.last_contiguous_event_no + 1
        },
        restore is Resume,
{
}

/// Resume instructions are accepted exactly when they continue the viewer's cursor: the same
/// snapshot, identity and protocol values, from the event right after the last one it holds.
/// A bootstrap is never accepted as a resume.
pub proof fn lemma_resume_accepted_exactly_when_it_continues_cursor(
    cursor: ActiveSessionSnapshotResumeCursor,
    restore: ActiveSessionSnapshotRestore,
)
    ensures
        restore is Bootstrap ==> resume_verdict(cursor, restore) == Err::<
            (),
            ActiveSessionSnapshotValidationError,
        >(ActiveSessionSnapshotValidationError::InvalidResumeCursor),
        restore matches ActiveSessionSnapshotRestore::Resume {
            negotiated,
            snapshot_id,
            resume_from_event_no,
            ..
        } ==> (resume_verdict(cursor, restore) is Ok <==> {
            &&& snapshot_id@ == cursor.snapshot_id@
            &&& negotiated.identity@ == cursor.identity@
            &&& negotiated.protocol.snapshot_schema_version == cursor.snapshot_schema_version
            &&& negotiated.protocol.reducer_version == cursor.reducer_version
            &&& negotiated.protocol.storage_layout == cursor.storage_layout
            &&& negotiated.protocol.compression_codec == cursor.compression_codec
            &&& resume_from_event_no == cursor.last_contiguous_event_no + 1
        }),
{
}

/// A downloaded snapshot is accepted exactly when it carries the descriptor's id, identity
/// and metadata.
pub proof fn lemma_accepted_snapshot_matches_descriptor(
    descriptor: ActiveSessionSnapshotDescriptor,
    snapshot: ActiveRestoreSnapshot,
)
    ensures
        restore_snapshot_verdict(descriptor, snapshot) is Ok <==> {
            &&& descriptor.snapshot_id@ == snapshot.snapshot_id@
            &&& descriptor.identity@ == snapshot.identity@
            &&& descriptor.snapshot_schema_version == snapshot.snapshot_schema_version
            &&& descriptor.reducer_version == snapshot.reducer_version
            &&& descriptor.through_event_no == snapshot.through_event_no
            &&& descriptor.captured_at_unix_ms == snapshot.captured_at_unix_ms
        },
{
}

} // verus!
