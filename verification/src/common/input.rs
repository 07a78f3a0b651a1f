use super::scrollback::{lemma_total_nonnegative, saturated, total};
use super::{BlockId, ByteCount, ParticipantId};
use vstd::prelude::*;

verus! {

/// The replica ID that a participant's CRDT-compliant input
/// buffer must use. This must be unique across a session.
///
/// The sharer is allowed to choose their own replica ID.
#[derive(Clone, Default, Debug)]
pub struct InputReplicaId(String);

impl View for InputReplicaId {
    type V = Seq<char>;

    closed spec fn view(&self) -> Seq<char> {
        self.0@
    }
}

impl From<String> for InputReplicaId {
    fn from(value: String) -> (r: Self)
        ensures
            r@ == value@,
    {
        Self(value)
    }
}

impl vstd::std_specs::convert::FromSpecImpl<String> for InputReplicaId {
    open spec fn obeys_from_spec() -> bool {
        true
    }

    closed spec fn from_spec(v: String) -> Self {
        InputReplicaId(v)
    }
}

impl InputReplicaId {
    /// The id as its `Display` writes it.
    pub fn to_string(&self) -> (r: String)
        ensures
            r@ == self@,
    {
        self.0.clone()
    }
}

/// A monotonically increasing sequence number to identify sequential edits for a given buffer.
#[derive(Clone, Copy, Debug, Eq, PartialEq, Ord, PartialOrd, Structural)]
pub struct InputOperationSeqNo(usize);

impl View for InputOperationSeqNo {
    type V = usize;

    closed spec fn view(&self) -> usize {
        self.0
    }
}

impl InputOperationSeqNo {
    pub fn zero() -> (r: Self)
        ensures
            r@ == 0,
    {
        Self(0)
    }

    /// Moves to the next sequence number.
    pub fn advance(&mut self)
        requires
            old(self)@ < usize::MAX,
        ensures
            final(self)@ == old(self)@ + 1,
    {
        self.0 += 1;
    }

    pub fn as_usize(&self) -> (r: usize)
        ensures
            r == self@,
    {
        self.0
    }
}

impl From<usize> for InputOperationSeqNo {
    fn from(value: usize) -> (r: Self)
        ensures
            r@ == value,
    {
        Self(value)
    }
}

impl vstd::std_specs::convert::FromSpecImpl<usize> for InputOperationSeqNo {
    open spec fn obeys_from_spec() -> bool {
        true
    }

    closed spec fn from_spec(v: usize) -> Self {
        InputOperationSeqNo(v)
    }
}

/// A [`BufferId`] identifies an instance of the buffer in a session.
/// For example, suppose a session starts with buffer_id=B1.
/// When a command is executed and the buffer is reset, the
/// buffer_id=B2, where B1 != B2.
///
/// Today, a [`BufferId`] masquerades as a [`BlockId`].
#[derive(Clone, Debug, Default, Hash, Eq, PartialEq)]
pub struct BufferId(String);

impl View for BufferId {
    type V = Seq<char>;

    closed spec fn view(&self) -> Seq<char> {
        self.0@
    }
}

impl BufferId {
    /// The id as its `Display` writes it.
    pub fn to_string(&self) -> (r: String)
        ensures
            r@ == self@,
    {
        self.0.clone()
    }
}

impl From<String> for BufferId {
    fn from(value: String) -> (r: Self)
        ensures
            r@ == value@,
    {
        Self(value)
    }
}

impl vstd::std_specs::convert::FromSpecImpl<String> for BufferId {
    open spec fn obeys_from_spec() -> bool {
        true
    }

    closed spec fn from_spec(v: String) -> Self {
        BufferId(v)
    }
}

impl From<BlockId> for BufferId {
    fn from(value: BlockId) -> (r: Self)
        ensures
            r@ == value@,
    {
        Self(value.to_string())
    }
}

impl vstd::std_specs::convert::FromSpecImpl<BlockId> for BufferId {
    /// The conversion is stated by the views in `from`'s own contract.
    open spec fn obeys_from_spec() -> bool {
        false
    }

    closed spec fn from_spec(v: BlockId) -> Self {
        arbitrary()
    }
}

impl From<BufferId> for BlockId {
    fn from(value: BufferId) -> (r: Self)
        ensures
            r@ == value@,
    {
        BlockId::from(value.0)
    }
}

impl vstd::std_specs::convert::FromSpecImpl<BufferId> for BlockId {
    /// The conversion is stated by the views in `from`'s own contract.
    open spec fn obeys_from_spec() -> bool {
        false
    }

    closed spec fn from_spec(v: BufferId) -> Self {
        arbitrary()
    }
}

/// A CRDT-compliant operation.
/// For now, this is a arbitrary payload that clients should know
/// how to serialize / deserialize. Eventually, this will be a
/// strongly-typed data structure.
#[derive(Clone, Debug)]
pub struct CrdtOperation(pub Vec<u8>);

/// A unique identifier for an input operation. Specifically,
/// this uniquely identifies an operation for a specific buffer,
/// for a given participant.
#[derive(Clone, Debug, Eq, PartialEq)]
pub struct InputOperationId {
    /// The participant that made the change.
    pub participant_id: ParticipantId,
    /// The ID of the buffer that this operation was applied to.
    pub buffer_id: BufferId,
    /// A monotonically increasing sequence number to identify sequential edits
    /// for a specific buffer.
    pub op_no: InputOperationSeqNo,
}

#[derive(Clone, Debug)]
pub struct InputUpdate {
    pub id: InputOperationId,
    /// A single input operation consists of a batch
    /// of updates.
    pub ops: Vec<CrdtOperation>,
}

/// The sizes of the operations' payloads.
pub open spec fn op_sizes(ops: Seq<CrdtOperation>) -> Seq<int> {
    ops.map_values(|op: CrdtOperation| op.0@.len() as int)
}

impl InputUpdate {
    /// The size of all operations' payloads together, saturating at `u64::MAX`.
    pub fn num_bytes(&self) -> (r: ByteCount)
        ensures
            r@ == saturated(total(op_sizes(self.ops@))),
    {
        let mut acc: u64 = 0;
        let mut i: usize = 0;
        while i < self.ops.len()
            invariant
                i <= self.ops@.len(),
                acc == saturated(total(op_sizes(self.ops@.subrange(0, i as int)))),
            decreases self.ops@.len() - i,
        {
            let ghost prefix = self.ops@.subrange(0, i as int);
            let ghost next = self.ops@.subrange(0, i + 1);
            let n = self.ops[i].0.len() as u64;
            assert(total(op_sizes(next)) == total(op_sizes(prefix)) + n) by {
                assert(op_sizes(next).drop_last() =~= op_sizes(prefix));
            }
            proof {
                lemma_total_nonnegative(op_sizes(prefix));
            }
            acc = acc.saturating_add(n);
            i = i + 1;
        }
        assert(self.ops@.subrange(0, i as int) =~= self.ops@);
        ByteCount::from_u64(acc)
    }
}

/// An update with no operations has size zero, and appending an operation adds the length
/// of its payload to the total.
pub proof fn lemma_operation_adds_its_length(ops: Seq<CrdtOperation>, op: CrdtOperation)
    ensures
        total(op_sizes(Seq::<CrdtOperation>::empty())) == 0,
        total(op_sizes(ops.push(op))) == total(op_sizes(ops)) + op.0@.len(),
{
    assert(op_sizes(Seq::<CrdtOperation>::empty()) =~= Seq::<int>::empty());
    assert(op_sizes(ops.push(op)).drop_last() =~= op_sizes(ops));
}

/// A set of reasons why a request to edit the input might fail.
#[derive(Clone, Debug)]
pub enum InputUpdateFailureReason {
    /// The viewer does not have sufficient permissions.
    InsufficientPermissions,
}

} // verus!
