use super::ParticipantId;
use vstd::prelude::*;

verus! {

/// A monotonically increasing sequence number to identify sequential writes to the pty.
#[derive(Clone, Copy, Debug, Eq, PartialEq, Ord, PartialOrd, Structural)]
pub struct WriteToPtySeqNo(usize);

impl View for WriteToPtySeqNo {
    type V = usize;

    closed spec fn view(&self) -> usize {
        self.0
    }
}

impl WriteToPtySeqNo {
    pub fn zero() -> (r: Self)
        ensures
            r@ == 0,
    {
        Self(0)
    }

    /// Moves to the next sequence number.
    pub fn advance(&mut self)
        requires
            old(self)@ < usize::MAX,
        ensures
            final(self)@ == old(self)@ + 1,
    {
        self.0 += 1;
    }

    pub fn as_usize(&self) -> (r: usize)
        ensures
            r == self@,
    {
        self.0
    }
}

impl From<usize> for WriteToPtySeqNo {
    fn from(value: usize) -> (r: Self)
        ensures
            r@ == value,
    {
        Self(value)
    }
}

impl vstd::std_specs::convert::FromSpecImpl<usize> for WriteToPtySeqNo {
    open spec fn obeys_from_spec() -> bool {
        true
    }

    closed spec fn from_spec(v: usize) -> Self {
        WriteToPtySeqNo(v)
    }
}

#[derive(Clone, Debug)]
pub struct WriteToPtyRequestId {
    pub participant_id: ParticipantId,
    pub op_no: WriteToPtySeqNo,
}

#[derive(Clone, Debug)]
pub enum WriteToPtyFailureReason {
    /// The viewer does not have sufficient permissions to write to pty.
    InsufficientPermissions,
    /// The buffer for which the write to pty was requested is old.
    /// Specificaly, there is a new buffer and the command is no longer in-progress.
    StaleBuffer,
}

} // verus!
