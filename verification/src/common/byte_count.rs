//! Sizes in bytes, as the session accounts for the data its messages carry.
use byte_unit::Byte;
use vstd::prelude::*;

verus! {

/// A size in bytes (the value of a `byte_unit::Byte`, which the crate keeps as a `u64`).
#[derive(Clone, Copy, Debug, PartialEq, Eq, PartialOrd, Ord, Hash, Default, Structural)]
pub struct ByteCount(u64);

impl View for ByteCount {
    type V = u64;

    closed spec fn view(&self) -> u64 {
        self.0
    }
}

/// The sum of two sizes where it fits in a `u64`, `None` where it overflows.
pub open spec fn checked_sum(a: u64, b: u64) -> Option<u64> {
    if a + b <= u64::MAX {
        Some((a + b) as u64)
    } else {
        None
    }
}

/// Calls `byte_unit::Byte::add` on the sizes `a` and `b`: the crate adds the `u64`
/// values with `checked_add` and returns `None` when the sum overflows (with the
/// crate's default features, under which `Byte` holds a `u64`).
#[verifier::external_body]
fn byte_unit_sum(a: u64, b: u64) -> (r: Option<u64>)
    ensures
        r == checked_sum(a, b),
{
    match Byte::from_u64(a).add(Byte::from_u64(b)) {
        Some(sum) => Some(sum.as_u64()),
        None => None,
    }
}

impl ByteCount {
    pub fn from_u64(size: u64) -> (r: Self)
        ensures
            r@ == size,
    {
        ByteCount(size)
    }

    pub fn from_usize(size: usize) -> (r: Self)
        ensures
            r@ == size,
    {
        ByteCount(size as u64)
    }

    pub fn as_u64(self) -> (r: u64)
        ensures
            r == self@,
    {
        self.0
    }

    /// Adds another size; `None` if the sum is too large.
    pub fn add(self, rhs: ByteCount) -> (r: Option<ByteCount>)
        ensures
            match checked_sum(self@, rhs@) {
                Some(sum) => r matches Some(b) && b@ == sum,
                None => r is None,
            },
    {
        match byte_unit_sum(self.0, rhs.0) {
            Some(sum) => Some(ByteCount(sum)),
            None => None,
        }
    }

    /// Whether this size is larger than `other`.
    pub fn exceeds(self, other: ByteCount) -> (r: bool)
        ensures
            r == (self@ > other@),
    {
        self.0 > other.0
    }
}

} // verus!
