//! The mathematical model of a byte range and of taking a tail of it.

use vstd::prelude::*;
use crate::error::Error;

verus! {

/// A byte range of the address space: `len` bytes, the first of them at
/// `start`.
pub struct Region {
    pub start: nat,
    pub len: nat,
}

impl Region {
    /// The address just past the last byte of the range.
    pub open spec fn end(self) -> nat {
        self.start + self.len
    }

    /// Whether the start and the length each fit in a machine word.
    pub open spec fn representable(self) -> bool {
        self.start <= usize::MAX && self.len <= usize::MAX
    }

    /// Whether the whole range lies in the address space, that is, whether
    /// it ends without wrapping around.
    pub open spec fn addressable(self) -> bool {
        self.end() <= usize::MAX
    }

    /// Whether every byte of the range is a byte of `outer`.
    pub open spec fn within(self, outer: Region) -> bool {
        outer.start <= self.start && self.end() <= outer.end()
    }

    /// The range that is left when the first `count` bytes are dropped.
    pub open spec fn tail(self, count: nat) -> Region
        recommends
            count <= self.len,
    {
        Region { start: self.start + count, len: (self.len - count) as nat }
    }

    /// The outcome of asking for the part of the range that starts `count`
    /// bytes in. The start of that part must be an address, else the request
    /// overflows; and it must not lie past the end of the range, else it is
    /// out of bounds. Overflow is looked for first.
    pub open spec fn offset(self, count: nat) -> Result<Region, Error>
        recommends
            self.representable(),
            count <= usize::MAX,
    {
        if self.start + count > usize::MAX {
            Err(Error::Overflow { base: self.start as usize, offset: count as usize })
        } else if count > self.len {
            Err(Error::OutOfBounds { addr: (self.start + count) as usize })
        } else {
            Ok(self.tail(count))
        }
    }
}

} // verus!
