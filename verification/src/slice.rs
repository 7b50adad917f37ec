//! A view of a region of volatile memory.

use vstd::prelude::*;
use core::marker::PhantomData;
use crate::error::Error;
use crate::region::Region;

verus! {

/// A borrowed view of a region of volatile memory, held as the address of
/// its first byte and its length in bytes.
///
/// The view owns nothing and is never changed once made; a smaller view is a
/// new value. Whoever makes a view promises that the region stays valid for
/// volatile access for as long as `'a` lasts.
#[derive(Clone, Copy, Debug)]
pub struct FileVolatileSlice<'a> {
    addr: usize,
    size: usize,
    phantom: PhantomData<&'a u8>,
}

impl<'a> View for FileVolatileSlice<'a> {
    type V = Region;

    open spec fn view(&self) -> Region {
        Region { start: self.as_ptr() as nat, len: self.len() as nat }
    }
}

impl<'a> FileVolatileSlice<'a> {
    /// The address that [`FileVolatileSlice::as_ptr`] returns.
    pub closed spec fn spec_as_ptr(&self) -> usize {
        self.addr
    }

    /// The length that [`FileVolatileSlice::len`] returns.
    pub closed spec fn spec_len(&self) -> usize {
        self.size
    }

    /// The answer that [`FileVolatileSlice::is_empty`] gives.
    pub open spec fn spec_is_empty(&self) -> bool {
        self.len() == 0
    }

    /// Makes the view of the `size` bytes that start at address `addr`.
    ///
    /// The caller vouches for the memory: it is `size` bytes long, it stays
    /// available while `'a` lasts, and all its other users access it
    /// volatilely.
    pub fn new(addr: usize, size: usize) -> (view: Self)
        ensures
            view@ == (Region { start: addr as nat, len: size as nat }),
    {
        Self { addr, size, phantom: PhantomData }
    }

    /// The address of the first byte of the view.
    #[verifier::when_used_as_spec(spec_as_ptr)]
    pub fn as_ptr(&self) -> (addr: usize)
        ensures
            addr == self.as_ptr(),
            addr == self@.start,
    {
        self.addr
    }

    /// The number of bytes in the view.
    #[verifier::when_used_as_spec(spec_len)]
    pub fn len(&self) -> (size: usize)
        ensures
            size == self.len(),
            size == self@.len,
    {
        self.size
    }

    /// Whether the view holds no byte at all.
    #[verifier::when_used_as_spec(spec_is_empty)]
    pub fn is_empty(&self) -> (empty: bool)
        ensures
            empty == self.is_empty(),
            empty == (self@.len == 0),
    {
        self.size == 0
    }

    /// The part of the view that starts `count` bytes in.
    ///
    /// Fails with [`Error::Overflow`] where `count` bytes past the start is
    /// no address, and else with [`Error::OutOfBounds`] where `count` is more
    /// than the length. The view itself is not changed.
    pub fn offset(&self, count: usize) -> (sub: Result<Self, Error>)
        ensures
            (match sub {
                Ok(part) => self@.offset(count as nat) == Ok::<Region, Error>(part@),
                Err(e) => self@.offset(count as nat) == Err::<Region, Error>(e),
            }),
    {
        let new_addr = self.addr.checked_add(count).ok_or(
            Error::Overflow { base: self.addr, offset: count },
        )?;
        let new_size = self.size.checked_sub(count).ok_or(Error::OutOfBounds { addr: new_addr })?;
        Ok(Self::new(new_addr, new_size))
    }

    /// A view made for `size` bytes at `addr` starts at `addr`, has the length
    /// `size`, and is empty exactly when `size` is zero.
    pub proof fn lemma_made_view_reports_geometry(self, addr: usize, size: usize)
        requires
            self@ == (Region { start: addr as nat, len: size as nat }),
        ensures
            self.as_ptr() == addr,
            self.len() == size,
            self.is_empty() == (size == 0),
    {
    }

    /// Offsets add up: for `o1 <= o2 <= len`, the part at `o1` exists, and
    /// its part at `o2 - o1` is the part of the view at `o2`, address and
    /// length alike. Where the view has no part at `o2`, because `o2` bytes
    /// past its start is no address, the second step fails as well.
    pub proof fn lemma_offset_additive(self, o1: usize, o2: usize)
        requires
            o1 <= o2 <= self.len(),
        ensures
            (match self@.offset(o2 as nat) {
                Ok(direct) => self@.offset(o1 as nat) matches Ok(mid) && mid.offset(
                    (o2 - o1) as nat,
                ) == Ok::<Region, Error>(direct),
                Err(_) => self@.offset(o1 as nat) matches Ok(mid) ==> mid.offset(
                    (o2 - o1) as nat,
                ) is Err,
            }),
    {
    }

    /// There is no part past the end: an offset greater than the length is
    /// refused. The refusal is [`Error::OutOfBounds`], with the address that
    /// was asked for, unless that address does not exist, which is an
    /// [`Error::Overflow`].
    pub proof fn lemma_offset_past_end_fails(self, offset: usize)
        requires
            offset > self.len(),
        ensures
            self@.offset(offset as nat) is Err,
            self.as_ptr() + offset <= usize::MAX ==> self@.offset(offset as nat) == Err::<
                Region,
                Error,
            >((Error::OutOfBounds { addr: (self.as_ptr() + offset) as usize })),
            self.as_ptr() + offset > usize::MAX ==> self@.offset(offset as nat) == Err::<
                Region,
                Error,
            >((Error::Overflow { base: self.as_ptr(), offset })),
    {
    }

    /// The part of a view at its own length is the empty view at its end,
    /// provided that the end of the view is an address.
    pub proof fn lemma_offset_at_len_is_empty(self)
        requires
            self@.addressable(),
        ensures
            self@.offset(self@.len) == Ok::<Region, Error>(
                (Region { start: self@.end(), len: 0 }),
            ),
    {
    }

    /// A part never reaches outside the view it was taken from: it starts at
    /// or after the start of the view and ends where the view ends. Every
    /// offset up to the length of a view that lies in the address space gives
    /// such a part, and the part lies in the address space too.
    pub proof fn lemma_offset_stays_within(self, count: usize)
        ensures
            (self@.offset(count as nat) matches Ok(part) ==> {
                &&& count <= self.len()
                &&& part.within(self@)
                &&& part.end() == self@.end()
                &&& part.len == self.len() - count
                &&& self@.addressable() ==> part.addressable()
            }),
            self@.addressable() && count <= self.len() ==> self@.offset(count as nat) is Ok,
    {
    }
}

} // verus!
