//! A buffer descriptor that can be handed to asynchronous I/O.

use vstd::prelude::*;
use crate::slice::FileVolatileSlice;

verus! {

/// What a [`FileVolatileBuf`] describes: where the buffer starts, how many
/// of its bytes are initialized, and how many bytes it can hold.
pub struct BufState {
    pub addr: nat,
    pub init: nat,
    pub total: nat,
}

impl BufState {
    /// The state of a buffer of `total` bytes at `addr`, none of them
    /// initialized yet.
    pub open spec fn fresh(addr: nat, total: nat) -> BufState {
        BufState { addr, init: 0, total }
    }

    /// The state after the first `pos` bytes were reported as initialized.
    pub open spec fn with_init(self, pos: nat) -> BufState
        recommends
            pos <= self.total,
    {
        BufState { addr: self.addr, init: pos, total: self.total }
    }
}

/// A buffer of volatile memory without a lifetime, held as the address of
/// its first byte, the number of its bytes that are initialized, and its
/// capacity.
///
/// Asynchronous I/O has to own the buffers it works on, so this descriptor
/// carries no borrow. Whoever makes one promises that it does not outlive the
/// memory, that the memory stays where it is, and that nobody else touches
/// the memory for as long as the descriptor is in use.
///
/// The initialized bytes never exceed the capacity.
#[derive(Clone, Copy, Debug)]
pub struct FileVolatileBuf {
    addr: usize,
    size: usize,
    cap: usize,
}

impl View for FileVolatileBuf {
    type V = BufState;

    open spec fn view(&self) -> BufState {
        BufState {
            addr: self.stable_ptr() as nat,
            init: self.bytes_init() as nat,
            total: self.bytes_total() as nat,
        }
    }
}

/// The address of the first byte of `buf`, by `<[u8]>::as_mut_ptr`. The call
/// leaves the bytes as they are. Nothing is said of the address itself.
#[verifier::external_body]
fn base_address(buf: &mut [u8]) -> (addr: usize)
    ensures
        final(buf)@ == old(buf)@,
{
    buf.as_mut_ptr() as usize
}

impl FileVolatileBuf {
    #[verifier::type_invariant]
    spec fn init_within_total(self) -> bool {
        self.size <= self.cap
    }

    /// The address that [`FileVolatileBuf::stable_ptr`] returns.
    pub closed spec fn spec_stable_ptr(&self) -> usize {
        self.addr
    }

    /// The count that [`FileVolatileBuf::bytes_init`] returns.
    pub closed spec fn spec_bytes_init(&self) -> usize {
        self.size
    }

    /// The capacity that [`FileVolatileBuf::bytes_total`] returns.
    pub closed spec fn spec_bytes_total(&self) -> usize {
        self.cap
    }

    /// Describes `buf` as a buffer with no byte initialized yet and with the
    /// whole of `buf` as its capacity. The bytes of `buf` are not touched.
    pub fn new(buf: &mut [u8]) -> (made: Self)
        ensures
            made@ == BufState::fresh(made@.addr, old(buf)@.len()),
            final(buf)@ == old(buf)@,
    {
        let cap = buf.len();
        let addr = base_address(buf);
        Self::from_raw(addr, 0, cap)
    }

    /// Describes the buffer of `cap` bytes at address `addr` whose first
    /// `size` bytes are initialized.
    pub fn from_raw(addr: usize, size: usize, cap: usize) -> (made: Self)
        requires
            size <= cap,
        ensures
            made@ == BufState::fresh(addr as nat, cap as nat).with_init(size as nat),
    {
        Self { addr, size, cap }
    }

    /// The address of the first byte of the buffer. It is the same for as
    /// long as the descriptor lives.
    #[verifier::when_used_as_spec(spec_stable_ptr)]
    pub fn stable_ptr(&self) -> (addr: usize)
        ensures
            addr == self.stable_ptr(),
            addr == self@.addr,
    {
        self.addr
    }

    /// The number of bytes that are initialized, counted from the start. It
    /// never exceeds [`FileVolatileBuf::bytes_total`].
    #[verifier::when_used_as_spec(spec_bytes_init)]
    pub fn bytes_init(&self) -> (count: usize)
        ensures
            count == self.bytes_init(),
            count == self@.init,
            count <= self.bytes_total(),
    {
        proof {
            use_type_invariant(self);
        }
        self.size
    }

    /// The capacity of the buffer in bytes.
    #[verifier::when_used_as_spec(spec_bytes_total)]
    pub fn bytes_total(&self) -> (count: usize)
        ensures
            count == self.bytes_total(),
            count == self@.total,
            self.bytes_init() <= count,
    {
        proof {
            use_type_invariant(self);
        }
        self.cap
    }

    /// The address of the first byte of the buffer, for writing. Asking for
    /// it changes nothing.
    pub fn stable_mut_ptr(&mut self) -> (addr: usize)
        ensures
            addr == old(self).stable_ptr(),
            *final(self) == *old(self),
    {
        self.addr
    }

    /// Records that the first `pos` bytes of the buffer are initialized. The
    /// address and the capacity stay as they are.
    pub fn set_init(&mut self, pos: usize)
        requires
            pos <= old(self).bytes_total(),
        ensures
            final(self)@ == old(self)@.with_init(pos as nat),
    {
        self.size = pos;
    }

    /// A buffer made for `total` bytes starts with that capacity and with no
    /// byte initialized; once `pos` bytes, at most `total`, are recorded as
    /// initialized, it reports `pos`, and its address and capacity are as
    /// before.
    pub proof fn lemma_set_init_is_reported(self, total: usize, pos: usize)
        requires
            self@ == BufState::fresh(self@.addr, total as nat),
            pos <= total,
        ensures
            self.bytes_total() == total,
            self.bytes_init() == 0,
            self@.with_init(pos as nat).init == pos,
            self@.with_init(pos as nat).total == total,
            self@.with_init(pos as nat).addr == self.stable_ptr(),
    {
    }
}

impl<'a> FileVolatileSlice<'a> {
    /// Describes the region of the view as a buffer without a lifetime: same
    /// address, the length as capacity, no byte initialized.
    ///
    /// The caller sees to it that the buffer is not used after `'a` has
    /// ended, and that the view is not used while the buffer is.
    pub fn borrow_mut(&self) -> (buf: FileVolatileBuf)
        ensures
            buf@ == BufState::fresh(self@.start, self@.len),
    {
        FileVolatileBuf::from_raw(self.as_ptr(), 0, self.len())
    }
}

} // verus!
