//! The ways in which an operation on a volatile region can fail.

use vstd::prelude::*;
use vstd::string::StringExecFns;
use crate::hex::{hex_digits, push_hex};

verus! {

/// `vm_memory::VolatileMemoryError`, the error of that crate's volatile
/// slices, declared so that a variant can carry one. Nothing is claimed of
/// what a value of it holds.
#[verifier::external_type_specification]
#[verifier::external_body]
pub struct ExVolatileMemoryError(vm_memory::VolatileMemoryError);

/// Why an operation on a volatile region failed.
#[derive(Debug)]
pub enum Error {
    /// The address `addr` was asked for, and it lies past the end of the
    /// region.
    OutOfBounds { addr: usize },
    /// The address `offset` bytes past `base` was asked for, and there is no
    /// such address: the sum does not fit in a `usize`.
    Overflow { base: usize, offset: usize },
    /// The volatile slice underneath reported a failure of its own.
    VolatileSlice(vm_memory::VolatileMemoryError),
}

impl Error {
    /// The text that [`Error::message`] gives for an address that is out of
    /// bounds.
    pub open spec fn out_of_bounds_text(addr: usize) -> Seq<char> {
        "address 0x"@ + hex_digits(addr as nat) + " is out of bounds"@
    }

    /// The text that [`Error::message`] gives for an offset that overflows.
    pub open spec fn overflow_text(base: usize, offset: usize) -> Seq<char> {
        "address 0x"@ + hex_digits(base as nat) + " offset by 0x"@ + hex_digits(offset as nat)
            + " would overflow"@
    }

    /// A description of the error for a human reader, with every address and
    /// offset in lower-case hexadecimal. An error of the underlying volatile
    /// slice is described in that error's own words.
    pub fn message(&self) -> (text: String)
        ensures
            (match *self {
                Error::OutOfBounds { addr } => text@ == Error::out_of_bounds_text(addr),
                Error::Overflow { base, offset } => text@ == Error::overflow_text(base, offset),
                Error::VolatileSlice(inner) => vstd::string::to_string_from_display_ensures(
                    &inner,
                    text,
                ),
            }),
    {
        match self {
            Error::OutOfBounds { addr } => {
                let mut text = String::from_str("address 0x");
                push_hex(&mut text, *addr);
                text.append(" is out of bounds");
                text
            },
            Error::Overflow { base, offset } => {
                let mut text = String::from_str("address 0x");
                push_hex(&mut text, *base);
                text.append(" offset by 0x");
                push_hex(&mut text, *offset);
                text.append(" would overflow");
                text
            },
            Error::VolatileSlice(inner) => inner.to_string(),
        }
    }
}

} // verus!
