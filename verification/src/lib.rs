//! Descriptors for regions of volatile memory.
//!
//! A [`FileVolatileSlice`] names a byte range by its start address and its
//! length, and a [`FileVolatileBuf`] names a buffer by its start address, the
//! bytes of it that are initialized and its capacity. Neither owns the memory
//! it describes: the types hold geometry only, and every operation on them is
//! plain arithmetic whose outcome is stated and proved.

pub mod buf;
pub mod error;
pub mod hex;
pub mod region;
pub mod slice;

pub use buf::{BufState, FileVolatileBuf};
pub use error::Error;
pub use region::Region;
pub use slice::FileVolatileSlice;
