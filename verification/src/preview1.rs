//! Host-side access to a guest's linear memory.
//!
//! A [`GuestPtr`] is a bare coordinate into guest memory: an address, and for
//! a sequence also a count. A [`GuestType`] says how a scalar is laid out
//! there. [`Memory`] and [`MemoryMut`] are the capabilities of a backend that
//! owns the bytes; every access is checked against the bytes the backend
//! holds at that moment.

use vstd::prelude::*;

mod backends;
pub mod encoding;
mod guest_type;
pub mod laws;
mod memory;
mod pointer;
mod private;

pub use guest_type::{GuestErrorType, GuestType};
pub use memory::{
    access, bytes_at, bytes_stored, check_range, read_outcome, write_outcome, Contents,
    GuestMemory, Memory, MemoryMut, RawMemory, RawMemoryMut,
};
pub use pointer::{address_of, advance, element_addresses, ElementPtrs, GuestPtr, Pointee};

verus! {

/// Why an operation on guest memory failed.
#[derive(Debug, Clone, Copy, PartialEq, Eq, Structural)]
pub enum GuestError {
    /// Pointer arithmetic would leave the 32-bit address space.
    PtrOverflow,
    /// The requested byte range is not inside the backend's bytes.
    InvalidPointer,
    /// The bytes read do not form a value of the requested type.
    InvalidData,
    /// The backend could not reach the memory it stands for.
    InvalidMemory,
}

} // verus!
