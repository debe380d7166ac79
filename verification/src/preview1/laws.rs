//! What holds of every pointer, every guest type and every backend.

use crate::preview1::guest_type::GuestType;
use crate::preview1::memory::{access, bytes_at, read_outcome, write_outcome};
use crate::preview1::pointer::{advance, element_addresses};
use crate::preview1::GuestError;
use vstd::prelude::*;

verus! {

/// Where a value of a guest type can be written, reading at the same address
/// afterwards gives that value back.
pub proof fn lemma_read_after_write<T: GuestType>(
    contents: Option<Seq<u8>>,
    offset: u32,
    value: T,
)
    requires
        access(contents, offset, T::spec_guest_size()) is Ok,
    ensures
        ({
            let after = write_outcome(contents, offset, T::encode(value));
            read_outcome(
                after,
                offset,
                T::spec_guest_size(),
                T::decode(bytes_at(after, offset, T::spec_guest_size())),
            ) == Ok::<T, GuestError>(value)
        }),
{
    T::encoding_round_trips(value);
    let after = write_outcome(contents, offset, T::encode(value));
    assert(bytes_at(after, offset, T::spec_guest_size()) =~= T::encode(value));
}

/// An access whose range is not inside the bytes of a backend fails with
/// `InvalidPointer`, whatever is read or written: a typed read gives that
/// error, and a write leaves every byte as it was.
pub proof fn lemma_out_of_bounds_is_rejected<T>(
    bytes: Seq<u8>,
    offset: u32,
    len: u32,
    data: Seq<u8>,
    decoded: Option<T>,
)
    requires
        offset + len > bytes.len(),
        data.len() == len,
    ensures
        access(Some(bytes), offset, len) == Err::<(), GuestError>(GuestError::InvalidPointer),
        read_outcome(Some(bytes), offset, len, decoded) == Err::<T, GuestError>(
            GuestError::InvalidPointer,
        ),
        write_outcome(Some(bytes), offset, data) == Some(bytes),
{
}

/// Pointer arithmetic fails with `PtrOverflow` exactly when the address is
/// beyond the 32-bit address space, and otherwise gives the address itself,
/// never one that has wrapped around.
pub proof fn lemma_advance_never_wraps(base: u32, count: u32, size: u32)
    ensures
        base + count * size > u32::MAX <==> advance(base, count, size) == Err::<u32, GuestError>(
            GuestError::PtrOverflow,
        ),
        base + count * size <= u32::MAX <==> advance(base, count, size) is Ok,
        advance(base, count, size) matches Ok(address) ==> address == base + count * size
            && address >= base,
{
    assert(count * size >= 0) by (nonlinear_arith)
        requires
            count >= 0,
            size >= 0,
    ;
}

/// A sequence pointer has one element outcome for each of its `len` indices,
/// and each is the element's address or `PtrOverflow`, decided for that
/// element alone. The outcomes depend on the pointer and the element size
/// only, so every enumeration of one pointer gives the same.
pub proof fn lemma_elements_are_total(base: u32, len: u32, size: u32)
    ensures
        element_addresses(base, len, size).len() == len,
        forall|i: int|
            0 <= i < len ==> #[trigger] element_addresses(base, len, size)[i] == advance(
                base,
                i as u32,
                size,
            ),
        forall|i: int|
            0 <= i < len ==> (#[trigger] element_addresses(base, len, size)[i] is Err <==> base
                + i * size > u32::MAX),
{
}

} // verus!
