//! How a scalar is laid out in guest memory.

use crate::preview1::encoding::{
    le_bytes, le_limit, le_value, lemma_le_bytes_len, lemma_le_value_of_le_bytes, u32_from_le,
    u32_to_le, u64_from_le, u64_to_le, u8_from_le, u8_to_le,
};
use crate::preview1::memory::{
    access, bytes_at, read_outcome, write_outcome, RawMemory, RawMemoryMut,
};
use crate::preview1::pointer::GuestPtr;
use crate::preview1::GuestError;
use vstd::prelude::*;

verus! {

/// A scalar with a fixed layout in guest memory.
pub trait GuestType: Sized {
    /// What `guest_size` returns, for use in contracts.
    spec fn spec_guest_size() -> u32;

    /// What `guest_align` returns, for use in contracts. The alignment is
    /// declared only: no pointer and no access is held to it.
    spec fn spec_guest_align() -> usize;

    /// The bytes that stand for `value` in guest memory.
    spec fn encode(value: Self) -> Seq<u8>;

    /// The value that `bytes` stand for, or `None` where they stand for none.
    spec fn decode(bytes: Seq<u8>) -> Option<Self>;

    /// An encoding has the type's size and decodes to the value it was made from.
    proof fn encoding_round_trips(value: Self)
        ensures
            Self::encode(value).len() == Self::spec_guest_size(),
            Self::decode(Self::encode(value)) == Some(value),
    ;

    /// The number of bytes of an encoded value.
    fn guest_size() -> (size: u32)
        ensures
            size == Self::spec_guest_size(),
    ;

    /// The alignment that the type asks for.
    fn guest_align() -> (align: usize)
        ensures
            align == Self::spec_guest_align(),
    ;

    /// Reads the value at `ptr`: copies `guest_size()` bytes out of `memory`
    /// and decodes them. A failed copy is returned as it is.
    fn read<M: RawMemory>(memory: &M, ptr: GuestPtr<Self>) -> (r: Result<Self, GuestError>)
        ensures
            r == read_outcome(
                memory.contents(),
                ptr@,
                Self::spec_guest_size(),
                Self::decode(bytes_at(memory.contents(), ptr@, Self::spec_guest_size())),
            ),
    ;

    /// Writes `value` at `ptr`: encodes it and copies the bytes into
    /// `memory`. A failed copy is returned as it is and changes nothing.
    fn write<M: RawMemoryMut>(memory: &mut M, ptr: GuestPtr<Self>, value: Self) -> (r: Result<
        (),
        GuestError,
    >)
        ensures
            r == access(old(memory).contents(), ptr@, Self::spec_guest_size()),
            final(memory).contents() == write_outcome(
                old(memory).contents(),
                ptr@,
                Self::encode(value),
            ),
            r is Err ==> final(memory).contents() == old(memory).contents(),
    ;
}

/// A guest type that is used as a result code and has a value for success.
pub trait GuestErrorType: GuestType {
    /// The value that stands for success.
    fn success() -> Self;
}

impl GuestType for u8 {
    open spec fn spec_guest_size() -> u32 {
        1
    }

    open spec fn spec_guest_align() -> usize {
        1
    }

    open spec fn encode(value: Self) -> Seq<u8> {
        le_bytes(value as nat, 1)
    }

    open spec fn decode(bytes: Seq<u8>) -> Option<Self> {
        if bytes.len() == 1 {
            Some(le_value(bytes) as u8)
        } else {
            None
        }
    }

    proof fn encoding_round_trips(value: Self) {
        reveal_with_fuel(le_limit, 2);
        lemma_le_bytes_len(value as nat, 1);
        lemma_le_value_of_le_bytes(value as nat, 1);
    }

    fn guest_size() -> (size: u32) {
        1
    }

    fn guest_align() -> (align: usize) {
        1
    }

    fn read<M: RawMemory>(memory: &M, ptr: GuestPtr<Self>) -> (r: Result<Self, GuestError>) {
        let mut buf = [0u8; 1];
        memory.copy_to_slice(GuestPtr::new((ptr.offset(), 1)), &mut buf)?;
        Ok(u8_from_le(&buf))
    }

    fn write<M: RawMemoryMut>(memory: &mut M, ptr: GuestPtr<Self>, value: Self) -> (r: Result<
        (),
        GuestError,
    >) {
        memory.copy_from_slice(GuestPtr::new((ptr.offset(), 1)), &u8_to_le(value))
    }
}

impl GuestType for u32 {
    open spec fn spec_guest_size() -> u32 {
        4
    }

    open spec fn spec_guest_align() -> usize {
        4
    }

    open spec fn encode(value: Self) -> Seq<u8> {
        le_bytes(value as nat, 4)
    }

    open spec fn decode(bytes: Seq<u8>) -> Option<Self> {
        if bytes.len() == 4 {
            Some(le_value(bytes) as u32)
        } else {
            None
        }
    }

    proof fn encoding_round_trips(value: Self) {
        reveal_with_fuel(le_limit, 5);
        lemma_le_bytes_len(value as nat, 4);
        lemma_le_value_of_le_bytes(value as nat, 4);
    }

    fn guest_size() -> (size: u32) {
        4
    }

    fn guest_align() -> (align: usize) {
        4
    }

    fn read<M: RawMemory>(memory: &M, ptr: GuestPtr<Self>) -> (r: Result<Self, GuestError>) {
        let mut buf = [0u8; 4];
        memory.copy_to_slice(ptr.cast::<u8>().as_array(4), &mut buf)?;
        Ok(u32_from_le(&buf))
    }

    fn write<M: RawMemoryMut>(memory: &mut M, ptr: GuestPtr<Self>, value: Self) -> (r: Result<
        (),
        GuestError,
    >) {
        memory.copy_from_slice(ptr.cast::<u8>().as_array(4), &u32_to_le(value))
    }
}

impl GuestType for u64 {
    open spec fn spec_guest_size() -> u32 {
        8
    }

    open spec fn spec_guest_align() -> usize {
        8
    }

    open spec fn encode(value: Self) -> Seq<u8> {
        le_bytes(value as nat, 8)
    }

    open spec fn decode(bytes: Seq<u8>) -> Option<Self> {
        if bytes.len() == 8 {
            Some(le_value(bytes) as u64)
        } else {
            None
        }
    }

    proof fn encoding_round_trips(value: Self) {
        reveal_with_fuel(le_limit, 9);
        lemma_le_bytes_len(value as nat, 8);
        lemma_le_value_of_le_bytes(value as nat, 8);
    }

    fn guest_size() -> (size: u32) {
        8
    }

    fn guest_align() -> (align: usize) {
        8
    }

    fn read<M: RawMemory>(memory: &M, ptr: GuestPtr<Self>) -> (r: Result<Self, GuestError>) {
        let mut buf = [0u8; 8];
        memory.copy_to_slice(ptr.cast::<u8>().as_array(8), &mut buf)?;
        Ok(u64_from_le(&buf))
    }

    fn write<M: RawMemoryMut>(memory: &mut M, ptr: GuestPtr<Self>, value: Self) -> (r: Result<
        (),
        GuestError,
    >) {
        memory.copy_from_slice(ptr.cast::<u8>().as_array(8), &u64_to_le(value))
    }
}

} // verus!
