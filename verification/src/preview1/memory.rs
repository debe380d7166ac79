//! The capabilities of a memory backend, and what an access does to its bytes.

use crate::preview1::guest_type::GuestType;
use crate::preview1::pointer::GuestPtr;
use crate::preview1::GuestError;
use vstd::prelude::*;

verus! {

/// Whether `len` bytes at `offset` can be accessed in a backend with the
/// given contents: `InvalidMemory` where the backend cannot reach its memory,
/// `InvalidPointer` where the range is not inside the bytes it holds.
pub open spec fn access(contents: Option<Seq<u8>>, offset: u32, len: u32) -> Result<
    (),
    GuestError,
> {
    match contents {
        None => Err(GuestError::InvalidMemory),
        Some(bytes) => if offset + len <= bytes.len() {
            Ok(())
        } else {
            Err(GuestError::InvalidPointer)
        },
    }
}

/// The `len` bytes at `offset`, where `access` allows the range.
pub open spec fn bytes_at(contents: Option<Seq<u8>>, offset: u32, len: u32) -> Seq<u8>
    recommends
        access(contents, offset, len) is Ok,
{
    contents.unwrap().subrange(offset as int, offset + len)
}

/// `bytes` with `data` in place of what was at `offset`.
pub open spec fn bytes_stored(bytes: Seq<u8>, offset: u32, data: Seq<u8>) -> Seq<u8>
    recommends
        offset + data.len() <= bytes.len(),
{
    Seq::new(
        bytes.len(),
        |i: int|
            if offset <= i < offset + data.len() {
                data[i - offset]
            } else {
                bytes[i]
            },
    )
}

/// The contents after an attempt to write `data` at `offset`: the bytes are
/// replaced where `access` allows the range, and nothing changes otherwise.
pub open spec fn write_outcome(contents: Option<Seq<u8>>, offset: u32, data: Seq<u8>) -> Option<
    Seq<u8>,
> {
    match contents {
        Some(bytes) if offset + data.len() <= bytes.len() => Some(
            bytes_stored(bytes, offset, data),
        ),
        _ => contents,
    }
}

/// The result of a typed read of `size` bytes at `offset`, where `decoded` is
/// what the bytes there decode to: the failed access, else the value, else
/// `InvalidData`.
pub open spec fn read_outcome<T>(
    contents: Option<Seq<u8>>,
    offset: u32,
    size: u32,
    decoded: Option<T>,
) -> Result<T, GuestError> {
    match access(contents, offset, size) {
        Err(e) => Err(e),
        Ok(()) => match decoded {
            Some(value) => Ok(value),
            None => Err(GuestError::InvalidData),
        },
    }
}

/// Checks the range of `ptr` against a backend that holds `available` bytes
/// and can be reached: `InvalidPointer` unless the whole range is inside.
pub fn check_range(ptr: &GuestPtr<[u8]>, available: usize) -> (r: Result<(), GuestError>)
    ensures
        r is Ok <==> ptr.offset_base() + ptr.len() <= available,
        r matches Err(e) ==> e == GuestError::InvalidPointer,
        forall|bytes: Seq<u8>|
            bytes.len() == available ==> r == #[trigger] access(
                Some(bytes),
                ptr.offset_base(),
                ptr.len(),
            ),
{
    if ptr.offset_base() as u64 + ptr.len() as u64 <= available as u64 {
        Ok(())
    } else {
        Err(GuestError::InvalidPointer)
    }
}

/// The bytes that a backend stands for.
pub trait Contents: Sized {
    /// The bytes of guest memory as they are now, or `None` where the backend
    /// cannot reach the memory it stands for.
    spec fn contents(&self) -> Option<Seq<u8>>;
}

/// The raw read that a backend provides. It stands apart from [`Memory`] so
/// that a [`GuestType`] can ask for it without asking for the typed access
/// that is built on guest types.
pub trait RawMemory: Contents {
    /// Copies the `ptr.len()` bytes at `ptr.offset_base()` into `dst`. The
    /// range is checked against the bytes the backend holds now; where the
    /// check fails, `dst` is left as it was.
    fn copy_to_slice(&self, ptr: GuestPtr<[u8]>, dst: &mut [u8]) -> (r: Result<(), GuestError>)
        requires
            old(dst)@.len() == ptr.len(),
        ensures
            r == access(self.contents(), ptr.offset_base(), ptr.len()),
            final(dst)@ == if r is Ok {
                bytes_at(self.contents(), ptr.offset_base(), ptr.len())
            } else {
                old(dst)@
            },
    ;
}

/// The raw write that a backend provides, apart from [`MemoryMut`] for the
/// same reason.
pub trait RawMemoryMut: Contents {
    /// Copies `src` over the `ptr.len()` bytes at `ptr.offset_base()`. The
    /// range is checked against the bytes the backend holds now; where the
    /// check fails, no byte is written.
    fn copy_from_slice(&mut self, ptr: GuestPtr<[u8]>, src: &[u8]) -> (r: Result<(), GuestError>)
        requires
            src@.len() == ptr.len(),
        ensures
            r == access(old(self).contents(), ptr.offset_base(), ptr.len()),
            final(self).contents() == write_outcome(old(self).contents(), ptr.offset_base(), src@),
            r is Err ==> final(self).contents() == old(self).contents(),
    ;
}

/// Read access to guest memory: the raw read of the backend, and on top of
/// it what every backend gets for nothing.
pub trait Memory: RawMemory {
    /// The `ptr.len()` bytes at `ptr.offset_base()` in a buffer of their own.
    fn copy_to_vec(&self, ptr: GuestPtr<[u8]>) -> (r: Result<Vec<u8>, GuestError>)
        ensures
            match r {
                Ok(data) => {
                    &&& access(self.contents(), ptr.offset_base(), ptr.len()) is Ok
                    &&& data@ == bytes_at(self.contents(), ptr.offset_base(), ptr.len())
                },
                Err(e) => access(self.contents(), ptr.offset_base(), ptr.len()) == Err::<
                    (),
                    GuestError,
                >(e),
            },
    {
        let mut data = vec![0u8; ptr.len() as usize];
        self.copy_to_slice(ptr, &mut data)?;
        Ok(data)
    }

    /// The value of type `T` at `ptr`.
    fn read<T>(&self, ptr: GuestPtr<T>) -> (r: Result<T, GuestError>) where T: GuestType
        ensures
            r == read_outcome(
                self.contents(),
                ptr@,
                T::spec_guest_size(),
                T::decode(bytes_at(self.contents(), ptr@, T::spec_guest_size())),
            ),
    {
        T::read(self, ptr)
    }
}

/// Write access to guest memory: the raw write of the backend, and the
/// typed write on top of it.
pub trait MemoryMut: RawMemoryMut {
    /// Stores `value` at `ptr`.
    fn write<T>(&mut self, ptr: GuestPtr<T>, value: T) -> (r: Result<(), GuestError>) where
        T: GuestType,

        ensures
            r == access(old(self).contents(), ptr@, T::spec_guest_size()),
            final(self).contents() == write_outcome(old(self).contents(), ptr@, T::encode(value)),
            r is Err ==> final(self).contents() == old(self).contents(),
    {
        T::write(self, ptr, value)
    }
}

/// A backend that can be both read and written.
pub trait GuestMemory: Memory + MemoryMut {

}

} // verus!
