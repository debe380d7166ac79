//! A byte buffer as guest memory.

use crate::preview1::memory::{
    bytes_stored, check_range, Contents, GuestMemory, Memory, MemoryMut, RawMemory, RawMemoryMut,
};
use crate::preview1::pointer::GuestPtr;
use crate::preview1::GuestError;
use vstd::prelude::*;

verus! {

/// A `Vec<u8>` is guest memory that can always be reached; its bytes are the
/// guest's bytes, address 0 first.
impl Contents for Vec<u8> {
    open spec fn contents(&self) -> Option<Seq<u8>> {
        Some(self@)
    }
}

impl RawMemory for Vec<u8> {
    fn copy_to_slice(&self, ptr: GuestPtr<[u8]>, dst: &mut [u8]) -> (r: Result<(), GuestError>) {
        check_range(&ptr, self.len())?;
        let len: usize = dst.len();
        let start: usize = ptr.offset_base() as usize;
        let mut i: usize = 0;
        while i < len
            invariant
                i <= len,
                len == dst@.len(),
                start + len <= self.len(),
                forall|j: int| 0 <= j < i ==> dst@[j] == self@[start + j],
            decreases len - i,
        {
            dst[i] = self[start + i];
            i = i + 1;
        }
        assert(dst@ =~= self@.subrange(start as int, start + len));
        Ok(())
    }
}

impl RawMemoryMut for Vec<u8> {
    fn copy_from_slice(&mut self, ptr: GuestPtr<[u8]>, src: &[u8]) -> (r: Result<(), GuestError>) {
        check_range(&ptr, self.len())?;
        let len: usize = src.len();
        let offset: u32 = ptr.offset_base();
        let start: usize = offset as usize;
        let mut i: usize = 0;
        while i < len
            invariant
                i <= len,
                len == src@.len(),
                start == offset,
                self.len() == old(self).len(),
                start + len <= self.len(),
                forall|j: int| 0 <= j < start + i ==> self@[j] == bytes_stored(
                    old(self)@,
                    offset,
                    src@,
                )[j],
                forall|j: int| start + i <= j < self@.len() ==> self@[j] == old(self)@[j],
            decreases len - i,
        {
            self[start + i] = src[i];
            i = i + 1;
        }
        assert(self@ =~= bytes_stored(old(self)@, offset, src@));
        Ok(())
    }
}

impl Memory for Vec<u8> {

}

impl MemoryMut for Vec<u8> {

}

impl GuestMemory for Vec<u8> {

}

} // verus!
