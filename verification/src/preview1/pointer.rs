//! Typed guest pointers and their arithmetic.

use crate::preview1::guest_type::GuestType;
use crate::preview1::private::Sealed;
use crate::preview1::GuestError;
use vstd::prelude::*;
use vstd::std_specs::cmp::PartialEqSpec;

verus! {

/// A type that a [`GuestPtr`] can point to, with the plain value such a
/// pointer is made of: an address for a sized type, an address and a count
/// for a slice or a `str`.
pub trait Pointee: Sealed {
    type Pointer;
}

impl<T> Pointee for T {
    type Pointer = u32;
}

impl<T> Pointee for [T] {
    type Pointer = (u32, u32);
}

impl Pointee for str {
    type Pointer = (u32, u32);
}

/// A location in guest memory. It holds no reference to any memory and is
/// never validated on its own: whether it is in bounds is decided by the
/// backend at each access.
pub struct GuestPtr<T: ?Sized + Pointee> {
    pointer: T::Pointer,
}

impl<T: ?Sized + Pointee> View for GuestPtr<T> {
    type V = T::Pointer;

    /// The address, or the address and the count, that the pointer is made of.
    closed spec fn view(&self) -> T::Pointer {
        self.pointer
    }
}

impl<T: ?Sized + Pointee> Clone for GuestPtr<T> where T::Pointer: Copy {
    fn clone(&self) -> (copy: Self)
        ensures
            copy == *self,
    {
        *self
    }
}

impl<T: ?Sized + Pointee> Copy for GuestPtr<T> where T::Pointer: Copy {

}

impl<T: ?Sized + Pointee> PartialEq for GuestPtr<T> where T::Pointer: PartialEq {
    fn eq(&self, other: &Self) -> (equal: bool) {
        self.pointer == other.pointer
    }
}

impl<T: ?Sized + Pointee> vstd::std_specs::cmp::PartialEqSpecImpl for GuestPtr<T> where T::Pointer: PartialEq {
    open spec fn obeys_eq_spec() -> bool {
        <T::Pointer as PartialEqSpec>::obeys_eq_spec()
    }

    open spec fn eq_spec(&self, other: &Self) -> bool {
        self@.eq_spec(&other@)
    }
}

/// The address `count` elements of `size` bytes after `base`, or
/// `PtrOverflow` when that address is beyond the 32-bit address space.
pub open spec fn advance(base: u32, count: u32, size: u32) -> Result<u32, GuestError> {
    if base + count * size <= u32::MAX {
        Ok((base + count * size) as u32)
    } else {
        Err(GuestError::PtrOverflow)
    }
}

/// The addresses of the elements of a sequence of `len` elements of `size`
/// bytes at `base`, one outcome per index.
pub open spec fn element_addresses(base: u32, len: u32, size: u32) -> Seq<Result<u32, GuestError>> {
    Seq::new(len as nat, |i: int| advance(base, i as u32, size))
}

/// An outcome of pointer arithmetic, with the pointer replaced by its address.
pub open spec fn address_of<T>(outcome: Result<GuestPtr<T>, GuestError>) -> Result<
    u32,
    GuestError,
> {
    match outcome {
        Ok(p) => Ok(p@),
        Err(e) => Err(e),
    }
}

impl<T: ?Sized + Pointee> GuestPtr<T> {
    /// Makes a pointer from its raw value. Nothing is checked.
    pub fn new(pointer: T::Pointer) -> (p: Self)
        ensures
            p@ == pointer,
    {
        Self { pointer }
    }

    /// The raw value of the pointer.
    pub fn offset(&self) -> (pointer: T::Pointer) where T::Pointer: Copy
        ensures
            pointer == self@,
    {
        self.pointer
    }

    /// The same raw value as a pointer to another type. Neither alignment nor
    /// validity is checked.
    pub fn cast<U>(&self) -> (p: GuestPtr<U>) where
        U: Pointee<Pointer = T::Pointer> + ?Sized,
        T::Pointer: Copy,

        ensures
            p@ == self@,
    {
        GuestPtr::new(self.pointer)
    }

    /// The pointer `amt` elements further on. Fails with `PtrOverflow`
    /// exactly when `amt * size + offset` is beyond the 32-bit address space.
    pub fn add(&self, amt: u32) -> (r: Result<GuestPtr<T>, GuestError>) where
        T: GuestType + Pointee<Pointer = u32>,

        ensures
            address_of(r) == advance(self@, amt, T::spec_guest_size()),
            r is Err <==> self@ + amt * T::spec_guest_size() > u32::MAX,
            r matches Err(e) ==> e == GuestError::PtrOverflow,
            r matches Ok(p) ==> p@ == self@ + amt * T::spec_guest_size(),
    {
        match amt.checked_mul(T::guest_size()) {
            Some(bytes) => match self.pointer.checked_add(bytes) {
                Some(offset) => Ok(GuestPtr::new(offset)),
                None => Err(GuestError::PtrOverflow),
            },
            None => Err(GuestError::PtrOverflow),
        }
    }

    /// A pointer to `elems` elements that start at this pointer.
    pub fn as_array(&self, elems: u32) -> (p: GuestPtr<[T]>) where
        T: GuestType + Pointee<Pointer = u32>,

        ensures
            p@ == (self@, elems),
    {
        GuestPtr::new((self.pointer, elems))
    }
}

impl<T> GuestPtr<[T]> {
    /// What `offset_base` returns, for use in contracts.
    pub open spec fn spec_offset_base(&self) -> u32 {
        self@.0
    }

    /// What `len` returns, for use in contracts.
    pub open spec fn spec_len(&self) -> u32 {
        self@.1
    }

    /// The address of the first element.
    #[verifier::when_used_as_spec(spec_offset_base)]
    pub fn offset_base(&self) -> (base: u32)
        ensures
            base == self@.0,
    {
        self.pointer.0
    }

    /// The number of elements.
    #[verifier::when_used_as_spec(spec_len)]
    pub fn len(&self) -> (len: u32)
        ensures
            len == self@.1,
    {
        self.pointer.1
    }

    /// The pointers to the elements, in order. Each one is computed by
    /// [`GuestPtr::add`] on its own, so one that overflows is an item like
    /// the others.
    pub fn iter(&self) -> (elements: ElementPtrs<T>) where T: GuestType
        ensures
            elements@ == element_addresses(self@.0, self@.1, T::spec_guest_size()),
    {
        let elements = ElementPtrs { base: self.as_ptr(), next: 0, len: self.len() };
        assert(elements@ =~= element_addresses(self@.0, self@.1, T::spec_guest_size()));
        elements
    }

    /// A pointer to the first element.
    pub fn as_ptr(&self) -> (p: GuestPtr<T>)
        ensures
            p@ == self@.0,
    {
        GuestPtr::new(self.pointer.0)
    }
}

impl GuestPtr<str> {
    /// The same address and length as a pointer to bytes.
    pub fn as_bytes(&self) -> (p: GuestPtr<[u8]>)
        ensures
            p@ == self@,
    {
        GuestPtr::new((self.pointer.0, self.pointer.1))
    }
}

/// The element pointers of a sequence pointer that are still to come.
pub struct ElementPtrs<T: GuestType> {
    base: GuestPtr<T>,
    next: u32,
    len: u32,
}

impl<T: GuestType> View for ElementPtrs<T> {
    type V = Seq<Result<u32, GuestError>>;

    /// The outcomes still to come, each pointer given by its address.
    closed spec fn view(&self) -> Seq<Result<u32, GuestError>> {
        Seq::new(
            if self.next <= self.len {
                (self.len - self.next) as nat
            } else {
                0
            },
            |i: int| advance(self.base@, (self.next + i) as u32, T::spec_guest_size()),
        )
    }
}

impl<T: GuestType> ElementPtrs<T> {
    /// The next element pointer, or `None` when all have been handed out.
    pub fn next(&mut self) -> (item: Option<Result<GuestPtr<T>, GuestError>>)
        ensures
            match item {
                Some(outcome) => {
                    &&& old(self)@.len() > 0
                    &&& address_of(outcome) == old(self)@.first()
                    &&& final(self)@ == old(self)@.drop_first()
                },
                None => old(self)@.len() == 0 && final(self)@ == old(self)@,
            },
    {
        if self.next < self.len {
            let outcome = self.base.add(self.next);
            self.next = self.next + 1;
            assert(self@ =~= old(self)@.drop_first());
            Some(outcome)
        } else {
            None
        }
    }

    /// How many element pointers are still to come.
    pub fn len(&self) -> (remaining: usize)
        ensures
            remaining == self@.len(),
    {
        if self.next <= self.len {
            (self.len - self.next) as usize
        } else {
            0
        }
    }
}

} // verus!
