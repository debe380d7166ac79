use vstd::prelude::*;

verus! {

pub trait Sealed {}

impl<T> Sealed for T {}

impl<T> Sealed for [T] {}

impl Sealed for str {}

} // verus!
