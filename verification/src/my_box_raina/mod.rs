use core::ops::Deref;
use core::ops::DerefMut;
use vstd::prelude::*;

verus! {

/// An owning pointer to a single heap-allocated value that can give the value
/// back.
pub struct MyBoxRaina<T> {
    pointer: Box<T>,
}

impl<T> View for MyBoxRaina<T> {
    type V = T;

    closed spec fn view(&self) -> T {
        *self.pointer
    }
}

impl<T> MyBoxRaina<T> {
    /// Moves `input` to the heap.
    pub fn new(input: T) -> (b: Self)
        ensures
            b@ == input,
    {
        MyBoxRaina { pointer: Box::new(input) }
    }

    /// Frees the box and hands back the value it held.
    pub fn into_inner(self) -> (t: T)
        ensures
            t == self@,
    {
        *self.pointer
    }
}

impl<T> DerefMut for MyBoxRaina<T> {
    fn deref_mut(&mut self) -> (r: &mut T)
        ensures
            *r == old(self)@,
            final(self)@ == *final(r),
    {
        &mut *self.pointer
    }
}

impl<T> Deref for MyBoxRaina<T> {
    type Target = T;

    fn deref(&self) -> (r: &T)
        ensures
            *r == self@,
    {
        &*self.pointer
    }
}

} // verus!
