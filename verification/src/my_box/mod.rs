pub mod safety;

use core::ops::Deref;
use core::ops::DerefMut;
use vstd::prelude::*;

verus! {

/// An owning pointer to a single heap-allocated value.
pub struct MyBox<T> {
    ptr: Box<T>,
}

impl<T> View for MyBox<T> {
    type V = T;

    closed spec fn view(&self) -> T {
        *self.ptr
    }
}

impl<T> MyBox<T> {
    /// Moves `value` to the heap.
    pub fn new(value: T) -> (b: Self)
        ensures
            b@ == value,
    {
        MyBox { ptr: Box::new(value) }
    }
}

impl<T> Deref for MyBox<T> {
    type Target = T;

    fn deref(&self) -> (r: &T)
        ensures
            *r == self@,
    {
        &*self.ptr
    }
}

impl<T> DerefMut for MyBox<T> {
    fn deref_mut(&mut self) -> (r: &mut T)
        ensures
            *r == old(self)@,
            final(self)@ == *final(r),
    {
        &mut *self.ptr
    }
}

} // verus!
