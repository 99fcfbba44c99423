use core::ops::Deref;
use std::rc::Rc;
use vstd::prelude::*;

verus! {

/// A reference-counted pointer: clones share one heap allocation, which is
/// freed when the last of them is dropped.
pub struct MyRc<T> {
    ptr: Rc<T>,
}

impl<T> View for MyRc<T> {
    type V = T;

    closed spec fn view(&self) -> T {
        *self.ptr
    }
}

/// `Rc::clone` as std documents it: a new pointer to the same allocation, with
/// the strong count raised by one. The contract says only that the new pointer
/// leads to an equal value; that it is the same allocation, and what the count
/// becomes, are left unsaid.
#[verifier::external_body]
fn rc_clone<T>(rc: &Rc<T>) -> (r: Rc<T>)
    ensures
        *r == **rc,
{
    Rc::clone(rc)
}

impl<T> MyRc<T> {
    /// Moves `value` to a new shared allocation whose count is one.
    pub fn new(value: T) -> (rc: Self)
        ensures
            rc@ == value,
    {
        MyRc { ptr: Rc::new(value) }
    }
}

impl<T> Clone for MyRc<T> {
    /// Another pointer to the same value, counted as one more owner.
    fn clone(&self) -> (c: Self)
        ensures
            c@ == self@,
    {
        MyRc { ptr: rc_clone(&self.ptr) }
    }
}

impl<T> Deref for MyRc<T> {
    type Target = T;

    fn deref(&self) -> (r: &T)
        ensures
            *r == self@,
    {
        &*self.ptr
    }
}

} // verus!
