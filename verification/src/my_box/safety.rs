use vstd::prelude::*;

verus! {

/// An owning pointer to a single heap-allocated `i32`.
pub struct MyBoxI32 {
    address: Box<i32>,
}

impl View for MyBoxI32 {
    type V = i32;

    closed spec fn view(&self) -> i32 {
        *self.address
    }
}

impl MyBoxI32 {
    /// Moves `data` to the heap.
    pub fn new(data: i32) -> (b: Self)
        ensures
            b@ == data,
    {
        MyBoxI32 { address: Box::new(data) }
    }

    /// A copy of the boxed value.
    pub fn get(&self) -> (r: i32)
        ensures
            r == self@,
    {
        *self.address
    }
}

} // verus!
