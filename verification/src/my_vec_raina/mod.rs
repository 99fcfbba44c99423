use vstd::prelude::*;
use vstd::pervasive::VecAdditionalExecFns;
use crate::my_vec::capacity_after_push;
use crate::my_vec::push_fits;

verus! {

/// A growable array with insertion at any position, keeping its own account
/// of how many elements it has room for.
///
/// It grows as `MyVec` does: to 8 on the first push or insertion into a full
/// vector, and to twice its capacity on every later one.
pub struct MyVecRaina<T> {
    data: Vec<T>,
    cap: usize,
}

/// Inserting at the end is pushing.
pub proof fn lemma_insert_at_end_is_push<T>(s: Seq<T>, value: T)
    ensures
        s.insert(s.len() as int, value) == s.push(value),
{
    assert(s.insert(s.len() as int, value) =~= s.push(value));
}

/// Reading back after an insertion at `index`: the new value sits at `index`,
/// the elements before it stay, and those from `index` on move one place up.
pub proof fn lemma_get_after_insert<T>(s: Seq<T>, index: int, value: T, i: int)
    requires
        0 <= index <= s.len(),
    ensures
        s.insert(index, value).len() == s.len() + 1,
        s.insert(index, value)[index] == value,
        0 <= i < index ==> s.insert(index, value)[i] == s[i],
        index <= i < s.len() ==> s.insert(index, value)[i + 1] == s[i],
{
}

impl<T> View for MyVecRaina<T> {
    type V = Seq<T>;

    closed spec fn view(&self) -> Seq<T> {
        self.data@
    }
}

impl<T> MyVecRaina<T> {
    /// The vector never holds more elements than it has room for.
    #[verifier::type_invariant]
    spec fn wf(&self) -> bool {
        self.data@.len() <= self.cap
    }

    /// The number of elements the vector has room for.
    pub closed spec fn capacity(&self) -> nat {
        self.cap as nat
    }

    /// An empty vector with no room reserved.
    pub fn new() -> (v: Self)
        ensures
            v@ == Seq::<T>::empty(),
            v.capacity() == 0,
    {
        MyVecRaina { data: Vec::new(), cap: 0 }
    }

    /// An empty vector with room for `cap` elements.
    pub fn with_capacity(cap: usize) -> (v: Self)
        ensures
            v@ == Seq::<T>::empty(),
            v.capacity() == cap,
    {
        MyVecRaina { data: Vec::with_capacity(cap), cap }
    }

    /// The element at `index`, if there is one.
    pub fn get(&self, index: usize) -> (r: Option<&T>)
        ensures
            r == (if index < self@.len() {
                Some(&self@[index as int])
            } else {
                None
            }),
    {
        let slot = self.addrress_of_nth(index)?;
        Some(&self.data[slot])
    }

    /// The number of elements.
    pub fn len(&self) -> (n: usize)
        ensures
            n == self@.len(),
            n <= self.capacity(),
    {
        proof {
            use_type_invariant(self);
        }
        self.data.len()
    }

    /// The slot that holds the element at `index`, if there is one.
    fn addrress_of_nth(&self, index: usize) -> (r: Option<usize>)
        ensures
            r == (if index < self@.len() {
                Some(index)
            } else {
                None
            }),
    {
        if index < self.data.len() {
            Some(index)
        } else {
            None
        }
    }

    /// Appends `value` at the end, first growing the room when the vector is full.
    pub fn push(&mut self, value: T)
        requires
            push_fits(old(self)@.len(), old(self).capacity()),
        ensures
            final(self)@ == old(self)@.push(value),
            final(self).capacity() == capacity_after_push(old(self)@.len(), old(self).capacity()),
            old(self)@.len() < old(self).capacity() ==> final(self).capacity() == old(self).capacity(),
            old(self)@.len() == old(self).capacity() && old(self).capacity() == 0
                ==> final(self).capacity() == 8,
            old(self)@.len() == old(self).capacity() && old(self).capacity() > 0
                ==> final(self).capacity() == 2 * old(self).capacity(),
    {
        proof {
            use_type_invariant(&*self);
        }
        if self.data.len() == self.cap {
            if self.cap == 0 {
                self.reallocate(8);
            } else {
                self.reallocate(self.cap * 2);
            }
        }
        proof {
            use_type_invariant(&*self);
        }
        let mut data = Vec::new();
        core::mem::swap(&mut data, &mut self.data);
        data.push(value);
        self.data = data;
    }

    /// Puts `value` at position `index`, moving the elements from `index` on
    /// one place towards the end, first growing the room when the vector is full.
    pub fn insert(&mut self, index: usize, value: T)
        requires
            index <= old(self)@.len(),
            push_fits(old(self)@.len(), old(self).capacity()),
        ensures
            final(self)@ == old(self)@.insert(index as int, value),
            final(self).capacity() == capacity_after_push(old(self)@.len(), old(self).capacity()),
            old(self)@.len() < old(self).capacity() ==> final(self).capacity() == old(self).capacity(),
            old(self)@.len() == old(self).capacity() && old(self).capacity() == 0
                ==> final(self).capacity() == 8,
            old(self)@.len() == old(self).capacity() && old(self).capacity() > 0
                ==> final(self).capacity() == 2 * old(self).capacity(),
    {
        proof {
            use_type_invariant(&*self);
        }
        if self.data.len() == self.cap {
            if self.cap == 0 {
                self.reallocate(8);
            } else {
                self.reallocate(self.cap * 2);
            }
        }
        proof {
            use_type_invariant(&*self);
        }
        let ghost before = self.data@;
        let ghost room = self.capacity();
        let ghost after = before.insert(index as int, value);
        let mut data = Vec::new();
        core::mem::swap(&mut data, &mut self.data);
        let len = data.len();
        // Walk from `index` to the end, leaving at each slot the element that
        // belongs there and carrying the one it held on to the next slot.
        let mut carried = value;
        let mut k = index;
        while k < len
            invariant
                index <= k <= len,
                len == before.len(),
                len < room,
                self.capacity() == room,
                after == before.insert(index as int, value),
                data@.len() == len,
                carried == after[k as int],
                forall|i: int| 0 <= i < k ==> #[trigger] data@[i] == after[i],
                forall|i: int| k <= i < len ==> #[trigger] data@[i] == before[i],
            decreases len - k,
        {
            data.set_and_swap(k, &mut carried);
            k = k + 1;
        }
        data.push(carried);
        assert(data@ =~= after);
        self.data = data;
    }

    /// Changes the room reserved to `new_cap` elements, keeping the elements.
    fn reallocate(&mut self, new_cap: usize)
        requires
            old(self)@.len() <= new_cap,
        ensures
            final(self)@ == old(self)@,
            final(self).capacity() == new_cap,
    {
        let mut data = Vec::new();
        core::mem::swap(&mut data, &mut self.data);
        let additional = new_cap - data.len();
        data.reserve(additional);
        self.cap = new_cap;
        self.data = data;
    }

    /// Checks that the vector holds no more elements than it has room for and
    /// that each of its positions can be read; every vector of this type
    /// passes.
    pub fn check_invariants(&self) {
        proof {
            use_type_invariant(self);
        }
        assert(self.data@.len() <= self.cap);
        let len = self.data.len();
        let mut i: usize = 0;
        while i < len
            invariant
                len == self@.len(),
                i <= len,
            decreases len - i,
        {
            let r = self.get(i);
            assert(r.is_some());
            i = i + 1;
        }
    }
}

} // verus!
