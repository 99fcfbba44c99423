use vstd::prelude::*;
use vstd::arithmetic::power2::pow2;

verus! {

/// A growable array that keeps its own account of how many elements it has
/// room for.
///
/// Its capacity starts at zero (or at the amount asked for), becomes 8 on the
/// first push into a full vector, and doubles on every later push into a full
/// vector.
pub struct MyVec<T> {
    data: Vec<T>,
    cap: usize,
}

/// The capacity after one push into a vector of length `len` and capacity `cap`.
pub open spec fn capacity_after_push(len: nat, cap: nat) -> nat {
    if len < cap {
        cap
    } else if cap == 0 {
        8
    } else {
        2 * cap
    }
}

/// Whether one push into a vector of length `len` and capacity `cap` keeps the
/// capacity within `usize`.
pub open spec fn push_fits(len: nat, cap: nat) -> bool {
    capacity_after_push(len, cap) <= usize::MAX
}

/// A push never takes room away, and afterwards there is room for one more
/// element than the vector held before it.
pub proof fn lemma_push_keeps_room(len: nat, cap: nat)
    requires
        len <= cap,
    ensures
        capacity_after_push(len, cap) >= cap,
        capacity_after_push(len, cap) > len,
        len < cap ==> capacity_after_push(len, cap) == cap,
{
}

/// How a push changes the room, case by case: a vector with room to spare
/// keeps its capacity; a full vector with no room gets room for 8; a full
/// vector with room for `cap > 0` elements gets room for exactly twice that.
pub proof fn lemma_push_growth(len: nat, cap: nat)
    requires
        len <= cap,
    ensures
        len < cap ==> capacity_after_push(len, cap) == cap,
        len == cap && cap == 0 ==> capacity_after_push(len, cap) == 8,
        len == cap && cap > 0 ==> capacity_after_push(len, cap) == 2 * cap,
{
}

/// Growth from no room climbs the powers of two times 8: the first growth
/// gives `8 * 2^0`, and one push into a full vector whose capacity is
/// `8 * 2^k` leaves room for `8 * 2^(k + 1)`.
pub proof fn lemma_growth_from_power_of_two(k: nat)
    ensures
        capacity_after_push(8 * pow2(k), 8 * pow2(k)) == 8 * pow2(k + 1),
        capacity_after_push(0, 0) == 8 * pow2(0),
{
    vstd::arithmetic::power2::lemma_pow2_unfold(k + 1);
    vstd::arithmetic::power2::lemma_pow2_pos(k);
    vstd::arithmetic::power2::lemma2_to64();
}

/// Reading back after a push: the pushed value sits at the old length, and
/// every earlier element is where it was.
pub proof fn lemma_get_after_push<T>(s: Seq<T>, value: T, i: int)
    ensures
        s.push(value)[s.len() as int] == value,
        s.push(value).len() == s.len() + 1,
        0 <= i < s.len() ==> s.push(value)[i] == s[i],
{
}

impl<T> View for MyVec<T> {
    type V = Seq<T>;

    closed spec fn view(&self) -> Seq<T> {
        self.data@
    }
}

impl<T> MyVec<T> {
    /// The vector never holds more elements than it has room for.
    #[verifier::type_invariant]
    spec fn wf(&self) -> bool {
        self.data@.len() <= self.cap
    }

    /// The number of elements the vector has room for.
    pub closed spec fn capacity(&self) -> nat {
        self.cap as nat
    }

    /// An empty vector with no room reserved.
    pub fn new() -> (v: Self)
        ensures
            v@ == Seq::<T>::empty(),
            v.capacity() == 0,
    {
        MyVec { data: Vec::new(), cap: 0 }
    }

    /// An empty vector with room for `cap` elements.
    pub fn with_capacity(cap: usize) -> (v: Self)
        ensures
            v@ == Seq::<T>::empty(),
            v.capacity() == cap,
    {
        MyVec { data: Vec::with_capacity(cap), cap }
    }

    /// Appends `value` at the end, first growing the room when the vector is full.
    pub fn push(&mut self, value: T)
        requires
            push_fits(old(self)@.len(), old(self).capacity()),
        ensures
            final(self)@ == old(self)@.push(value),
            final(self).capacity() == capacity_after_push(old(self)@.len(), old(self).capacity()),
            old(self)@.len() < old(self).capacity() ==> final(self).capacity() == old(self).capacity(),
            old(self)@.len() == old(self).capacity() && old(self).capacity() == 0
                ==> final(self).capacity() == 8,
            old(self)@.len() == old(self).capacity() && old(self).capacity() > 0
                ==> final(self).capacity() == 2 * old(self).capacity(),
    {
        proof {
            use_type_invariant(&*self);
        }
        if !self.can_insert_without_reallocating() {
            if self.cap == 0 {
                self.reallocate(8);
            } else {
                self.reallocate(self.cap * 2);
            }
        }
        proof {
            use_type_invariant(&*self);
        }
        let mut data = Vec::new();
        core::mem::swap(&mut data, &mut self.data);
        data.push(value);
        self.data = data;
    }

    /// The element at `index`, if there is one.
    pub fn get(&self, index: usize) -> (r: Option<&T>)
        ensures
            r == (if index < self@.len() {
                Some(&self@[index as int])
            } else {
                None
            }),
    {
        let slot = self.addr_of_nth(index)?;
        Some(&self.data[slot])
    }

    /// The number of elements.
    pub fn len(&self) -> (n: usize)
        ensures
            n == self@.len(),
            n <= self.capacity(),
    {
        proof {
            use_type_invariant(self);
        }
        self.data.len()
    }

    /// The slot that holds the `n`-th element, if there is one.
    fn addr_of_nth(&self, n: usize) -> (r: Option<usize>)
        ensures
            r == (if n < self@.len() {
                Some(n)
            } else {
                None
            }),
    {
        if n >= self.data.len() {
            None
        } else {
            Some(n)
        }
    }

    /// Whether one more element fits in the room already reserved.
    pub fn can_insert_without_reallocating(&self) -> (b: bool)
        ensures
            b == (self@.len() < self.capacity()),
            self@.len() <= self.capacity(),
    {
        proof {
            use_type_invariant(self);
        }
        self.data.len() < self.cap
    }

    /// Changes the room reserved to `new_cap` elements, keeping the elements.
    fn reallocate(&mut self, new_cap: usize)
        requires
            old(self)@.len() <= new_cap,
        ensures
            final(self)@ == old(self)@,
            final(self).capacity() == new_cap,
    {
        let mut data = Vec::new();
        core::mem::swap(&mut data, &mut self.data);
        let additional = new_cap - data.len();
        data.reserve(additional);
        self.cap = new_cap;
        self.data = data;
    }
}

} // verus!
