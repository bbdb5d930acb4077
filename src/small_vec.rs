use vstd::prelude::*;

verus! {

/// A growable array that keeps up to `N` elements inline and spills to the
/// heap beyond that. Its storage layout is not modelled: a value is the
/// ordered sequence of its elements.
#[derive(Debug, Clone, PartialEq)]
pub struct SmallVec<T, const N: usize> {
    items: Vec<T>,
}

impl<T: View, const N: usize> View for SmallVec<T, N> {
    type V = Seq<T::V>;

    closed spec fn view(&self) -> Seq<T::V> {
        self.items@.map_values(|x: T| x@)
    }
}

impl<T: View, const N: usize> SmallVec<T, N> {
    /// The elements themselves, in order.
    pub closed spec fn elems(&self) -> Seq<T> {
        self.items@
    }

    pub proof fn lemma_view_of_elems(&self)
        ensures
            self@.len() == self.elems().len(),
            forall|i: int| 0 <= i < self@.len() ==> self@[i] == (#[trigger] self.elems()[i])@,
    {
    }

    /// An empty vector.
    pub fn new() -> (r: Self)
        ensures
            r@ == Seq::<T::V>::empty(),
            r.elems() == Seq::<T>::empty(),
    {
        SmallVec { items: Vec::new() }
    }

    /// An empty vector with room for `capacity` elements reserved; the
    /// capacity is a hint only.
    pub fn with_capacity(capacity: usize) -> (r: Self)
        ensures
            r@ == Seq::<T::V>::empty(),
            r.elems() == Seq::<T>::empty(),
    {
        if capacity <= N {
            SmallVec { items: Vec::new() }
        } else {
            SmallVec { items: Vec::with_capacity(capacity) }
        }
    }

    /// The inline capacity `N`.
    pub fn inline_capacity(&self) -> (r: usize)
        ensures
            r == N,
    {
        N
    }

    pub fn len(&self) -> (r: usize)
        ensures
            r == self@.len(),
    {
        self.items.len()
    }

    pub fn is_empty(&self) -> (r: bool)
        ensures
            r == (self@.len() == 0),
    {
        self.items.len() == 0
    }

    /// Whether the elements no longer fit inline.
    pub fn is_spilled(&self) -> (r: bool)
        ensures
            r == (self@.len() > N),
    {
        self.items.len() > N
    }

    /// Appends `value` at the end.
    pub fn push(&mut self, value: T)
        ensures
            final(self)@ == old(self)@.push(value@),
            final(self).elems() == old(self).elems().push(value),
    {
        self.items.push(value);
        assert(self@ =~= old(self)@.push(value@));
    }

    /// The elements as a contiguous slice.
    pub fn as_slice(&self) -> (r: &[T])
        ensures
            r@ == self.elems(),
    {
        self.items.as_slice()
    }

    /// Consumes the vector and hands its elements over in order.
    pub fn into_vec(self) -> (r: Vec<T>)
        ensures
            r@ == self.elems(),
    {
        self.items
    }

    /// A vector holding the elements of `v` in order.
    pub fn from_vec(v: Vec<T>) -> (r: Self)
        ensures
            r.elems() == v@,
            r@ == v@.map_values(|x: T| x@),
    {
        SmallVec { items: v }
    }
}

} // verus!
