//! A managed array read out of a game.

use vstd::prelude::*;

verus! {

/// A managed array read out of a game: the elements of a `T[]`, as many as
/// the array counts. `N` bounds how many elements the array holds.
pub struct ManagedArray<T, const N: usize> {
    elements: Vec<T>,
}

impl<T, const N: usize> View for ManagedArray<T, N> {
    type V = Seq<T>;

    closed spec fn view(&self) -> Seq<T> {
        self.elements@
    }
}

impl<T: Copy, const N: usize> ManagedArray<T, N> {
    /// Holds the elements read, which the reader has judged against `N`.
    pub(crate) fn from_vec(elements: Vec<T>) -> (a: Self)
        ensures
            a@ == elements@,
    {
        ManagedArray { elements }
    }

    /// Builds an array from its elements. More than `N` elements is `None`.
    pub fn from_elements(elements: &[T]) -> (r: Option<Self>)
        ensures
            match r {
                Some(a) => elements@.len() <= N && a@ == elements@,
                None => elements@.len() > N,
            },
    {
        if elements.len() > N {
            return None;
        }
        let mut v: Vec<T> = Vec::new();
        let mut i: usize = 0;
        while i < elements.len()
            invariant
                0 <= i <= elements@.len(),
                v@ =~= elements@.take(i as int),
            decreases elements@.len() - i,
        {
            v.push(elements[i]);
            i += 1;
        }
        Some(ManagedArray { elements: v })
    }

    /// Returns every element of the array.
    pub fn as_slice(&self) -> (r: &[T])
        ensures
            r@ == self@,
    {
        self.elements.as_slice()
    }

    /// Returns how many elements the array holds.
    pub fn len(&self) -> (n: usize)
        ensures
            n == self@.len(),
    {
        self.elements.len()
    }

    /// Whether the array holds no elements.
    pub fn is_empty(&self) -> (b: bool)
        ensures
            b == (self@.len() == 0),
    {
        self.elements.len() == 0
    }
}

} // verus!
