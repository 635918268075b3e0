//! A block of memory that the foreign allocator made, as the adapter sees it:
//! where it lies and what it holds.

use vstd::prelude::*;

verus! {

/// A foreign allocation: its address, which is never null, and the elements
/// that it holds.
#[derive(Debug)]
pub struct CBox<T> {
    address: usize,
    data: Vec<T>,
}

impl<T> View for CBox<T> {
    type V = Seq<T>;

    closed spec fn view(&self) -> Seq<T> {
        self.data@
    }
}

impl<T> CBox<T> {
    #[verifier::type_invariant]
    spec fn non_null(self) -> bool {
        self.address != 0
    }

    /// The address of the allocation.
    pub closed spec fn address(self) -> usize {
        self.address
    }

    /// Takes charge of the allocation at `address`, which holds `data`.
    pub fn new(address: usize, data: Vec<T>) -> (boxed: CBox<T>)
        requires
            address != 0,
        ensures
            boxed.address() == address,
            boxed@ == data@,
    {
        CBox { address, data }
    }

    /// The address of the allocation; it is not null.
    pub fn as_ptr(&self) -> (address: usize)
        ensures
            address == self.address(),
            address != 0,
    {
        proof {
            use_type_invariant(self);
        }
        self.address
    }

    /// The elements of the allocation.
    pub fn as_ref(&self) -> (data: &[T])
        ensures
            data@ == self@,
    {
        self.data.as_slice()
    }

    /// Copies the elements out; the allocation stays with the box.
    pub fn clone_slice(&self) -> (copy: Vec<T>) where T: Clone
        ensures
            copy@.len() == self@.len(),
            forall|i: int| 0 <= i < self@.len() ==> cloned::<T>(self@[i], #[trigger] copy@[i]),
    {
        self.data.clone()
    }
}

} // verus!
