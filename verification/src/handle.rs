//! Handles to objects of the native libraries.

use vstd::prelude::*;

verus! {

/// The address of a native object, which is never null, with the mark that
/// says whether the holder is the one to dispose of the object.
pub struct NativeHandle {
    address: usize,
    owned: bool,
}

impl NativeHandle {
    #[verifier::type_invariant]
    spec fn non_null(self) -> bool {
        self.address != 0
    }

    /// The address of the native object.
    pub closed spec fn address(self) -> usize {
        self.address
    }

    /// Whether the holder disposes of the native object.
    pub closed spec fn owned(self) -> bool {
        self.owned
    }

    /// A handle to the native object at `address`.
    pub fn new(address: usize, owned: bool) -> (handle: NativeHandle)
        requires
            address != 0,
        ensures
            handle.address() == address,
            handle.owned() == owned,
    {
        NativeHandle { address, owned }
    }

    /// The address of the native object; it is not null.
    pub fn as_ptr(&self) -> (address: usize)
        ensures
            address == self.address(),
            address != 0,
    {
        proof {
            use_type_invariant(self);
        }
        self.address
    }

    /// Whether the holder disposes of the native object.
    pub fn is_owned(&self) -> (owned: bool)
        ensures
            owned == self.owned(),
    {
        self.owned
    }
}

} // verus!
