//! The seal on the thread-safety markers.

use vstd::prelude::*;

verus! {

/// Implemented by the thread-safety markers of this crate, and by nothing
/// else.
pub trait Sealed {
    fn __sealed_trait_marker() {
    }
}

} // verus!
