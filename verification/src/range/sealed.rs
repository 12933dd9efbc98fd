//! The marker that keeps [`AsRange`](super::AsRange) implemented only for the range
//! expressions of this crate.
use vstd::prelude::*;

verus! {

/// Implemented exactly by the types that implement `AsRange`.
pub trait Sealed {
}

} // verus!
