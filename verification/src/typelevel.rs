//! Support for types that stand for states and kinds.

use vstd::prelude::*;

verus! {

/// Bound of the traits that only the types of this crate implement: the
/// trait cannot be named outside the crate.
pub trait Sealed {

}

} // verus!
