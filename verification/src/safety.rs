//! The safety attribute of a function-pointer type, as marker types.

use vstd::prelude::*;

verus! {

/// Marker trait for the safety attribute: a type-level boolean that says
/// whether calling through the pointer is an ordinary operation.
pub trait Safety: Sized {
    /// Whether this marker stands for the safe attribute.
    spec fn is_safe_spec() -> bool;

    /// Returns `true` for the safe marker and `false` for the unsafe one.
    fn is_safe() -> (b: bool)
        ensures
            b == Self::is_safe_spec(),
    ;
}

/// Marker type for pointers that may be called as an ordinary operation.
#[derive(Clone, Copy, Debug, PartialEq, Eq, Hash, Structural)]
pub struct Safe;

/// Marker type for pointers whose caller must uphold unchecked
/// preconditions.
#[derive(Clone, Copy, Debug, PartialEq, Eq, Hash, Structural)]
pub struct Unsafe;

impl Safety for Safe {
    open spec fn is_safe_spec() -> bool {
        true
    }

    fn is_safe() -> bool {
        true
    }
}

impl Safety for Unsafe {
    open spec fn is_safe_spec() -> bool {
        false
    }

    fn is_safe() -> bool {
        false
    }
}

} // verus!
