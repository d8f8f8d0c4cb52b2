//! The arity attribute of a function-pointer type, as marker types
//! `A0` through `A12`.

use vstd::prelude::*;

verus! {

/// Marker trait for the arity attribute: a type-level count of parameters.
pub trait Arity: Sized {
    /// The number of parameters this marker stands for.
    spec fn n_spec() -> usize;

    /// Returns the number of parameters this marker stands for.
    fn n() -> (r: usize)
        ensures
            r == Self::n_spec(),
    ;
}

/// Marker type for functions with exactly 0 parameters.
#[derive(Clone, Copy, Debug, PartialEq, Eq, Hash, Structural)]
pub struct A0;

/// Marker type for functions with exactly 1 parameter.
#[derive(Clone, Copy, Debug, PartialEq, Eq, Hash, Structural)]
pub struct A1;

/// Marker type for functions with exactly 2 parameters.
#[derive(Clone, Copy, Debug, PartialEq, Eq, Hash, Structural)]
pub struct A2;

/// Marker type for functions with exactly 3 parameters.
#[derive(Clone, Copy, Debug, PartialEq, Eq, Hash, Structural)]
pub struct A3;

/// Marker type for functions with exactly 4 parameters.
#[derive(Clone, Copy, Debug, PartialEq, Eq, Hash, Structural)]
pub struct A4;

/// Marker type for functions with exactly 5 parameters.
#[derive(Clone, Copy, Debug, PartialEq, Eq, Hash, Structural)]
pub struct A5;

/// Marker type for functions with exactly 6 parameters.
#[derive(Clone, Copy, Debug, PartialEq, Eq, Hash, Structural)]
pub struct A6;

/// Marker type for functions with exactly 7 parameters.
#[derive(Clone, Copy, Debug, PartialEq, Eq, Hash, Structural)]
pub struct A7;

/// Marker type for functions with exactly 8 parameters.
#[derive(Clone, Copy, Debug, PartialEq, Eq, Hash, Structural)]
pub struct A8;

/// Marker type for functions with exactly 9 parameters.
#[derive(Clone, Copy, Debug, PartialEq, Eq, Hash, Structural)]
pub struct A9;

/// Marker type for functions with exactly 10 parameters.
#[derive(Clone, Copy, Debug, PartialEq, Eq, Hash, Structural)]
pub struct A10;

/// Marker type for functions with exactly 11 parameters.
#[derive(Clone, Copy, Debug, PartialEq, Eq, Hash, Structural)]
pub struct A11;

/// Marker type for functions with exactly 12 parameters.
#[derive(Clone, Copy, Debug, PartialEq, Eq, Hash, Structural)]
pub struct A12;

impl Arity for A0 {
    open spec fn n_spec() -> usize {
        0
    }

    fn n() -> usize {
        0
    }
}

impl Arity for A1 {
    open spec fn n_spec() -> usize {
        1
    }

    fn n() -> usize {
        1
    }
}

impl Arity for A2 {
    open spec fn n_spec() -> usize {
        2
    }

    fn n() -> usize {
        2
    }
}

impl Arity for A3 {
    open spec fn n_spec() -> usize {
        3
    }

    fn n() -> usize {
        3
    }
}

impl Arity for A4 {
    open spec fn n_spec() -> usize {
        4
    }

    fn n() -> usize {
        4
    }
}

impl Arity for A5 {
    open spec fn n_spec() -> usize {
        5
    }

    fn n() -> usize {
        5
    }
}

impl Arity for A6 {
    open spec fn n_spec() -> usize {
        6
    }

    fn n() -> usize {
        6
    }
}

impl Arity for A7 {
    open spec fn n_spec() -> usize {
        7
    }

    fn n() -> usize {
        7
    }
}

impl Arity for A8 {
    open spec fn n_spec() -> usize {
        8
    }

    fn n() -> usize {
        8
    }
}

impl Arity for A9 {
    open spec fn n_spec() -> usize {
        9
    }

    fn n() -> usize {
        9
    }
}

impl Arity for A10 {
    open spec fn n_spec() -> usize {
        10
    }

    fn n() -> usize {
        10
    }
}

impl Arity for A11 {
    open spec fn n_spec() -> usize {
        11
    }

    fn n() -> usize {
        11
    }
}

impl Arity for A12 {
    open spec fn n_spec() -> usize {
        12
    }

    fn n() -> usize {
        12
    }
}

} // verus!
