//! The argument tuples of the universe: every tuple type of length at most
//! twelve, mapped to its arity marker.

use crate::arity::{A0, A1, A2, A3, A4, A5, A6, A7, A8, A9, A10, A11, A12};
use vstd::prelude::*;

verus! {

/// A trait implemented for every tuple type of length at most twelve,
/// carrying the marker of the tuple's arity.
pub trait Tuple {
    /// The type-level representation of this tuple's arity: `()` maps to
    /// `A0`, `(T,)` to `A1`, and so on.
    type Arity: crate::arity::Arity;
}

impl Tuple for () {
    type Arity = A0;
}

impl<T1> Tuple for (T1,) {
    type Arity = A1;
}

impl<T1, T2> Tuple for (T1, T2) {
    type Arity = A2;
}

impl<T1, T2, T3> Tuple for (T1, T2, T3) {
    type Arity = A3;
}

impl<T1, T2, T3, T4> Tuple for (T1, T2, T3, T4) {
    type Arity = A4;
}

impl<T1, T2, T3, T4, T5> Tuple for (T1, T2, T3, T4, T5) {
    type Arity = A5;
}

impl<T1, T2, T3, T4, T5, T6> Tuple for (T1, T2, T3, T4, T5, T6) {
    type Arity = A6;
}

impl<T1, T2, T3, T4, T5, T6, T7> Tuple for (T1, T2, T3, T4, T5, T6, T7) {
    type Arity = A7;
}

impl<T1, T2, T3, T4, T5, T6, T7, T8> Tuple for (T1, T2, T3, T4, T5, T6, T7, T8) {
    type Arity = A8;
}

impl<T1, T2, T3, T4, T5, T6, T7, T8, T9> Tuple for (T1, T2, T3, T4, T5, T6, T7, T8, T9) {
    type Arity = A9;
}

impl<T1, T2, T3, T4, T5, T6, T7, T8, T9, T10> Tuple for (T1, T2, T3, T4, T5, T6, T7, T8, T9, T10) {
    type Arity = A10;
}

impl<T1, T2, T3, T4, T5, T6, T7, T8, T9, T10, T11> Tuple for (
    T1,
    T2,
    T3,
    T4,
    T5,
    T6,
    T7,
    T8,
    T9,
    T10,
    T11,
) {
    type Arity = A11;
}

impl<T1, T2, T3, T4, T5, T6, T7, T8, T9, T10, T11, T12> Tuple for (
    T1,
    T2,
    T3,
    T4,
    T5,
    T6,
    T7,
    T8,
    T9,
    T10,
    T11,
    T12,
) {
    type Arity = A12;
}

} // verus!
