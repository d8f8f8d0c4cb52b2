//! Reflection over function-pointer types, modelled as data.
//!
//! A function-pointer type is determined by four orthogonal attributes:
//! its safety, its calling convention, its argument tuple and its output
//! type. This crate models that universe: [`TypedFnPtr`] carries the four
//! attributes as type-level markers around a bare code address, [`FnPtr`]
//! reflects the attributes as values, the `With*` traits compute the type
//! with exactly one attribute replaced, and the convention taxonomy
//! ([`AbiValue`] with its markers, parsing, printing and target
//! resolution) supplies the alphabet the universe is built over.
//!
//! The laws of the algebra are stated and proved over the model: the
//! reflected values agree with the attribute types, each substitution
//! changes exactly its own attribute and keeps the address, substituting
//! an attribute by itself changes nothing, opposite safety substitutions
//! cancel, distinct substitutions commute, and parsing inverts printing
//! for every convention.

pub mod abi;
pub mod abi_value;
pub mod arity;
pub mod base;
pub mod conv;
pub mod invoke;
pub mod marker;
pub mod safety;
mod strcmp;
pub mod target;
pub mod tuple;

pub use abi_value::{parse, parse_or_fail, AbiValue};
pub use base::{FnPtr, OpaquePtr, SafeFnPtr, StaticFnPtr, TypedFnPtr, UnsafeFnPtr};
pub use conv::{
    as_safe, as_unsafe, cast, with_abi, with_args, with_output, with_safety, AsSafe, AsUnsafe,
    BuildFn, HasAbi, HasSafety, WithAbi, WithAbiImpl, WithArgs, WithArgsImpl, WithOutput,
    WithOutputImpl, WithSafety, WithSafetyImpl,
};
pub use invoke::{invoke0, invoke1, invoke2};
pub use safety::{Safe, Safety, Unsafe};
pub use target::{Target, TargetArch, TargetOs};
pub use tuple::Tuple;

use crate::arity::Arity;
use vstd::prelude::*;

verus! {

/// Returns the number of arguments of `F`: the length of its argument
/// tuple.
pub fn arity<F: FnPtr>() -> (n: usize)
    ensures
        n == F::arity_spec(),
        n == <<F::Args as Tuple>::Arity as Arity>::n_spec(),
{
    proof {
        F::reflection_consistent();
    }
    F::arity()
}

/// Returns `true` exactly when the safety attribute of `F` is [`Safe`].
pub fn is_safe<F: FnPtr>() -> (b: bool)
    ensures
        b == F::is_safe_spec(),
        b == <F::Safety as Safety>::is_safe_spec(),
{
    proof {
        F::reflection_consistent();
    }
    F::is_safe()
}

/// Returns `true` exactly when `F` is not safe.
pub fn is_unsafe<F: FnPtr>() -> (b: bool)
    ensures
        b == !F::is_safe_spec(),
        b == !<F::Safety as Safety>::is_safe_spec(),
{
    proof {
        F::reflection_consistent();
    }
    !F::is_safe()
}

/// Returns `true` exactly when the convention of `F` is not `Rust`.
pub fn is_extern<F: FnPtr>() -> (b: bool)
    ensures
        b == F::is_extern_spec(),
        b == (F::abi_spec() != AbiValue::Rust),
{
    proof {
        F::reflection_consistent();
    }
    F::is_extern()
}

/// Returns the calling convention of `F`: the value of its convention
/// marker.
pub fn abi<F: FnPtr>() -> (a: AbiValue)
    ensures
        a == F::abi_spec(),
        a == <F::Abi as crate::marker::Abi>::value_spec(),
{
    proof {
        F::reflection_consistent();
    }
    F::abi()
}

} // verus!
