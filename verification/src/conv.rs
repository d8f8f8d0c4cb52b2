//! The substitution algebra of the universe: for each of the four
//! attributes, a type-level function that replaces exactly that attribute,
//! together with the value-level casts along them and the laws the algebra
//! obeys.
//!
//! Each substitution comes in two layers. The implementation layer
//! (`WithAbiImpl` and its three siblings) only carries the computed type
//! and asks nothing of `Self`, so that [`FnPtr`] can name it among its
//! supertraits without a cycle. The user layer (`WithAbi` and siblings)
//! requires [`FnPtr`] and states, as bounds on the computed type, that
//! exactly one attribute changed; a blanket implementation forwards it to
//! the implementation layer.

use crate::base::{lemma_typed_fn_ptr_ext, FnPtr, TypedFnPtr};
use crate::marker::Abi;
use crate::safety::{Safe, Safety, Unsafe};
use crate::tuple::Tuple;
use vstd::prelude::*;

verus! {

/// Implementation layer of [`WithAbi`]: carries the type with the
/// convention replaced, without requiring `Self: FnPtr`.
pub trait WithAbiImpl<A: Abi> {
    /// The type with the convention replaced by `A`.
    type F;
}

/// Implementation layer of [`WithSafety`]: carries the type with the
/// safety replaced, without requiring `Self: FnPtr`.
pub trait WithSafetyImpl<S: Safety> {
    /// The type with the safety replaced by `S`.
    type F;
}

/// Implementation layer of [`WithArgs`]: carries the type with the
/// argument tuple replaced, without requiring `Self: FnPtr`.
pub trait WithArgsImpl<T: Tuple> {
    /// The type with the argument tuple replaced by `T`.
    type F;
}

/// Implementation layer of [`WithOutput`]: carries the type with the
/// output replaced, without requiring `Self: FnPtr`.
pub trait WithOutputImpl<R> {
    /// The type with the output replaced by `R`.
    type F;
}

impl<S: Safety, A: Abi, T: Tuple, R, A2: Abi> WithAbiImpl<A2> for TypedFnPtr<S, A, T, R> {
    type F = TypedFnPtr<S, A2, T, R>;
}

impl<S: Safety, A: Abi, T: Tuple, R, S2: Safety> WithSafetyImpl<S2> for TypedFnPtr<S, A, T, R> {
    type F = TypedFnPtr<S2, A, T, R>;
}

impl<S: Safety, A: Abi, T: Tuple, R, T2: Tuple> WithArgsImpl<T2> for TypedFnPtr<S, A, T, R> {
    type F = TypedFnPtr<S, A, T2, R>;
}

impl<S: Safety, A: Abi, T: Tuple, R, R2> WithOutputImpl<R2> for TypedFnPtr<S, A, T, R> {
    type F = TypedFnPtr<S, A, T, R2>;
}

/// The function-pointer type identical to `Self` except that its calling
/// convention is `A`.
pub trait WithAbi<A: Abi>: FnPtr {
    /// The type with the convention replaced by `A`; every other
    /// attribute is unchanged.
    type F: FnPtr<Args = Self::Args, Output = Self::Output, Safety = Self::Safety, Abi = A>;
}

impl<A: Abi, F: FnPtr + WithAbiImpl<A>> WithAbi<A> for F where <F as WithAbiImpl<A>>::F: FnPtr<
    Args = F::Args,
    Output = F::Output,
    Safety = F::Safety,
    Abi = A,
> {
    type F = <F as WithAbiImpl<A>>::F;
}

/// The function-pointer type identical to `Self` except that its safety
/// is `S`.
pub trait WithSafety<S: Safety>: FnPtr {
    /// The type with the safety replaced by `S`; every other attribute is
    /// unchanged.
    type F: FnPtr<Args = Self::Args, Output = Self::Output, Safety = S, Abi = Self::Abi>;
}

impl<S: Safety, F: FnPtr + WithSafetyImpl<S>> WithSafety<S> for F where <F as WithSafetyImpl<
    S,
>>::F: FnPtr<Args = F::Args, Output = F::Output, Safety = S, Abi = F::Abi> {
    type F = <F as WithSafetyImpl<S>>::F;
}

/// The function-pointer type identical to `Self` except that its argument
/// tuple is `T`.
pub trait WithArgs<T: Tuple>: FnPtr {
    /// The type with the argument tuple replaced by `T`; every other
    /// attribute is unchanged.
    type F: FnPtr<Args = T, Output = Self::Output, Safety = Self::Safety, Abi = Self::Abi>;
}

impl<T: Tuple, F: FnPtr + WithArgsImpl<T>> WithArgs<T> for F where <F as WithArgsImpl<T>>::F: FnPtr<
    Args = T,
    Output = F::Output,
    Safety = F::Safety,
    Abi = F::Abi,
> {
    type F = <F as WithArgsImpl<T>>::F;
}

/// The function-pointer type identical to `Self` except that its output
/// is `R`.
pub trait WithOutput<R>: FnPtr {
    /// The type with the output replaced by `R`; every other attribute is
    /// unchanged.
    type F: FnPtr<Args = Self::Args, Output = R, Safety = Self::Safety, Abi = Self::Abi>;
}

impl<R, F: FnPtr + WithOutputImpl<R>> WithOutput<R> for F where <F as WithOutputImpl<R>>::F: FnPtr<
    Args = F::Args,
    Output = R,
    Safety = F::Safety,
    Abi = F::Abi,
> {
    type F = <F as WithOutputImpl<R>>::F;
}

/// The safe variant of `Self`: a convenience name for
/// [`WithSafety`]`<Safe>`.
pub trait AsSafe: WithSafety<Safe> {
    /// The safe variant of this function-pointer type.
    type F: FnPtr<Args = Self::Args, Output = Self::Output, Safety = Safe, Abi = Self::Abi>;
}

impl<F: FnPtr + WithSafety<Safe>> AsSafe for F {
    type F = <F as WithSafety<Safe>>::F;
}

/// The unsafe variant of `Self`: a convenience name for
/// [`WithSafety`]`<Unsafe>`.
pub trait AsUnsafe: WithSafety<Unsafe> {
    /// The unsafe variant of this function-pointer type.
    type F: FnPtr<Args = Self::Args, Output = Self::Output, Safety = Unsafe, Abi = Self::Abi>;
}

impl<F: FnPtr + WithSafety<Unsafe>> AsUnsafe for F {
    type F = <F as WithSafety<Unsafe>>::F;
}

/// The constructor basis of the universe: an argument tuple builds the
/// pointer type with the given safety, convention and output around
/// itself.
pub trait BuildFn<S: Safety, A: Abi, R>: Tuple {
    /// The pointer type whose arguments are `Self` and whose other
    /// attributes are the given ones.
    type F: FnPtr<Args = Self, Output = R, Safety = S, Abi = A>;
}

impl<S: Safety, A: Abi, R, T: Tuple> BuildFn<S, A, R> for T {
    type F = TypedFnPtr<S, A, T, R>;
}

/// The members of the universe whose calling convention is `A`.
pub trait HasAbi<A: Abi>: FnPtr {

}

impl<A: Abi, F: FnPtr<Abi = A>> HasAbi<A> for F {

}

/// The members of the universe whose safety is `S`.
pub trait HasSafety<S: Safety>: FnPtr {

}

impl<S: Safety, F: FnPtr<Safety = S>> HasSafety<S> for F {

}

/// Reinterprets a pointer as any other member of the universe. The
/// address is kept bit for bit; the caller is responsible for the
/// reinterpretation being meaningful.
pub fn cast<F: FnPtr, G: FnPtr>(f: &F) -> (g: G)
    requires
        f.addr_spec() != 0,
    ensures
        g.addr_spec() == f.addr_spec(),
{
    G::from_addr(f.addr())
}

/// Reinterprets a pointer with its calling convention replaced by `A`,
/// keeping the address.
pub fn with_abi<A: Abi, F: WithAbi<A>>(f: &F) -> (g: <F as WithAbi<A>>::F)
    requires
        f.addr_spec() != 0,
    ensures
        g.addr_spec() == f.addr_spec(),
{
    cast::<F, <F as WithAbi<A>>::F>(f)
}

/// Reinterprets a pointer with its safety replaced by `S`, keeping the
/// address.
pub fn with_safety<S: Safety, F: WithSafety<S>>(f: &F) -> (g: <F as WithSafety<S>>::F)
    requires
        f.addr_spec() != 0,
    ensures
        g.addr_spec() == f.addr_spec(),
{
    cast::<F, <F as WithSafety<S>>::F>(f)
}

/// Reinterprets a pointer with its argument tuple replaced by `T`,
/// keeping the address.
pub fn with_args<T: Tuple, F: WithArgs<T>>(f: &F) -> (g: <F as WithArgs<T>>::F)
    requires
        f.addr_spec() != 0,
    ensures
        g.addr_spec() == f.addr_spec(),
{
    cast::<F, <F as WithArgs<T>>::F>(f)
}

/// Reinterprets a pointer with its output replaced by `R`, keeping the
/// address.
pub fn with_output<R, F: WithOutput<R>>(f: &F) -> (g: <F as WithOutput<R>>::F)
    requires
        f.addr_spec() != 0,
    ensures
        g.addr_spec() == f.addr_spec(),
{
    cast::<F, <F as WithOutput<R>>::F>(f)
}

/// Produces the safe variant of this pointer, keeping the address. The
/// caller is responsible for the function actually being safe to call.
pub fn as_safe<F: WithSafety<Safe>>(f: &F) -> (g: <F as WithSafety<Safe>>::F)
    requires
        f.addr_spec() != 0,
    ensures
        g.addr_spec() == f.addr_spec(),
{
    with_safety::<Safe, F>(f)
}

/// Produces the unsafe variant of this pointer, keeping the address.
pub fn as_unsafe<F: WithSafety<Unsafe>>(f: &F) -> (g: <F as WithSafety<Unsafe>>::F)
    requires
        f.addr_spec() != 0,
    ensures
        g.addr_spec() == f.addr_spec(),
{
    with_safety::<Unsafe, F>(f)
}

/// Substituting a pointer's own calling convention yields the pointer
/// unchanged.
pub fn with_abi_identity<S: Safety, A: Abi, T: Tuple, R>(f: &TypedFnPtr<S, A, T, R>) -> (g:
    TypedFnPtr<S, A, T, R>)
    requires
        f.addr_spec() != 0,
    ensures
        g == *f,
{
    let g = with_abi::<A, TypedFnPtr<S, A, T, R>>(f);
    proof {
        lemma_typed_fn_ptr_ext(g, *f);
    }
    g
}

/// Substituting a pointer's own safety yields the pointer unchanged.
pub fn with_safety_identity<S: Safety, A: Abi, T: Tuple, R>(f: &TypedFnPtr<S, A, T, R>) -> (g:
    TypedFnPtr<S, A, T, R>)
    requires
        f.addr_spec() != 0,
    ensures
        g == *f,
{
    let g = with_safety::<S, TypedFnPtr<S, A, T, R>>(f);
    proof {
        lemma_typed_fn_ptr_ext(g, *f);
    }
    g
}

/// Substituting a pointer's own argument tuple yields the pointer
/// unchanged.
pub fn with_args_identity<S: Safety, A: Abi, T: Tuple, R>(f: &TypedFnPtr<S, A, T, R>) -> (g:
    TypedFnPtr<S, A, T, R>)
    requires
        f.addr_spec() != 0,
    ensures
        g == *f,
{
    let g = with_args::<T, TypedFnPtr<S, A, T, R>>(f);
    proof {
        lemma_typed_fn_ptr_ext(g, *f);
    }
    g
}

/// Substituting a pointer's own output type yields the pointer unchanged.
pub fn with_output_identity<S: Safety, A: Abi, T: Tuple, R>(f: &TypedFnPtr<S, A, T, R>) -> (g:
    TypedFnPtr<S, A, T, R>)
    requires
        f.addr_spec() != 0,
    ensures
        g == *f,
{
    let g = with_output::<R, TypedFnPtr<S, A, T, R>>(f);
    proof {
        lemma_typed_fn_ptr_ext(g, *f);
    }
    g
}

/// Making a safe pointer unsafe and then safe again yields the pointer
/// unchanged.
pub fn safety_inverse_from_safe<A: Abi, T: Tuple, R>(f: &TypedFnPtr<Safe, A, T, R>) -> (g:
    TypedFnPtr<Safe, A, T, R>)
    requires
        f.addr_spec() != 0,
    ensures
        g == *f,
{
    let u = as_unsafe::<TypedFnPtr<Safe, A, T, R>>(f);
    let g = as_safe::<TypedFnPtr<Unsafe, A, T, R>>(&u);
    proof {
        lemma_typed_fn_ptr_ext(g, *f);
    }
    g
}

/// Making an unsafe pointer safe and then unsafe again yields the pointer
/// unchanged.
pub fn safety_inverse_from_unsafe<A: Abi, T: Tuple, R>(f: &TypedFnPtr<Unsafe, A, T, R>) -> (g:
    TypedFnPtr<Unsafe, A, T, R>)
    requires
        f.addr_spec() != 0,
    ensures
        g == *f,
{
    let s = as_safe::<TypedFnPtr<Unsafe, A, T, R>>(f);
    let g = as_unsafe::<TypedFnPtr<Safe, A, T, R>>(&s);
    proof {
        lemma_typed_fn_ptr_ext(g, *f);
    }
    g
}

/// Replacing the convention and then the safety gives the same pointer as
/// replacing them in the other order.
pub fn abi_safety_commute<S: Safety, A: Abi, T: Tuple, R, S2: Safety, A2: Abi>(
    f: &TypedFnPtr<S, A, T, R>,
) -> (r: (TypedFnPtr<S2, A2, T, R>, TypedFnPtr<S2, A2, T, R>))
    requires
        f.addr_spec() != 0,
    ensures
        r.0 == r.1,
        r.0.addr_spec() == f.addr_spec(),
{
    let first = with_safety::<S2, TypedFnPtr<S, A2, T, R>>(&with_abi::<A2, TypedFnPtr<S, A, T, R>>(f));
    let second = with_abi::<A2, TypedFnPtr<S2, A, T, R>>(&with_safety::<S2, TypedFnPtr<S, A, T, R>>(f));
    proof {
        lemma_typed_fn_ptr_ext(first, second);
    }
    (first, second)
}

/// Replacing the convention and then the argument tuple gives the same
/// pointer as replacing them in the other order.
pub fn abi_args_commute<S: Safety, A: Abi, T: Tuple, R, A2: Abi, T2: Tuple>(
    f: &TypedFnPtr<S, A, T, R>,
) -> (r: (TypedFnPtr<S, A2, T2, R>, TypedFnPtr<S, A2, T2, R>))
    requires
        f.addr_spec() != 0,
    ensures
        r.0 == r.1,
        r.0.addr_spec() == f.addr_spec(),
{
    let first = with_args::<T2, TypedFnPtr<S, A2, T, R>>(&with_abi::<A2, TypedFnPtr<S, A, T, R>>(f));
    let second = with_abi::<A2, TypedFnPtr<S, A, T2, R>>(&with_args::<T2, TypedFnPtr<S, A, T, R>>(f));
    proof {
        lemma_typed_fn_ptr_ext(first, second);
    }
    (first, second)
}

/// Replacing the convention and then the output gives the same pointer as
/// replacing them in the other order.
pub fn abi_output_commute<S: Safety, A: Abi, T: Tuple, R, A2: Abi, R2>(
    f: &TypedFnPtr<S, A, T, R>,
) -> (r: (TypedFnPtr<S, A2, T, R2>, TypedFnPtr<S, A2, T, R2>))
    requires
        f.addr_spec() != 0,
    ensures
        r.0 == r.1,
        r.0.addr_spec() == f.addr_spec(),
{
    let first = with_output::<R2, TypedFnPtr<S, A2, T, R>>(&with_abi::<A2, TypedFnPtr<S, A, T, R>>(f));
    let second = with_abi::<A2, TypedFnPtr<S, A, T, R2>>(&with_output::<R2, TypedFnPtr<S, A, T, R>>(f));
    proof {
        lemma_typed_fn_ptr_ext(first, second);
    }
    (first, second)
}

/// Replacing the safety and then the argument tuple gives the same
/// pointer as replacing them in the other order.
pub fn safety_args_commute<S: Safety, A: Abi, T: Tuple, R, S2: Safety, T2: Tuple>(
    f: &TypedFnPtr<S, A, T, R>,
) -> (r: (TypedFnPtr<S2, A, T2, R>, TypedFnPtr<S2, A, T2, R>))
    requires
        f.addr_spec() != 0,
    ensures
        r.0 == r.1,
        r.0.addr_spec() == f.addr_spec(),
{
    let first = with_args::<T2, TypedFnPtr<S2, A, T, R>>(&with_safety::<S2, TypedFnPtr<S, A, T, R>>(f));
    let second = with_safety::<S2, TypedFnPtr<S, A, T2, R>>(&with_args::<T2, TypedFnPtr<S, A, T, R>>(f));
    proof {
        lemma_typed_fn_ptr_ext(first, second);
    }
    (first, second)
}

/// Replacing the safety and then the output gives the same pointer as
/// replacing them in the other order.
pub fn safety_output_commute<S: Safety, A: Abi, T: Tuple, R, S2: Safety, R2>(
    f: &TypedFnPtr<S, A, T, R>,
) -> (r: (TypedFnPtr<S2, A, T, R2>, TypedFnPtr<S2, A, T, R2>))
    requires
        f.addr_spec() != 0,
    ensures
        r.0 == r.1,
        r.0.addr_spec() == f.addr_spec(),
{
    let first = with_output::<R2, TypedFnPtr<S2, A, T, R>>(&with_safety::<S2, TypedFnPtr<S, A, T, R>>(f));
    let second = with_safety::<S2, TypedFnPtr<S, A, T, R2>>(&with_output::<R2, TypedFnPtr<S, A, T, R>>(f));
    proof {
        lemma_typed_fn_ptr_ext(first, second);
    }
    (first, second)
}

/// Replacing the argument tuple and then the output gives the same
/// pointer as replacing them in the other order.
pub fn args_output_commute<S: Safety, A: Abi, T: Tuple, R, T2: Tuple, R2>(
    f: &TypedFnPtr<S, A, T, R>,
) -> (r: (TypedFnPtr<S, A, T2, R2>, TypedFnPtr<S, A, T2, R2>))
    requires
        f.addr_spec() != 0,
    ensures
        r.0 == r.1,
        r.0.addr_spec() == f.addr_spec(),
{
    let first = with_output::<R2, TypedFnPtr<S, A, T2, R>>(&with_args::<T2, TypedFnPtr<S, A, T, R>>(f));
    let second = with_args::<T2, TypedFnPtr<S, A, T, R2>>(&with_output::<R2, TypedFnPtr<S, A, T, R>>(f));
    proof {
        lemma_typed_fn_ptr_ext(first, second);
    }
    (first, second)
}

} // verus!
