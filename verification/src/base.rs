//! The core reflection trait and the carrier type of the function-pointer
//! universe.
//!
//! A member of the universe is determined by four attributes: safety,
//! calling convention, argument tuple and output type. [`TypedFnPtr`]
//! carries the four attributes as type-level markers together with the one
//! piece of runtime data a function pointer has: its address. [`FnPtr`]
//! reflects the attributes of any such type as values.

use crate::abi_value::AbiValue;
use crate::arity::Arity;
use crate::conv::{WithAbiImpl, WithSafetyImpl};
use crate::marker;
use crate::marker::Abi;
use crate::safety::{Safe, Safety, Unsafe};
use crate::tuple::Tuple;
use core::marker::PhantomData;
use vstd::prelude::*;

verus! {

/// An untyped code address: what remains of a function pointer when its
/// type is forgotten.
#[derive(Clone, Copy, Debug, PartialEq, Eq, Hash, Structural)]
pub struct OpaquePtr {
    addr: usize,
}

impl OpaquePtr {
    /// The address this pointer holds.
    pub closed spec fn addr_spec(self) -> usize {
        self.addr
    }

    /// Wraps an address as an untyped pointer.
    pub fn new(addr: usize) -> (p: OpaquePtr)
        ensures
            p.addr_spec() == addr,
    {
        OpaquePtr { addr }
    }

    /// Returns the address this pointer holds.
    pub fn addr(&self) -> (a: usize)
        ensures
            a == self.addr_spec(),
    {
        self.addr
    }

    /// Whether this pointer holds the null address.
    pub fn is_null(&self) -> (b: bool)
        ensures
            b == (self.addr_spec() == 0),
    {
        self.addr == 0
    }
}

/// A member of the function-pointer universe: the address of a function
/// whose type has safety `S`, calling convention `A`, argument tuple `T`
/// and output `R`.
///
/// Two values of the same such type are the same pointer exactly when
/// their addresses are equal; the attributes carry no runtime data.
pub struct TypedFnPtr<S, A, T, R> {
    addr: usize,
    attrs: PhantomData<(S, A, T, R)>,
}

/// A typed pointer is determined by its address: two values of one
/// pointer type with equal addresses are equal.
pub proof fn lemma_typed_fn_ptr_ext<S: Safety, A: Abi, T: Tuple, R>(
    f: TypedFnPtr<S, A, T, R>,
    g: TypedFnPtr<S, A, T, R>,
)
    requires
        f.addr_spec() == g.addr_spec(),
    ensures
        f == g,
{
}

impl<S, A, T, R> Clone for TypedFnPtr<S, A, T, R> {
    /// Cloning a typed pointer yields the same pointer.
    fn clone(&self) -> (r: Self)
        ensures
            r == *self,
    {
        TypedFnPtr { addr: self.addr, attrs: PhantomData }
    }
}

impl<S, A, T, R> Copy for TypedFnPtr<S, A, T, R> {

}

impl<S: Safety, A: Abi, T: Tuple, R> PartialEq for TypedFnPtr<S, A, T, R> {
    /// Typed pointers compare by address.
    fn eq(&self, other: &Self) -> (r: bool) {
        self.addr == other.addr
    }
}

impl<S: Safety, A: Abi, T: Tuple, R> Eq for TypedFnPtr<S, A, T, R> {

}

impl<S: Safety, A: Abi, T: Tuple, R> vstd::std_specs::cmp::PartialEqSpecImpl for TypedFnPtr<S, A, T, R> {
    open spec fn obeys_eq_spec() -> bool {
        true
    }

    open spec fn eq_spec(&self, other: &Self) -> bool {
        self.addr_spec() == other.addr_spec()
    }
}

/// The reflection trait of the universe: every member knows its four
/// attributes as associated types, reflects them as values, and converts
/// between its typed form and the untyped address.
///
/// The supertraits name, for every safety marker and every convention
/// marker, the substitution that replaces that attribute, so that a bound
/// on `FnPtr` alone suffices to speak of every such replacement.
pub trait FnPtr: Sized + Clone + Copy + PartialEq + WithSafetyImpl<Safe> + WithSafetyImpl<
    Unsafe,
> + WithAbiImpl<marker::Rust> + WithAbiImpl<marker::C> + WithAbiImpl<marker::CUnwind> + WithAbiImpl<
    marker::System,
> + WithAbiImpl<marker::SystemUnwind> + WithAbiImpl<marker::Aapcs> + WithAbiImpl<
    marker::AapcsUnwind,
> + WithAbiImpl<marker::Cdecl> + WithAbiImpl<marker::CdeclUnwind> + WithAbiImpl<
    marker::Stdcall,
> + WithAbiImpl<marker::StdcallUnwind> + WithAbiImpl<marker::Fastcall> + WithAbiImpl<
    marker::FastcallUnwind,
> + WithAbiImpl<marker::Thiscall> + WithAbiImpl<marker::ThiscallUnwind> + WithAbiImpl<
    marker::Vectorcall,
> + WithAbiImpl<marker::VectorcallUnwind> + WithAbiImpl<marker::SysV64> + WithAbiImpl<
    marker::SysV64Unwind,
> + WithAbiImpl<marker::Win64> + WithAbiImpl<marker::Win64Unwind> {
    /// The argument types, as a tuple.
    type Args: Tuple;

    /// The return type.
    type Output;

    /// The marker of the safety attribute.
    type Safety: Safety;

    /// The marker of the calling-convention attribute.
    type Abi: Abi;

    /// The number of arguments.
    spec fn arity_spec() -> usize;

    /// Whether calling through the pointer is an ordinary operation.
    spec fn is_safe_spec() -> bool;

    /// Whether the pointer names a convention other than `Rust`.
    spec fn is_extern_spec() -> bool;

    /// The calling convention, as a value.
    spec fn abi_spec() -> AbiValue;

    /// The address this pointer holds.
    spec fn addr_spec(&self) -> usize;

    /// The reflected values agree with the associated types: the arity is
    /// the argument tuple's length, the safety and the convention are the
    /// markers' values, and a pointer counts as naming a foreign
    /// convention exactly when that value is not `Rust`.
    proof fn reflection_consistent()
        ensures
            Self::arity_spec() == <<Self::Args as Tuple>::Arity as Arity>::n_spec(),
            Self::is_safe_spec() == <Self::Safety as Safety>::is_safe_spec(),
            Self::abi_spec() == <Self::Abi as Abi>::value_spec(),
            Self::is_extern_spec() == (Self::abi_spec() != AbiValue::Rust),
    ;

    /// Returns the number of arguments.
    fn arity() -> (n: usize)
        ensures
            n == Self::arity_spec(),
    ;

    /// Returns whether the pointer is safe to call.
    fn is_safe() -> (b: bool)
        ensures
            b == Self::is_safe_spec(),
    ;

    /// Returns whether the pointer names a convention other than `Rust`.
    fn is_extern() -> (b: bool)
        ensures
            b == Self::is_extern_spec(),
    ;

    /// Returns the calling convention.
    fn abi() -> (a: AbiValue)
        ensures
            a == Self::abi_spec(),
    ;

    /// Returns the address of this function.
    fn addr(&self) -> (a: usize)
        ensures
            a == self.addr_spec(),
    ;

    /// Constructs an instance from an address. The address must be that of
    /// a function of this exact type; the null address is never one.
    fn from_addr(addr: usize) -> (f: Self)
        requires
            addr != 0,
        ensures
            f.addr_spec() == addr,
    ;

    /// Returns the untyped pointer for this function.
    fn as_ptr(&self) -> (p: OpaquePtr)
        ensures
            p.addr_spec() == self.addr_spec(),
    ;

    /// Constructs an instance from an untyped pointer. The pointer must
    /// refer to a function of this exact type, so it is not null.
    fn from_ptr(p: OpaquePtr) -> (f: Self)
        requires
            p.addr_spec() != 0,
        ensures
            f.addr_spec() == p.addr_spec(),
    ;
}

impl<S: Safety, A: Abi, T: Tuple, R> FnPtr for TypedFnPtr<S, A, T, R> {
    type Args = T;

    type Output = R;

    type Safety = S;

    type Abi = A;

    open spec fn arity_spec() -> usize {
        <<T as Tuple>::Arity as Arity>::n_spec()
    }

    open spec fn is_safe_spec() -> bool {
        S::is_safe_spec()
    }

    open spec fn is_extern_spec() -> bool {
        A::value_spec() != AbiValue::Rust
    }

    open spec fn abi_spec() -> AbiValue {
        A::value_spec()
    }

    closed spec fn addr_spec(&self) -> usize {
        self.addr
    }

    proof fn reflection_consistent() {
    }

    fn arity() -> usize {
        <<T as Tuple>::Arity as Arity>::n()
    }

    fn is_safe() -> bool {
        S::is_safe()
    }

    fn is_extern() -> bool {
        let a = A::value();
        !matches!(a, AbiValue::Rust)
    }

    fn abi() -> AbiValue {
        A::value()
    }

    fn addr(&self) -> usize {
        self.addr
    }

    fn from_addr(addr: usize) -> Self {
        TypedFnPtr { addr, attrs: PhantomData }
    }

    fn as_ptr(&self) -> OpaquePtr {
        OpaquePtr::new(self.addr)
    }

    fn from_ptr(p: OpaquePtr) -> Self {
        TypedFnPtr { addr: p.addr(), attrs: PhantomData }
    }
}

/// The members of the universe whose safety attribute is `Safe`: those a
/// caller may call as an ordinary operation.
pub trait SafeFnPtr: FnPtr<Safety = Safe> {

}

impl<F: FnPtr<Safety = Safe>> SafeFnPtr for F {

}

/// The members of the universe whose safety attribute is `Unsafe`: those
/// whose caller must uphold unchecked preconditions.
pub trait UnsafeFnPtr: FnPtr<Safety = Unsafe> {

}

impl<F: FnPtr<Safety = Unsafe>> UnsafeFnPtr for F {

}

/// The members of the universe all of whose attribute types outlive every
/// borrow.
pub trait StaticFnPtr: FnPtr + 'static {

}

impl<F: FnPtr + 'static> StaticFnPtr for F {

}

} // verus!
