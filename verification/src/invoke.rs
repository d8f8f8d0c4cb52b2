//! Calling a function value through a tuple of arguments.
//!
//! The typed-pointer carrier holds only an address, so it cannot itself be
//! called. These helpers provide the call operation for real function
//! values, one per arity in common use: each takes the arguments as a
//! tuple and promises exactly what the called function promises.

use vstd::prelude::*;

verus! {

/// Calls a nullary function value. The result is one the function's own
/// contract allows for these arguments.
pub fn invoke0<R, F: Fn() -> R>(f: F, args: ()) -> (r: R)
    requires
        call_requires(f, args),
    ensures
        call_ensures(f, args, r),
{
    f()
}

/// Calls a unary function value with its argument given as a 1-tuple.
pub fn invoke1<A1, R, F: Fn(A1) -> R>(f: F, args: (A1,)) -> (r: R)
    requires
        call_requires(f, args),
    ensures
        call_ensures(f, args, r),
{
    f(args.0)
}

/// Calls a binary function value with its arguments given as a pair.
pub fn invoke2<A1, A2, R, F: Fn(A1, A2) -> R>(f: F, args: (A1, A2)) -> (r: R)
    requires
        call_requires(f, args),
    ensures
        call_ensures(f, args, r),
{
    f(args.0, args.1)
}

} // verus!
