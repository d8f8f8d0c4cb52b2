use fn_ptr::marker;
use fn_ptr::{abi, arity, is_safe, is_unsafe};
use fn_ptr::{AbiValue, FnPtr, Safe, TypedFnPtr, Unsafe, WithSafety};

#[test]
fn make_safe() {
    type UnsafeF = TypedFnPtr<Unsafe, marker::Rust, (i32,), i32>;
    type SafeF = <UnsafeF as WithSafety<Safe>>::F;

    let s: TypedFnPtr<Safe, marker::Rust, (i32,), i32> = <SafeF as FnPtr>::from_addr(0x10);
    assert_ne!(s.addr(), 0);
    assert!(is_safe::<SafeF>());
    assert_eq!(arity::<SafeF>(), 1);
    assert_eq!(abi::<SafeF>(), AbiValue::Rust);
}

#[test]
fn make_unsafe() {
    type SafeF = TypedFnPtr<Safe, marker::Rust, (i32,), i32>;
    type UnsafeF = <SafeF as WithSafety<Unsafe>>::F;

    let u: TypedFnPtr<Unsafe, marker::Rust, (i32,), i32> = <UnsafeF as FnPtr>::from_addr(0x10);
    assert_ne!(u.addr(), 0);
    assert!(is_unsafe::<UnsafeF>());
    assert_eq!(arity::<UnsafeF>(), 1);
    assert_eq!(abi::<UnsafeF>(), AbiValue::Rust);
}

#[test]
fn make_safe_then_unsafe_recovers() {
    type SafeF = TypedFnPtr<Safe, marker::C, (i32,), i32>;
    type UnsafeF = <SafeF as WithSafety<Unsafe>>::F;
    type Back = <UnsafeF as WithSafety<Safe>>::F;

    let b: SafeF = <Back as FnPtr>::from_addr(0x10);
    assert_ne!(b.addr(), 0);
    assert!(is_safe::<Back>());
    assert_eq!(abi::<Back>(), AbiValue::C { unwind: false });
}
