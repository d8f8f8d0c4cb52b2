use fn_ptr::marker;
use fn_ptr::{abi, arity, is_safe, is_unsafe};
use fn_ptr::{AbiValue, FnPtr, Safe, TypedFnPtr, Unsafe, WithOutput};

#[test]
fn with_output_changes_return_type_preserving_safety_and_abi() {
    type F = TypedFnPtr<Unsafe, marker::C, (i32,), f64>;
    type G = <F as WithOutput<u64>>::F;

    let g: TypedFnPtr<Unsafe, marker::C, (i32,), u64> = <G as FnPtr>::from_addr(0x10);
    assert_ne!(g.addr(), 0);
    assert!(is_unsafe::<G>());
    assert_eq!(abi::<G>(), AbiValue::C { unwind: false });
    let out: <G as FnPtr>::Output = 9u64;
    assert_eq!(out, 9);
}

#[test]
fn with_output_on_rust_fn_pointer() {
    type F = TypedFnPtr<Safe, marker::Rust, (i32,), i32>;
    type G = <F as WithOutput<()>>::F;

    let g: TypedFnPtr<Safe, marker::Rust, (i32,), ()> = <G as FnPtr>::from_addr(0x10);
    assert_ne!(g.addr(), 0);
    assert!(is_safe::<G>());
    assert_eq!(arity::<G>(), 1);
    assert_eq!(abi::<G>(), AbiValue::Rust);
}
