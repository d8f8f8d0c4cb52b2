use fn_ptr::marker;
use fn_ptr::{abi, arity, is_safe, is_unsafe};
use fn_ptr::{AbiValue, FnPtr, Safe, TypedFnPtr, Unsafe, WithArgs};

#[test]
fn with_args_changes_args_preserving_output_safety_and_abi() {
    type F = TypedFnPtr<Unsafe, marker::C, (i32,), f64>;
    type G = <F as WithArgs<(u8, u16)>>::F;

    let g: TypedFnPtr<Unsafe, marker::C, (u8, u16), f64> = <G as FnPtr>::from_addr(0x10);
    assert_ne!(g.addr(), 0);
    assert_eq!(arity::<G>(), 2);
    assert!(is_unsafe::<G>());
    assert_eq!(abi::<G>(), AbiValue::C { unwind: false });
}

#[test]
fn with_args_to_unit_args() {
    type F = TypedFnPtr<Safe, marker::System, (i32,), ()>;
    type G = <F as WithArgs<()>>::F;

    let g: TypedFnPtr<Safe, marker::System, (), ()> = <G as FnPtr>::from_addr(0x10);
    assert_ne!(g.addr(), 0);
    assert_eq!(arity::<G>(), 0);
    assert_eq!(abi::<G>().to_str(), "system");
}

#[test]
fn with_args_to_singleton_tuple() {
    type F = TypedFnPtr<Safe, marker::Rust, (i32,), i32>;
    type G = <F as WithArgs<(u64,)>>::F;

    let g: TypedFnPtr<Safe, marker::Rust, (u64,), i32> = <G as FnPtr>::from_addr(0x10);
    assert_ne!(g.addr(), 0);
    assert_eq!(arity::<G>(), 1);
    assert!(is_safe::<G>());
    assert_eq!(abi::<G>(), AbiValue::Rust);
}
