use fn_ptr::marker;
use fn_ptr::{abi, arity, is_safe, is_unsafe};
use fn_ptr::{AbiValue, FnPtr, Safe, TypedFnPtr, Unsafe, WithAbi};

#[test]
fn with_c_abi() {
    type F = TypedFnPtr<Unsafe, marker::Rust, (i32,), String>;
    type G = <F as WithAbi<marker::C>>::F;

    let g: TypedFnPtr<Unsafe, marker::C, (i32,), String> = <G as FnPtr>::from_addr(0x10);
    assert_ne!(g.addr(), 0);
    assert_eq!(abi::<G>(), AbiValue::C { unwind: false });
    assert!(is_unsafe::<G>());
}

#[test]
fn with_system_abi() {
    type F = TypedFnPtr<Safe, marker::C, (i32,), ()>;
    type G = <F as WithAbi<marker::System>>::F;

    let g: TypedFnPtr<Safe, marker::System, (i32,), ()> = <G as FnPtr>::from_addr(0x10);
    assert_ne!(g.addr(), 0);
    assert_eq!(abi::<G>(), AbiValue::System { unwind: false });
    assert_eq!(abi::<G>().to_str(), "system");
}

#[test]
fn with_rust_abi() {
    type F = TypedFnPtr<Safe, marker::C, (i32,), ()>;
    type G = <F as WithAbi<marker::Rust>>::F;

    let g: TypedFnPtr<Safe, marker::Rust, (i32,), ()> = <G as FnPtr>::from_addr(0x10);
    assert_ne!(g.addr(), 0);
    assert_eq!(abi::<G>(), AbiValue::Rust);
    assert_eq!(abi::<G>().to_str(), "Rust");
}

#[test]
fn with_system_abi_keeps_args_and_output() {
    type F = TypedFnPtr<Unsafe, marker::Rust, (i32,), String>;
    type G = <F as WithAbi<marker::System>>::F;

    let g: TypedFnPtr<Unsafe, marker::System, (i32,), String> = <G as FnPtr>::from_addr(0x10);
    assert_ne!(g.addr(), 0);
    assert_eq!(abi::<G>(), AbiValue::System { unwind: false });
    assert!(is_unsafe::<G>());
    assert_eq!(arity::<G>(), 1);
    let out: <G as FnPtr>::Output = String::from("kept");
    assert_eq!(out, "kept");
    assert!(is_safe::<F>() == false);
}
