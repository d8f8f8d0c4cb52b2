use fn_ptr::conv::{
    abi_args_commute, abi_output_commute, abi_safety_commute, args_output_commute,
    safety_args_commute, safety_inverse_from_safe, safety_inverse_from_unsafe,
    safety_output_commute, with_abi_identity, with_args_identity, with_output_identity,
    with_safety_identity,
};
use fn_ptr::marker;
use fn_ptr::{cast, invoke0, invoke2, with_abi, FnPtr, Safe, TypedFnPtr, Unsafe};

type F = TypedFnPtr<Safe, marker::C, (i32, u8), u64>;

fn sample() -> F {
    <F as FnPtr>::from_addr(0x4242)
}

#[test]
fn identity_laws_on_a_sample_pointer() {
    let f = sample();
    assert!(with_abi_identity(&f) == f);
    assert!(with_safety_identity(&f) == f);
    assert!(with_args_identity(&f) == f);
    assert!(with_output_identity(&f) == f);
}

#[test]
fn safety_inverses_on_a_sample_pointer() {
    let f = sample();
    assert!(safety_inverse_from_safe(&f) == f);

    let u: TypedFnPtr<Unsafe, marker::C, (), ()> = <TypedFnPtr<
        Unsafe,
        marker::C,
        (),
        (),
    > as FnPtr>::from_addr(0x77);
    assert!(safety_inverse_from_unsafe(&u) == u);
}

#[test]
fn commutation_on_a_sample_pointer() {
    let f = sample();

    let (a, b) = abi_safety_commute::<_, _, _, _, Unsafe, marker::SysV64>(&f);
    assert!(a == b);
    assert_eq!(a.addr(), f.addr());

    let (a, b) = abi_args_commute::<_, _, _, _, marker::Stdcall, (u16,)>(&f);
    assert!(a == b);

    let (a, b) = abi_output_commute::<_, _, _, _, marker::Win64, i64>(&f);
    assert!(a == b);

    let (a, b) = safety_args_commute::<_, _, _, _, Unsafe, ()>(&f);
    assert!(a == b);

    let (a, b) = safety_output_commute::<_, _, _, _, Unsafe, String>(&f);
    assert!(a == b);

    let (a, b) = args_output_commute::<_, _, _, _, (i32, i32, i32), ()>(&f);
    assert!(a == b);
}

#[test]
fn cast_keeps_the_address() {
    let f = sample();
    let g: TypedFnPtr<Unsafe, marker::Vectorcall, (String,), bool> = cast(&f);
    assert_eq!(g.addr(), f.addr());
    let back: F = cast(&g);
    assert!(back == f);
}

#[test]
fn with_abi_keeps_the_address() {
    let f = sample();
    let g = with_abi::<marker::System, F>(&f);
    assert_eq!(g.addr(), f.addr());
}

fn add(a: i32, b: i32) -> i32 {
    a + b
}

fn five() -> i32 {
    5
}

#[test]
fn invoke_through_argument_tuples() {
    assert_eq!(invoke2(add, (2, 3)), 5);
    assert_eq!(invoke0(five, ()), 5);
}
