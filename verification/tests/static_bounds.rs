use fn_ptr::marker;
use fn_ptr::{arity, StaticFnPtr};
use fn_ptr::{Safe, TypedFnPtr, Unsafe};

fn arity_of_static<F: StaticFnPtr>() -> usize {
    arity::<F>()
}

#[test]
fn static_fn_ptr_is_implemented_for_static_signature() {
    type F = TypedFnPtr<Safe, marker::C, (i32,), i32>;
    assert_eq!(arity_of_static::<F>(), 1);
}

#[test]
fn static_fn_ptr_is_implemented_for_unsafe_static_signature() {
    type F = TypedFnPtr<Unsafe, marker::System, (u8, u16), ()>;
    assert_eq!(arity_of_static::<F>(), 2);
}
