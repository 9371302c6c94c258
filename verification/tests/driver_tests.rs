use trampoline::action::{trampoline, Action};
use trampoline::ast::{Param, FnSig};

/// The driving loop computes `sum_to(100000, 0)` — a depth that would
/// overflow the stack under plain recursion — in a plain loop.
#[test]
fn sum_to_runs_deep_without_stack_growth() {
    let step = |c: (u64, u64)| {
        if c.0 == 0 {
            Action::Return(c.1)
        } else {
            Action::Continue((c.0 - 1, c.1 + c.0))
        }
    };
    let total = trampoline(step, (100000u64, 0u64));
    assert_eq!(total, 5000050000u64);
}

/// The driving loop computes `is_even(10000)` without stack growth.
#[test]
fn is_even_runs_deep_without_stack_growth() {
    let step = |n: u64| {
        if n == 0 {
            Action::Return(true)
        } else if n == 1 {
            Action::Return(false)
        } else {
            Action::Continue(n - 2)
        }
    };
    assert!(trampoline(step, 10000u64));
    assert!(!trampoline(step, 10001u64));
}

/// A run with no resumption at all returns the terminal value at once.
#[test]
fn immediate_return_passes_through() {
    let step = |n: u64| Action::Return::<u64, u64>(n + 1);
    assert_eq!(trampoline(step, 41u64), 42u64);
}

#[test]
fn split_inputs_keeps_order() {
    let sig = FnSig {
        ident: String::from("sum_to"),
        inputs: vec![
            Param { pat: String::from("n"), ty: String::from("Int") },
            Param { pat: String::from("acc"), ty: String::from("Int") },
        ],
        output: Some(String::from("Int")),
    };
    let (pats, tys) = sig.split_inputs();
    assert_eq!(pats, vec![String::from("n"), String::from("acc")]);
    assert_eq!(tys, vec![String::from("Int"), String::from("Int")]);
    assert_eq!(sig.extract_return_type(), String::from("Int"));
    assert_eq!(sig.inner_ident(), String::from("sum_to_inner"));
}

#[test]
fn missing_return_type_extracts_as_unit() {
    let sig = FnSig { ident: String::from("tick"), inputs: vec![], output: None };
    assert_eq!(sig.extract_return_type(), String::from("()"));
    let (pats, tys) = sig.split_inputs();
    assert!(pats.is_empty());
    assert!(tys.is_empty());
}
