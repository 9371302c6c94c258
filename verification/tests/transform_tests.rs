use trampoline::ast::{Arm, Block, Expr, FnDef, FnSig, Param, Stmt};
use trampoline::transform::{body_is_transformed, transform};

fn other(text: &str) -> Expr {
    Expr::Other(String::from(text))
}

fn call(name: &str, args: Vec<Expr>) -> Expr {
    Expr::Call { callee: String::from(name), args }
}

fn ret(e: Expr) -> Expr {
    Expr::Return(Some(Box::new(e)))
}

fn block(stmts: Vec<Stmt>, tail: Option<Expr>) -> Block {
    Block { stmts, tail: tail.map(Box::new) }
}

fn param(pat: &str, ty: &str) -> Param {
    Param { pat: String::from(pat), ty: String::from(ty) }
}

fn sig(name: &str, inputs: Vec<Param>, output: Option<&str>) -> FnSig {
    FnSig {
        ident: String::from(name),
        inputs,
        output: output.map(String::from),
    }
}

fn returned(e: Expr) -> Expr {
    Expr::Opaque(Box::new(Expr::ReturnValue(Box::new(e))))
}

fn resumed(args: Vec<Expr>) -> Expr {
    Expr::Opaque(Box::new(Expr::ContinueWith(args)))
}

/// The body of `fn sum_to(n: Int, acc: Int) -> Int` with explicit returns:
/// `{ if n == 0 { return acc } return sum_to(n - 1, acc + n) }`.
fn sum_to_def() -> FnDef {
    let guard = Expr::If {
        cond: Box::new(other("n == 0")),
        then_branch: block(vec![], Some(ret(other("acc")))),
        else_branch: None,
    };
    let recurse = ret(call("sum_to", vec![other("n - 1"), other("acc + n")]));
    FnDef {
        sig: sig("sum_to", vec![param("n", "Int"), param("acc", "Int")], Some("Int")),
        body: block(vec![Stmt::Expr(guard)], Some(recurse)),
    }
}

#[test]
fn sum_to_rewrites_both_returns() {
    let out = transform(sum_to_def());

    assert_eq!(out.sig, sum_to_def().sig);
    assert_eq!(out.body.stmts.len(), 3);
    assert_eq!(out.body.stmts[0], Stmt::ActionDecl);

    let inner_body = match &out.body.stmts[1] {
        Stmt::InnerFn { sig, body } => {
            assert_eq!(*sig, sum_to_def().sig);
            body
        },
        s => panic!("expected the inner function, found {:?}", s),
    };

    // `return acc` inside the guard became a terminal value.
    match &inner_body.stmts[0] {
        Stmt::Expr(Expr::If { then_branch, .. }) => {
            assert_eq!(
                *then_branch.tail.as_deref().unwrap(),
                ret(returned(other("acc")))
            );
        },
        s => panic!("expected the guard, found {:?}", s),
    }

    // the trailing self-call became a resumption with both arguments.
    assert_eq!(
        *inner_body.tail.as_deref().unwrap(),
        ret(resumed(vec![other("n - 1"), other("acc + n")]))
    );

    assert_eq!(out.body.stmts[2], Stmt::AccInit(vec![String::from("n"), String::from("acc")]));
    assert_eq!(
        *out.body.tail.as_deref().unwrap(),
        Expr::Opaque(Box::new(Expr::Driver(String::from("sum_to_inner"))))
    );
}

/// `fn is_even(n: Int) -> Bool { if n == 0 { true } else { is_even(n - 1) } }`:
/// the implicit trailing expression is rewritten without any `return`.
#[test]
fn is_even_implicit_tail_rewrites() {
    let body_if = Expr::If {
        cond: Box::new(other("n == 0")),
        then_branch: block(vec![], Some(other("true"))),
        else_branch: Some(Box::new(Expr::Block(block(
            vec![],
            Some(call("is_even", vec![other("n - 1")])),
        )))),
    };
    let def = FnDef {
        sig: sig("is_even", vec![param("n", "Int")], Some("Bool")),
        body: block(vec![], Some(body_if)),
    };
    let out = transform(def);

    let inner_body = match &out.body.stmts[1] {
        Stmt::InnerFn { body, .. } => body,
        s => panic!("expected the inner function, found {:?}", s),
    };
    match inner_body.tail.as_deref().unwrap() {
        Expr::If { then_branch, else_branch, .. } => {
            assert_eq!(*then_branch.tail.as_deref().unwrap(), returned(other("true")));
            match else_branch.as_deref().unwrap() {
                Expr::Block(b) => assert_eq!(
                    *b.tail.as_deref().unwrap(),
                    resumed(vec![other("n - 1")])
                ),
                e => panic!("expected the else block, found {:?}", e),
            }
        },
        e => panic!("expected the conditional, found {:?}", e),
    }
}

/// A self-call nested as an argument of another call is in non-tail
/// position and stays an ordinary call.
#[test]
fn nested_recursion_stays_a_call() {
    let nested = call("helper", vec![call("deep", vec![other("n")])]);
    let def = FnDef {
        sig: sig("deep", vec![param("n", "Int")], Some("Int")),
        body: block(vec![], Some(nested)),
    };
    let out = transform(def);
    let inner_body = match &out.body.stmts[1] {
        Stmt::InnerFn { body, .. } => body,
        s => panic!("expected the inner function, found {:?}", s),
    };
    // the whole call is the tail, so it is wrapped as a terminal; the
    // self-call inside its arguments is untouched.
    assert_eq!(
        *inner_body.tail.as_deref().unwrap(),
        returned(call("helper", vec![call("deep", vec![other("n")])]))
    );
}

/// `fn f(x: Int) -> Int { match x { 0 => 1, n => f(n - 1) } }`: the first
/// arm becomes a terminal carrying 1, the second a resumption carrying
/// `n - 1`.
#[test]
fn match_arms_are_classified_independently() {
    let m = Expr::Match {
        scrutinee: Box::new(other("x")),
        arms: vec![
            Arm { pat: String::from("0"), body: other("1") },
            Arm { pat: String::from("n"), body: call("f", vec![other("n - 1")]) },
        ],
    };
    let def = FnDef {
        sig: sig("f", vec![param("x", "Int")], Some("Int")),
        body: block(vec![], Some(m)),
    };
    let out = transform(def);
    let inner_body = match &out.body.stmts[1] {
        Stmt::InnerFn { body, .. } => body,
        s => panic!("expected the inner function, found {:?}", s),
    };
    match inner_body.tail.as_deref().unwrap() {
        Expr::Match { scrutinee, arms } => {
            assert_eq!(**scrutinee, other("x"));
            assert_eq!(arms.len(), 2);
            assert_eq!(arms[0].pat, "0");
            assert_eq!(arms[0].body, returned(other("1")));
            assert_eq!(arms[1].pat, "n");
            assert_eq!(arms[1].body, resumed(vec![other("n - 1")]));
        },
        e => panic!("expected the match, found {:?}", e),
    }
}

/// Transforming twice gives the same definition as transforming once.
#[test]
fn transform_is_idempotent() {
    let once = transform(sum_to_def());
    let twice = transform(transform(sum_to_def()));
    assert_eq!(twice, once);
    assert!(body_is_transformed(&once.body));
}

#[test]
fn untouched_body_is_not_transformed() {
    assert!(!body_is_transformed(&sum_to_def().body));
}

/// Self-recursion written as a method call drops the receiver and keeps
/// the method's arguments.
#[test]
fn method_call_recursion_resumes() {
    let m = Expr::MethodCall {
        receiver: Box::new(other("self")),
        method: String::from("walk"),
        args: vec![other("n - 1")],
    };
    let def = FnDef {
        sig: sig("walk", vec![param("n", "Int")], None),
        body: block(vec![], Some(m)),
    };
    let out = transform(def);
    let inner_body = match &out.body.stmts[1] {
        Stmt::InnerFn { body, .. } => body,
        s => panic!("expected the inner function, found {:?}", s),
    };
    assert_eq!(
        *inner_body.tail.as_deref().unwrap(),
        resumed(vec![other("n - 1")])
    );
}

/// A bare `return` and a body that falls off its end both produce a
/// terminal unit.
#[test]
fn unit_paths_gain_a_terminal_unit() {
    let guard = Expr::If {
        cond: Box::new(other("done")),
        then_branch: block(vec![], Some(Expr::Return(None))),
        else_branch: None,
    };
    let def = FnDef {
        sig: sig("tick", vec![param("done", "Bool")], None),
        body: block(vec![Stmt::Expr(guard), Stmt::Other(String::from("log();"))], None),
    };
    let out = transform(def);
    let inner_body = match &out.body.stmts[1] {
        Stmt::InnerFn { body, .. } => body,
        s => panic!("expected the inner function, found {:?}", s),
    };
    match &inner_body.stmts[0] {
        Stmt::Expr(Expr::If { then_branch, .. }) => {
            assert_eq!(
                *then_branch.tail.as_deref().unwrap(),
                ret(returned(Expr::Unit))
            );
        },
        s => panic!("expected the guard, found {:?}", s),
    }
    assert_eq!(inner_body.stmts[1], Stmt::Other(String::from("log();")));
    assert_eq!(*inner_body.tail.as_deref().unwrap(), returned(Expr::Unit));
}

/// An already-finalized subtree is never re-rewritten.
#[test]
fn opaque_subtree_is_untouched() {
    let def = FnDef {
        sig: sig("f", vec![param("x", "Int")], Some("Int")),
        body: block(vec![], Some(Expr::Opaque(Box::new(other("x"))))),
    };
    let out = transform(def);
    let inner_body = match &out.body.stmts[1] {
        Stmt::InnerFn { body, .. } => body,
        s => panic!("expected the inner function, found {:?}", s),
    };
    assert_eq!(
        *inner_body.tail.as_deref().unwrap(),
        Expr::Opaque(Box::new(other("x")))
    );
}
