//! The abstract syntax that the transformation works on: a function
//! definition is a signature together with a body expression tree.
//!
//! Each executable type has a ghost counterpart (its view), stated over
//! `Seq` and used by every contract of the crate.

use vstd::prelude::*;

verus! {

broadcast use vstd::seq::axiom_seq_subrange_decreases, vstd::seq::axiom_seq_index_decreases;

/// Ghost model of an expression tree.
pub enum ExprV {
    /// A direct call: callee identifier and arguments in order.
    Call { callee: Seq<char>, args: Seq<ExprV> },
    /// A method-style call: receiver, method name and arguments in order.
    MethodCall { receiver: Box<ExprV>, method: Seq<char>, args: Seq<ExprV> },
    /// A match with its scrutinee and ordered arms.
    Match { scrutinee: Box<ExprV>, arms: Seq<ArmV> },
    /// A conditional with an optional else branch (an else-if chains here).
    If { cond: Box<ExprV>, then_branch: BlockV, else_branch: Option<Box<ExprV>> },
    /// A block used as an expression.
    Block(BlockV),
    /// An explicit return with an optional operand.
    Return(Option<Box<ExprV>>),
    /// An already-finalized subtree; never re-processed by any pass.
    Opaque(Box<ExprV>),
    /// The tagged resumption form: carries the next argument tuple.
    ContinueWith(Seq<ExprV>),
    /// The tagged terminal form: carries the final value.
    ReturnValue(Box<ExprV>),
    /// The generated driving loop; carries the inner function's name.
    Driver(Seq<char>),
    /// The unit expression.
    Unit,
    /// Any expression kind not otherwise distinguished, kept as text.
    Other(Seq<char>),
}

/// Ghost model of one match arm.
pub struct ArmV {
    pub pat: Seq<char>,
    pub body: ExprV,
}

/// Ghost model of a block: ordered statements and an optional trailing
/// expression.
pub struct BlockV {
    pub stmts: Seq<StmtV>,
    pub tail: Option<Box<ExprV>>,
}

/// Ghost model of a statement.
pub enum StmtV {
    /// An expression statement.
    Expr(ExprV),
    /// Any other statement, kept as text.
    Other(Seq<char>),
    /// The generated declaration of the two-variant action type.
    ActionDecl,
    /// The generated inner function: the original signature, collapsed to a
    /// single tuple parameter by the emitter, around the rewritten body.
    InnerFn { sig: SigV, body: BlockV },
    /// The generated accumulator initializer over the parameter patterns.
    AccInit(Seq<Seq<char>>),
}

/// Ghost model of one parameter: its pattern and its type, as text.
pub struct ParamV {
    pub pat: Seq<char>,
    pub ty: Seq<char>,
}

/// Ghost model of a function signature.
pub struct SigV {
    pub ident: Seq<char>,
    pub inputs: Seq<ParamV>,
    pub output: Option<Seq<char>>,
}

/// Ghost model of a function definition.
pub struct FnDefV {
    pub sig: SigV,
    pub body: BlockV,
}

/// An expression tree. Each node exclusively owns its children.
#[derive(Debug, PartialEq, Eq)]
pub enum Expr {
    Call { callee: String, args: Vec<Expr> },
    MethodCall { receiver: Box<Expr>, method: String, args: Vec<Expr> },
    Match { scrutinee: Box<Expr>, arms: Vec<Arm> },
    If { cond: Box<Expr>, then_branch: Block, else_branch: Option<Box<Expr>> },
    Block(Block),
    Return(Option<Box<Expr>>),
    Opaque(Box<Expr>),
    ContinueWith(Vec<Expr>),
    ReturnValue(Box<Expr>),
    Driver(String),
    Unit,
    Other(String),
}

/// One match arm: a pattern kept as text, and a body expression.
#[derive(Debug, PartialEq, Eq)]
pub struct Arm {
    pub pat: String,
    pub body: Expr,
}

/// A block: ordered statements and an optional trailing expression.
#[derive(Debug, PartialEq, Eq)]
pub struct Block {
    pub stmts: Vec<Stmt>,
    pub tail: Option<Box<Expr>>,
}

/// A statement of a block.
#[derive(Debug, PartialEq, Eq)]
pub enum Stmt {
    Expr(Expr),
    Other(String),
    ActionDecl,
    InnerFn { sig: FnSig, body: Block },
    AccInit(Vec<String>),
}

/// One parameter of a signature: its pattern and its type, as text.
#[derive(Debug, PartialEq, Eq)]
pub struct Param {
    pub pat: String,
    pub ty: String,
}

/// A function signature: name, ordered parameters, optional return type
/// (absent means unit).
#[derive(Debug, PartialEq, Eq)]
pub struct FnSig {
    pub ident: String,
    pub inputs: Vec<Param>,
    pub output: Option<String>,
}

/// A function definition: a signature and a body block.
#[derive(Debug, PartialEq, Eq)]
pub struct FnDef {
    pub sig: FnSig,
    pub body: Block,
}

pub open spec fn view_expr(e: Expr) -> ExprV
    decreases e,
{
    match e {
        Expr::Call { callee, args } => ExprV::Call { callee: callee@, args: view_exprs(args@) },
        Expr::MethodCall { receiver, method, args } => ExprV::MethodCall {
            receiver: Box::new(view_expr(*receiver)),
            method: method@,
            args: view_exprs(args@),
        },
        Expr::Match { scrutinee, arms } => ExprV::Match {
            scrutinee: Box::new(view_expr(*scrutinee)),
            arms: view_arms(arms@),
        },
        Expr::If { cond, then_branch, else_branch } => ExprV::If {
            cond: Box::new(view_expr(*cond)),
            then_branch: view_block(then_branch),
            else_branch: match else_branch {
                Some(e2) => Some(Box::new(view_expr(*e2))),
                None => None,
            },
        },
        Expr::Block(b) => ExprV::Block(view_block(b)),
        Expr::Return(op) => ExprV::Return(
            match op {
                Some(e2) => Some(Box::new(view_expr(*e2))),
                None => None,
            },
        ),
        Expr::Opaque(inner) => ExprV::Opaque(Box::new(view_expr(*inner))),
        Expr::ContinueWith(args) => ExprV::ContinueWith(view_exprs(args@)),
        Expr::ReturnValue(inner) => ExprV::ReturnValue(Box::new(view_expr(*inner))),
        Expr::Driver(name) => ExprV::Driver(name@),
        Expr::Unit => ExprV::Unit,
        Expr::Other(text) => ExprV::Other(text@),
    }
}

pub open spec fn view_exprs(s: Seq<Expr>) -> Seq<ExprV>
    decreases s,
{
    if s.len() == 0 {
        Seq::empty()
    } else {
        view_exprs(s.subrange(0, s.len() - 1)).push(view_expr(s[s.len() - 1]))
    }
}

pub open spec fn view_arm(a: Arm) -> ArmV
    decreases a,
{
    ArmV { pat: a.pat@, body: view_expr(a.body) }
}

pub open spec fn view_arms(s: Seq<Arm>) -> Seq<ArmV>
    decreases s,
{
    if s.len() == 0 {
        Seq::empty()
    } else {
        view_arms(s.subrange(0, s.len() - 1)).push(view_arm(s[s.len() - 1]))
    }
}

pub open spec fn view_block(b: Block) -> BlockV
    decreases b,
{
    BlockV {
        stmts: view_stmts(b.stmts@),
        tail: match b.tail {
            Some(e) => Some(Box::new(view_expr(*e))),
            None => None,
        },
    }
}

pub open spec fn view_stmt(s: Stmt) -> StmtV
    decreases s,
{
    match s {
        Stmt::Expr(e) => StmtV::Expr(view_expr(e)),
        Stmt::Other(text) => StmtV::Other(text@),
        Stmt::ActionDecl => StmtV::ActionDecl,
        Stmt::InnerFn { sig, body } => StmtV::InnerFn { sig: view_sig(sig), body: view_block(body) },
        Stmt::AccInit(pats) => StmtV::AccInit(view_texts(pats@)),
    }
}

pub open spec fn view_stmts(s: Seq<Stmt>) -> Seq<StmtV>
    decreases s,
{
    if s.len() == 0 {
        Seq::empty()
    } else {
        view_stmts(s.subrange(0, s.len() - 1)).push(view_stmt(s[s.len() - 1]))
    }
}

pub open spec fn view_texts(s: Seq<String>) -> Seq<Seq<char>> {
    Seq::new(s.len(), |i: int| s[i]@)
}

pub open spec fn view_param(p: Param) -> ParamV {
    ParamV { pat: p.pat@, ty: p.ty@ }
}

pub open spec fn view_params(s: Seq<Param>) -> Seq<ParamV> {
    Seq::new(s.len(), |i: int| view_param(s[i]))
}

pub open spec fn view_sig(s: FnSig) -> SigV {
    SigV {
        ident: s.ident@,
        inputs: view_params(s.inputs@),
        output: match s.output {
            Some(t) => Some(t@),
            None => None,
        },
    }
}

pub open spec fn view_def(d: FnDef) -> FnDefV {
    FnDefV { sig: view_sig(d.sig), body: view_block(d.body) }
}

pub broadcast proof fn lemma_view_exprs(s: Seq<Expr>)
    ensures
        #![trigger view_exprs(s)]
        view_exprs(s).len() == s.len(),
        forall|i: int| 0 <= i < s.len() ==> view_exprs(s)[i] == view_expr(s[i]),
    decreases s,
{
    if s.len() > 0 {
        lemma_view_exprs(s.subrange(0, s.len() - 1));
    }
}

pub broadcast proof fn lemma_view_arms(s: Seq<Arm>)
    ensures
        #![trigger view_arms(s)]
        view_arms(s).len() == s.len(),
        forall|i: int| 0 <= i < s.len() ==> view_arms(s)[i] == view_arm(s[i]),
    decreases s,
{
    if s.len() > 0 {
        lemma_view_arms(s.subrange(0, s.len() - 1));
    }
}

pub broadcast proof fn lemma_view_stmts(s: Seq<Stmt>)
    ensures
        #![trigger view_stmts(s)]
        view_stmts(s).len() == s.len(),
        forall|i: int| 0 <= i < s.len() ==> view_stmts(s)[i] == view_stmt(s[i]),
    decreases s,
{
    if s.len() > 0 {
        lemma_view_stmts(s.subrange(0, s.len() - 1));
    }
}


/// A broadcast group for the pointwise shape of the list views.
pub broadcast group group_ast_views {
    lemma_view_exprs,
    lemma_view_arms,
    lemma_view_stmts,
}

/// Copies an expression tree; the copy has the same view.
pub fn copy_expr(e: &Expr) -> (r: Expr)
    ensures
        r@ == e@,
    decreases e,
{
    broadcast use group_ast_views;

    match e {
        Expr::Call { callee, args } => {
            let a2 = copy_exprs(args);
            proof {
                assert(view_exprs(a2@) =~= view_exprs(args@));
            }
            Expr::Call { callee: callee.clone(), args: a2 }
        },
        Expr::MethodCall { receiver, method, args } => {
            let a2 = copy_exprs(args);
            proof {
                assert(view_exprs(a2@) =~= view_exprs(args@));
            }
            Expr::MethodCall {
                receiver: Box::new(copy_expr(receiver)),
                method: method.clone(),
                args: a2,
            }
        },
        Expr::Match { scrutinee, arms } => {
            let a2 = copy_arms(arms);
            proof {
                assert(view_arms(a2@) =~= view_arms(arms@));
            }
            Expr::Match { scrutinee: Box::new(copy_expr(scrutinee)), arms: a2 }
        },
        Expr::If { cond, then_branch, else_branch } => Expr::If {
            cond: Box::new(copy_expr(cond)),
            then_branch: copy_block(then_branch),
            else_branch: match else_branch {
                Some(e2) => Some(Box::new(copy_expr(e2))),
                None => None,
            },
        },
        Expr::Block(b) => Expr::Block(copy_block(b)),
        Expr::Return(op) => Expr::Return(
            match op {
                Some(e2) => Some(Box::new(copy_expr(e2))),
                None => None,
            },
        ),
        Expr::Opaque(inner) => Expr::Opaque(Box::new(copy_expr(inner))),
        Expr::ContinueWith(args) => {
            let a2 = copy_exprs(args);
            proof {
                assert(view_exprs(a2@) =~= view_exprs(args@));
            }
            Expr::ContinueWith(a2)
        },
        Expr::ReturnValue(inner) => Expr::ReturnValue(Box::new(copy_expr(inner))),
        Expr::Driver(name) => Expr::Driver(name.clone()),
        Expr::Unit => Expr::Unit,
        Expr::Other(text) => Expr::Other(text.clone()),
    }
}

/// Copies a list of expressions, element for element.
pub fn copy_exprs(v: &Vec<Expr>) -> (r: Vec<Expr>)
    ensures
        r@.len() == v@.len(),
        forall|i: int| 0 <= i < v@.len() ==> r@[i]@ == v@[i]@,
    decreases v,
{
    let mut out: Vec<Expr> = Vec::new();
    let mut i: usize = 0;
    while i < v.len()
        invariant
            i <= v@.len(),
            out@.len() == i,
            forall|j: int| 0 <= j < i ==> out@[j]@ == v@[j]@,
        decreases v@.len() - i,
    {
        out.push(copy_expr(&v[i]));
        i = i + 1;
    }
    out
}

/// Copies one match arm.
pub fn copy_arm(a: &Arm) -> (r: Arm)
    ensures
        r@ == a@,
    decreases a,
{
    Arm { pat: a.pat.clone(), body: copy_expr(&a.body) }
}

/// Copies a list of match arms, element for element.
pub fn copy_arms(v: &Vec<Arm>) -> (r: Vec<Arm>)
    ensures
        r@.len() == v@.len(),
        forall|i: int| 0 <= i < v@.len() ==> r@[i]@ == v@[i]@,
    decreases v,
{
    let mut out: Vec<Arm> = Vec::new();
    let mut i: usize = 0;
    while i < v.len()
        invariant
            i <= v@.len(),
            out@.len() == i,
            forall|j: int| 0 <= j < i ==> out@[j]@ == v@[j]@,
        decreases v@.len() - i,
    {
        out.push(copy_arm(&v[i]));
        i = i + 1;
    }
    out
}

/// Copies a block.
pub fn copy_block(b: &Block) -> (r: Block)
    ensures
        r@ == b@,
    decreases b,
{
    broadcast use group_ast_views;

    let s2 = copy_stmts(&b.stmts);
    proof {
        assert(view_stmts(s2@) =~= view_stmts(b.stmts@));
    }
    Block {
        stmts: s2,
        tail: match &b.tail {
            Some(e) => Some(Box::new(copy_expr(e))),
            None => None,
        },
    }
}

/// Copies one statement.
pub fn copy_stmt(s: &Stmt) -> (r: Stmt)
    ensures
        r@ == s@,
    decreases s,
{
    match s {
        Stmt::Expr(e) => Stmt::Expr(copy_expr(e)),
        Stmt::Other(text) => Stmt::Other(text.clone()),
        Stmt::ActionDecl => Stmt::ActionDecl,
        Stmt::InnerFn { sig, body } => Stmt::InnerFn { sig: copy_sig(sig), body: copy_block(body) },
        Stmt::AccInit(pats) => {
            let p2 = copy_texts(pats);
            proof {
                assert(view_texts(p2@) =~= view_texts(pats@));
            }
            Stmt::AccInit(p2)
        },
    }
}

/// Copies a list of statements, element for element.
pub fn copy_stmts(v: &Vec<Stmt>) -> (r: Vec<Stmt>)
    ensures
        r@.len() == v@.len(),
        forall|i: int| 0 <= i < v@.len() ==> r@[i]@ == v@[i]@,
    decreases v,
{
    let mut out: Vec<Stmt> = Vec::new();
    let mut i: usize = 0;
    while i < v.len()
        invariant
            i <= v@.len(),
            out@.len() == i,
            forall|j: int| 0 <= j < i ==> out@[j]@ == v@[j]@,
        decreases v@.len() - i,
    {
        out.push(copy_stmt(&v[i]));
        i = i + 1;
    }
    out
}

/// Copies a list of texts, element for element.
pub fn copy_texts(v: &Vec<String>) -> (r: Vec<String>)
    ensures
        r@.len() == v@.len(),
        forall|i: int| 0 <= i < v@.len() ==> r@[i]@ == v@[i]@,
{
    let mut out: Vec<String> = Vec::new();
    let mut i: usize = 0;
    while i < v.len()
        invariant
            i <= v@.len(),
            out@.len() == i,
            forall|j: int| 0 <= j < i ==> out@[j]@ == v@[j]@,
        decreases v@.len() - i,
    {
        out.push(v[i].clone());
        i = i + 1;
    }
    out
}

/// Copies one parameter.
pub fn copy_param(p: &Param) -> (r: Param)
    ensures
        r@ == p@,
{
    Param { pat: p.pat.clone(), ty: p.ty.clone() }
}

/// Copies a signature; the copy has the same view.
pub fn copy_sig(s: &FnSig) -> (r: FnSig)
    ensures
        r@ == s@,
{
    let mut inputs: Vec<Param> = Vec::new();
    let mut i: usize = 0;
    while i < s.inputs.len()
        invariant
            i <= s.inputs@.len(),
            inputs@.len() == i,
            forall|j: int| 0 <= j < i ==> inputs@[j]@ == s.inputs@[j]@,
        decreases s.inputs@.len() - i,
    {
        inputs.push(copy_param(&s.inputs[i]));
        i = i + 1;
    }
    proof {
        assert(view_params(inputs@) =~= view_params(s.inputs@));
    }
    FnSig {
        ident: s.ident.clone(),
        inputs,
        output: match &s.output {
            Some(t) => Some(t.clone()),
            None => None,
        },
    }
}

impl View for Expr {
    type V = ExprV;

    open spec fn view(&self) -> ExprV {
        view_expr(*self)
    }
}

impl View for Arm {
    type V = ArmV;

    open spec fn view(&self) -> ArmV {
        view_arm(*self)
    }
}

impl View for Block {
    type V = BlockV;

    open spec fn view(&self) -> BlockV {
        view_block(*self)
    }
}

impl View for Stmt {
    type V = StmtV;

    open spec fn view(&self) -> StmtV {
        view_stmt(*self)
    }
}

impl View for Param {
    type V = ParamV;

    open spec fn view(&self) -> ParamV {
        view_param(*self)
    }
}

impl View for FnSig {
    type V = SigV;

    open spec fn view(&self) -> SigV {
        view_sig(*self)
    }
}

impl View for FnDef {
    type V = FnDefV;

    open spec fn view(&self) -> FnDefV {
        view_def(*self)
    }
}

} // verus!
