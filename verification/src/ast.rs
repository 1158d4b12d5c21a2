//! Expressions and statements, as far as the pass reads them.
//!
//! The tree keeps the forms that the pass tells apart. Every other form is an
//! [`Opaque`] node: a number under which the owner of the tree filed the rest
//! of the node, with the expressions and statements nested directly inside it.

use vstd::prelude::*;
use crate::ident::{Ident, IdentView};

verus! {

/// The operator of an assignment.
#[derive(Clone, Copy, Debug, PartialEq, Eq, Hash, Structural)]
pub enum AssignOp {
    /// Plain `=`.
    Assign,
    /// A compound operator such as `+=`, by the number its owner gave it.
    Compound(u8),
}

/// The keyword of a variable declaration.
#[derive(Clone, Copy, Debug, PartialEq, Eq, Hash, Structural)]
pub enum VarDeclKind {
    Var,
    Let,
    Const,
}

/// A node that the pass carries along without telling its form.
#[derive(Debug, PartialEq, Eq)]
pub struct Opaque {
    /// The number under which the owner of the tree filed the node.
    pub node: u64,
    /// The expressions nested directly inside the node.
    pub exprs: Vec<Expr>,
    /// The statements nested directly inside the node.
    pub stmts: Vec<Stmt>,
}

/// An expression.
#[derive(Debug, PartialEq, Eq)]
pub enum Expr {
    /// A reference to a binding.
    Ident(Ident),
    /// A string literal.
    Str(String),
    /// `obj.prop`, with an identifier as the property.
    Member { obj: Box<Expr>, prop: Ident },
    /// `callee(args)`; `type_args` files explicit type arguments.
    Call { callee: Box<Expr>, args: Vec<Arg>, type_args: Option<u64> },
    /// `left op right`.
    Assign { op: AssignOp, left: Box<Expr>, right: Box<Expr> },
    /// `{ props }`.
    Object(Vec<Prop>),
    /// `a, b, c`.
    Sequence(Vec<Expr>),
    /// The placeholder that an emptied-out expression leaves behind.
    Invalid,
    /// Any other expression.
    Other(Opaque),
}

/// One argument of a call.
#[derive(Debug, PartialEq, Eq)]
pub struct Arg {
    /// Whether the argument is spread (`...expr`).
    pub spread: bool,
    pub expr: Expr,
}

/// One property of an object literal.
#[derive(Debug, PartialEq, Eq)]
pub enum Prop {
    /// `{ name }`.
    Shorthand(Ident),
    /// `{ key: value }`.
    KeyValue { key: Ident, value: Expr },
}

/// A statement.
#[derive(Debug, PartialEq, Eq)]
pub enum Stmt {
    /// `;`
    Empty,
    /// An expression statement.
    Expr(Expr),
    /// A declaration.
    Decl(Decl),
    /// Any other statement.
    Other(Opaque),
}

/// A declaration.
#[derive(Debug, PartialEq, Eq)]
pub enum Decl {
    /// `var`, `let` or `const`.
    Var { kind: VarDeclKind, declare: bool, decls: Vec<VarDeclarator> },
    /// A function declaration.
    Fn { ident: Ident, declare: bool, function: Opaque },
    /// A class declaration.
    Class { ident: Ident, declare: bool, class: Opaque },
    /// Any other declaration; it binds nothing that the pass records.
    Other(Opaque),
}

/// One binding of a variable declaration.
#[derive(Debug, PartialEq, Eq)]
pub struct VarDeclarator {
    pub name: Pat,
    pub init: Option<Expr>,
    pub definite: bool,
}

/// A binding pattern.
#[derive(Debug, PartialEq, Eq)]
pub enum Pat {
    /// A single identifier.
    Ident(Ident),
    /// A destructuring pattern.
    Other(Opaque),
}

/// The mathematical value of an [`Opaque`] node.
pub struct OpaqueView {
    pub node: u64,
    pub exprs: Seq<ExprView>,
    pub stmts: Seq<StmtView>,
}

/// The mathematical value of an [`Expr`].
pub enum ExprView {
    Ident(IdentView),
    Str(Seq<char>),
    Member { obj: Box<ExprView>, prop: IdentView },
    Call { callee: Box<ExprView>, args: Seq<ArgView>, type_args: Option<u64> },
    Assign { op: AssignOp, left: Box<ExprView>, right: Box<ExprView> },
    Object(Seq<PropView>),
    Sequence(Seq<ExprView>),
    Invalid,
    Other(OpaqueView),
}

/// The mathematical value of an [`Arg`].
pub struct ArgView {
    pub spread: bool,
    pub expr: ExprView,
}

/// The mathematical value of a [`Prop`].
pub enum PropView {
    Shorthand(IdentView),
    KeyValue { key: IdentView, value: ExprView },
}

/// The mathematical value of a [`Stmt`].
pub enum StmtView {
    Empty,
    Expr(ExprView),
    Decl(DeclView),
    Other(OpaqueView),
}

/// The mathematical value of a [`Decl`].
pub enum DeclView {
    Var { kind: VarDeclKind, declare: bool, decls: Seq<VarDeclaratorView> },
    Fn { ident: IdentView, declare: bool, function: OpaqueView },
    Class { ident: IdentView, declare: bool, class: OpaqueView },
    Other(OpaqueView),
}

/// The mathematical value of a [`VarDeclarator`].
pub struct VarDeclaratorView {
    pub name: PatView,
    pub init: Option<ExprView>,
    pub definite: bool,
}

/// The mathematical value of a [`Pat`].
pub enum PatView {
    Ident(IdentView),
    Other(OpaqueView),
}

/// The value of an opaque node.
pub open spec fn opaque_view(o: Opaque) -> OpaqueView
    decreases o,
{
    OpaqueView { node: o.node, exprs: exprs_view(o.exprs), stmts: stmts_view(o.stmts) }
}

/// The value of an expression.
pub open spec fn expr_view(e: Expr) -> ExprView
    decreases e,
{
    match e {
        Expr::Ident(i) => ExprView::Ident(i@),
        Expr::Str(s) => ExprView::Str(s@),
        Expr::Member { obj, prop } => ExprView::Member {
            obj: Box::new(expr_view(*obj)),
            prop: prop@,
        },
        Expr::Call { callee, args, type_args } => ExprView::Call {
            callee: Box::new(expr_view(*callee)),
            args: args_view(args),
            type_args,
        },
        Expr::Assign { op, left, right } => ExprView::Assign {
            op,
            left: Box::new(expr_view(*left)),
            right: Box::new(expr_view(*right)),
        },
        Expr::Object(props) => ExprView::Object(props_view(props)),
        Expr::Sequence(exprs) => ExprView::Sequence(exprs_view(exprs)),
        Expr::Invalid => ExprView::Invalid,
        Expr::Other(o) => ExprView::Other(opaque_view(o)),
    }
}

/// The values of a list of expressions, in order.
pub open spec fn exprs_view(v: Vec<Expr>) -> Seq<ExprView>
    decreases v,
{
    Seq::new(
        v.len() as nat,
        |i: int|
            if 0 <= i < v.len() {
                expr_view(v[i])
            } else {
                arbitrary()
            },
    )
}

/// The value of an optional expression.
pub open spec fn opt_expr_view(o: Option<Expr>) -> Option<ExprView>
    decreases o,
{
    match o {
        Some(e) => Some(expr_view(e)),
        None => None,
    }
}

/// The value of an argument.
pub open spec fn arg_view(a: Arg) -> ArgView
    decreases a,
{
    ArgView { spread: a.spread, expr: expr_view(a.expr) }
}

/// The values of a list of arguments, in order.
pub open spec fn args_view(v: Vec<Arg>) -> Seq<ArgView>
    decreases v,
{
    Seq::new(
        v.len() as nat,
        |i: int|
            if 0 <= i < v.len() {
                arg_view(v[i])
            } else {
                arbitrary()
            },
    )
}

/// The value of a property.
pub open spec fn prop_view(p: Prop) -> PropView
    decreases p,
{
    match p {
        Prop::Shorthand(i) => PropView::Shorthand(i@),
        Prop::KeyValue { key, value } => PropView::KeyValue { key: key@, value: expr_view(value) },
    }
}

/// The values of a list of properties, in order.
pub open spec fn props_view(v: Vec<Prop>) -> Seq<PropView>
    decreases v,
{
    Seq::new(
        v.len() as nat,
        |i: int|
            if 0 <= i < v.len() {
                prop_view(v[i])
            } else {
                arbitrary()
            },
    )
}

/// The value of a statement.
pub open spec fn stmt_view(s: Stmt) -> StmtView
    decreases s,
{
    match s {
        Stmt::Empty => StmtView::Empty,
        Stmt::Expr(e) => StmtView::Expr(expr_view(e)),
        Stmt::Decl(d) => StmtView::Decl(decl_view(d)),
        Stmt::Other(o) => StmtView::Other(opaque_view(o)),
    }
}

/// The values of a list of statements, in order.
pub open spec fn stmts_view(v: Vec<Stmt>) -> Seq<StmtView>
    decreases v,
{
    Seq::new(
        v.len() as nat,
        |i: int|
            if 0 <= i < v.len() {
                stmt_view(v[i])
            } else {
                arbitrary()
            },
    )
}

/// The value of a declaration.
pub open spec fn decl_view(d: Decl) -> DeclView
    decreases d,
{
    match d {
        Decl::Var { kind, declare, decls } => DeclView::Var {
            kind,
            declare,
            decls: declarators_view(decls),
        },
        Decl::Fn { ident, declare, function } => DeclView::Fn {
            ident: ident@,
            declare,
            function: opaque_view(function),
        },
        Decl::Class { ident, declare, class } => DeclView::Class {
            ident: ident@,
            declare,
            class: opaque_view(class),
        },
        Decl::Other(o) => DeclView::Other(opaque_view(o)),
    }
}

/// The value of a declarator.
pub open spec fn declarator_view(d: VarDeclarator) -> VarDeclaratorView
    decreases d,
{
    VarDeclaratorView {
        name: pat_view(d.name),
        init: opt_expr_view(d.init),
        definite: d.definite,
    }
}

/// The values of a list of declarators, in order.
pub open spec fn declarators_view(v: Vec<VarDeclarator>) -> Seq<VarDeclaratorView>
    decreases v,
{
    Seq::new(
        v.len() as nat,
        |i: int|
            if 0 <= i < v.len() {
                declarator_view(v[i])
            } else {
                arbitrary()
            },
    )
}

/// The value of a pattern.
pub open spec fn pat_view(p: Pat) -> PatView
    decreases p,
{
    match p {
        Pat::Ident(i) => PatView::Ident(i@),
        Pat::Other(o) => PatView::Other(opaque_view(o)),
    }
}

impl View for Opaque {
    type V = OpaqueView;

    open spec fn view(&self) -> OpaqueView {
        opaque_view(*self)
    }
}

impl View for Expr {
    type V = ExprView;

    open spec fn view(&self) -> ExprView {
        expr_view(*self)
    }
}

impl View for Arg {
    type V = ArgView;

    open spec fn view(&self) -> ArgView {
        arg_view(*self)
    }
}

impl View for Prop {
    type V = PropView;

    open spec fn view(&self) -> PropView {
        prop_view(*self)
    }
}

impl View for Stmt {
    type V = StmtView;

    open spec fn view(&self) -> StmtView {
        stmt_view(*self)
    }
}

impl View for Decl {
    type V = DeclView;

    open spec fn view(&self) -> DeclView {
        decl_view(*self)
    }
}

impl View for VarDeclarator {
    type V = VarDeclaratorView;

    open spec fn view(&self) -> VarDeclaratorView {
        declarator_view(*self)
    }
}

impl View for Pat {
    type V = PatView;

    open spec fn view(&self) -> PatView {
        pat_view(*self)
    }
}

/// `obj.prop`.
pub open spec fn member_of(obj: ExprView, prop: IdentView) -> ExprView {
    ExprView::Member { obj: Box::new(obj), prop }
}

/// `expr` as an argument that is not spread.
pub open spec fn arg_of(expr: ExprView) -> ArgView {
    ArgView { spread: false, expr }
}

/// `callee(args)`, without type arguments.
pub open spec fn call_of(callee: ExprView, args: Seq<ArgView>) -> ExprView {
    ExprView::Call { callee: Box::new(callee), args, type_args: None }
}

/// `left op right`.
pub open spec fn assign_of(op: AssignOp, left: ExprView, right: ExprView) -> ExprView {
    ExprView::Assign { op, left: Box::new(left), right: Box::new(right) }
}

/// `kind name = init`, as a declaration of one binding.
pub open spec fn var_decl_of(kind: VarDeclKind, name: PatView, init: ExprView) -> DeclView {
    DeclView::Var {
        kind,
        declare: false,
        decls: seq![VarDeclaratorView { name, init: Some(init), definite: false }],
    }
}

impl ExprView {
    /// Whether the expression is a reference to a binding spelled `name`.
    pub open spec fn is_ident_ref_to(self, name: Seq<char>) -> bool {
        self matches ExprView::Ident(i) && i.sym == name
    }
}

impl Expr {
    /// Whether the expression is a reference to a binding spelled `name`,
    /// whatever the binding's mark.
    pub fn is_ident_ref_to(&self, name: &str) -> (b: bool)
        ensures
            b == self@.is_ident_ref_to(name@),
    {
        match self {
            Expr::Ident(i) => i.is_named(name),
            _ => false,
        }
    }

    /// Whether the expression is the placeholder of an emptied-out expression.
    pub fn is_invalid(&self) -> (b: bool)
        ensures
            b == (self@ is Invalid),
    {
        match self {
            Expr::Invalid => true,
            _ => false,
        }
    }

    /// The expression as an argument that is not spread.
    pub fn as_arg(self) -> (r: Arg)
        ensures
            r@ == arg_of(self@),
    {
        Arg { spread: false, expr: self }
    }

    /// A call of the expression with `args`.
    pub fn as_call(self, args: Vec<Arg>) -> (r: Expr)
        ensures
            r@ == call_of(self@, args_view(args)),
    {
        Expr::Call { callee: Box::new(self), args, type_args: None }
    }

    /// The expression as an expression statement.
    pub fn into_stmt(self) -> (r: Stmt)
        ensures
            r@ == StmtView::Expr(self@),
    {
        Stmt::Expr(self)
    }

    /// The assignment of the expression to `left`.
    pub fn make_assign_to(self, op: AssignOp, left: Expr) -> (r: Expr)
        ensures
            r@ == assign_of(op, left@, self@),
    {
        Expr::Assign { op, left: Box::new(left), right: Box::new(self) }
    }

    /// The declaration `kind name = self`.
    pub fn into_var_decl(self, kind: VarDeclKind, name: Pat) -> (r: Decl)
        ensures
            r@ == var_decl_of(kind, name@, self@),
    {
        let mut decls: Vec<VarDeclarator> = Vec::new();
        decls.push(VarDeclarator { name, init: Some(self), definite: false });
        assert(declarators_view(decls) =~= seq![
            VarDeclaratorView { name: name@, init: Some(self@), definite: false },
        ]);
        Decl::Var { kind, declare: false, decls }
    }
}

/// A copy of an opaque node.
pub fn clone_opaque(o: &Opaque) -> (r: Opaque)
    ensures
        r@ == o@,
    decreases o,
{
    Opaque { node: o.node, exprs: clone_exprs(&o.exprs), stmts: clone_stmts(&o.stmts) }
}

/// A copy of an expression.
pub fn clone_expr(e: &Expr) -> (r: Expr)
    ensures
        r@ == e@,
    decreases e,
{
    match e {
        Expr::Ident(i) => Expr::Ident(i.clone()),
        Expr::Str(s) => Expr::Str(s.clone()),
        Expr::Member { obj, prop } => Expr::Member {
            obj: Box::new(clone_expr(obj)),
            prop: prop.clone(),
        },
        Expr::Call { callee, args, type_args } => Expr::Call {
            callee: Box::new(clone_expr(callee)),
            args: clone_args(args),
            type_args: *type_args,
        },
        Expr::Assign { op, left, right } => Expr::Assign {
            op: *op,
            left: Box::new(clone_expr(left)),
            right: Box::new(clone_expr(right)),
        },
        Expr::Object(props) => Expr::Object(clone_props(props)),
        Expr::Sequence(exprs) => Expr::Sequence(clone_exprs(exprs)),
        Expr::Invalid => Expr::Invalid,
        Expr::Other(o) => Expr::Other(clone_opaque(o)),
    }
}

/// A copy of a list of expressions.
pub fn clone_exprs(v: &Vec<Expr>) -> (r: Vec<Expr>)
    ensures
        exprs_view(r) == exprs_view(*v),
    decreases v,
{
    let mut out: Vec<Expr> = Vec::new();
    let mut i: usize = 0;
    while i < v.len()
        invariant
            i <= v.len(),
            out.len() == i,
            forall|j: int| 0 <= j < i ==> expr_view(#[trigger] out[j]) == expr_view(v[j]),
        decreases v.len() - i,
    {
        out.push(clone_expr(&v[i]));
        i += 1;
    }
    assert(exprs_view(out) =~= exprs_view(*v));
    out
}

/// A copy of an optional expression.
pub fn clone_opt_expr(o: &Option<Expr>) -> (r: Option<Expr>)
    ensures
        opt_expr_view(r) == opt_expr_view(*o),
    decreases o,
{
    match o {
        Some(e) => Some(clone_expr(e)),
        None => None,
    }
}

/// A copy of an argument.
pub fn clone_arg(a: &Arg) -> (r: Arg)
    ensures
        r@ == a@,
    decreases a,
{
    Arg { spread: a.spread, expr: clone_expr(&a.expr) }
}

/// A copy of a list of arguments.
pub fn clone_args(v: &Vec<Arg>) -> (r: Vec<Arg>)
    ensures
        args_view(r) == args_view(*v),
    decreases v,
{
    let mut out: Vec<Arg> = Vec::new();
    let mut i: usize = 0;
    while i < v.len()
        invariant
            i <= v.len(),
            out.len() == i,
            forall|j: int| 0 <= j < i ==> arg_view(#[trigger] out[j]) == arg_view(v[j]),
        decreases v.len() - i,
    {
        out.push(clone_arg(&v[i]));
        i += 1;
    }
    assert(args_view(out) =~= args_view(*v));
    out
}

/// A copy of a property.
pub fn clone_prop(p: &Prop) -> (r: Prop)
    ensures
        r@ == p@,
    decreases p,
{
    match p {
        Prop::Shorthand(i) => Prop::Shorthand(i.clone()),
        Prop::KeyValue { key, value } => Prop::KeyValue {
            key: key.clone(),
            value: clone_expr(value),
        },
    }
}

/// A copy of a list of properties.
pub fn clone_props(v: &Vec<Prop>) -> (r: Vec<Prop>)
    ensures
        props_view(r) == props_view(*v),
    decreases v,
{
    let mut out: Vec<Prop> = Vec::new();
    let mut i: usize = 0;
    while i < v.len()
        invariant
            i <= v.len(),
            out.len() == i,
            forall|j: int| 0 <= j < i ==> prop_view(#[trigger] out[j]) == prop_view(v[j]),
        decreases v.len() - i,
    {
        out.push(clone_prop(&v[i]));
        i += 1;
    }
    assert(props_view(out) =~= props_view(*v));
    out
}

/// A copy of a statement.
pub fn clone_stmt(s: &Stmt) -> (r: Stmt)
    ensures
        r@ == s@,
    decreases s,
{
    match s {
        Stmt::Empty => Stmt::Empty,
        Stmt::Expr(e) => Stmt::Expr(clone_expr(e)),
        Stmt::Decl(d) => Stmt::Decl(clone_decl(d)),
        Stmt::Other(o) => Stmt::Other(clone_opaque(o)),
    }
}

/// A copy of a list of statements.
pub fn clone_stmts(v: &Vec<Stmt>) -> (r: Vec<Stmt>)
    ensures
        stmts_view(r) == stmts_view(*v),
    decreases v,
{
    let mut out: Vec<Stmt> = Vec::new();
    let mut i: usize = 0;
    while i < v.len()
        invariant
            i <= v.len(),
            out.len() == i,
            forall|j: int| 0 <= j < i ==> stmt_view(#[trigger] out[j]) == stmt_view(v[j]),
        decreases v.len() - i,
    {
        out.push(clone_stmt(&v[i]));
        i += 1;
    }
    assert(stmts_view(out) =~= stmts_view(*v));
    out
}

/// A copy of a declaration.
pub fn clone_decl(d: &Decl) -> (r: Decl)
    ensures
        r@ == d@,
    decreases d,
{
    match d {
        Decl::Var { kind, declare, decls } => Decl::Var {
            kind: *kind,
            declare: *declare,
            decls: clone_declarators(decls),
        },
        Decl::Fn { ident, declare, function } => Decl::Fn {
            ident: ident.clone(),
            declare: *declare,
            function: clone_opaque(function),
        },
        Decl::Class { ident, declare, class } => Decl::Class {
            ident: ident.clone(),
            declare: *declare,
            class: clone_opaque(class),
        },
        Decl::Other(o) => Decl::Other(clone_opaque(o)),
    }
}

/// A copy of a declarator.
pub fn clone_declarator(d: &VarDeclarator) -> (r: VarDeclarator)
    ensures
        r@ == d@,
    decreases d,
{
    VarDeclarator {
        name: clone_pat(&d.name),
        init: clone_opt_expr(&d.init),
        definite: d.definite,
    }
}

/// A copy of a list of declarators.
pub fn clone_declarators(v: &Vec<VarDeclarator>) -> (r: Vec<VarDeclarator>)
    ensures
        declarators_view(r) == declarators_view(*v),
    decreases v,
{
    let mut out: Vec<VarDeclarator> = Vec::new();
    let mut i: usize = 0;
    while i < v.len()
        invariant
            i <= v.len(),
            out.len() == i,
            forall|j: int|
                0 <= j < i ==> declarator_view(#[trigger] out[j]) == declarator_view(v[j]),
        decreases v.len() - i,
    {
        out.push(clone_declarator(&v[i]));
        i += 1;
    }
    assert(declarators_view(out) =~= declarators_view(*v));
    out
}

/// A copy of a pattern.
pub fn clone_pat(p: &Pat) -> (r: Pat)
    ensures
        r@ == p@,
    decreases p,
{
    match p {
        Pat::Ident(i) => Pat::Ident(i.clone()),
        Pat::Other(o) => Pat::Other(clone_opaque(o)),
    }
}

/// Appends an expression to a list.
pub fn push_expr(out: &mut Vec<Expr>, item: Expr)
    ensures
        exprs_view(*final(out)) == exprs_view(*old(out)).push(item@),
{
    out.push(item);
    assert(exprs_view(*out) =~= exprs_view(*old(out)).push(item@));
}

/// Appends an argument to a list.
pub fn push_arg(out: &mut Vec<Arg>, item: Arg)
    ensures
        args_view(*final(out)) == args_view(*old(out)).push(item@),
{
    out.push(item);
    assert(args_view(*out) =~= args_view(*old(out)).push(item@));
}

/// Appends a property to a list.
pub fn push_prop(out: &mut Vec<Prop>, item: Prop)
    ensures
        props_view(*final(out)) == props_view(*old(out)).push(item@),
{
    out.push(item);
    assert(props_view(*out) =~= props_view(*old(out)).push(item@));
}

/// Appends a statement to a list.
pub fn push_stmt(out: &mut Vec<Stmt>, item: Stmt)
    ensures
        stmts_view(*final(out)) == stmts_view(*old(out)).push(item@),
{
    out.push(item);
    assert(stmts_view(*out) =~= stmts_view(*old(out)).push(item@));
}

/// Appends a declarator to a list.
pub fn push_declarator(out: &mut Vec<VarDeclarator>, item: VarDeclarator)
    ensures
        declarators_view(*final(out)) == declarators_view(*old(out)).push(item@),
{
    out.push(item);
    assert(declarators_view(*out) =~= declarators_view(*old(out)).push(item@));
}

impl Clone for Opaque {
    fn clone(&self) -> (r: Self)
        ensures
            r@ == self@,
    {
        clone_opaque(self)
    }
}

impl Clone for Expr {
    fn clone(&self) -> (r: Self)
        ensures
            r@ == self@,
    {
        clone_expr(self)
    }
}

impl Clone for Arg {
    fn clone(&self) -> (r: Self)
        ensures
            r@ == self@,
    {
        clone_arg(self)
    }
}

impl Clone for Prop {
    fn clone(&self) -> (r: Self)
        ensures
            r@ == self@,
    {
        clone_prop(self)
    }
}

impl Clone for Stmt {
    fn clone(&self) -> (r: Self)
        ensures
            r@ == self@,
    {
        clone_stmt(self)
    }
}

impl Clone for Decl {
    fn clone(&self) -> (r: Self)
        ensures
            r@ == self@,
    {
        clone_decl(self)
    }
}

impl Clone for VarDeclarator {
    fn clone(&self) -> (r: Self)
        ensures
            r@ == self@,
    {
        clone_declarator(self)
    }
}

impl Clone for Pat {
    fn clone(&self) -> (r: Self)
        ensures
            r@ == self@,
    {
        clone_pat(self)
    }
}

} // verus!
