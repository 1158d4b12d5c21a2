//! Rewrites the CommonJS idioms of a module, `require('literal')` and the
//! assignments to `exports` and `module.exports`, into calls against the
//! registry.

use vstd::prelude::*;
use vstd::string::*;
use crate::ast::{
    arg_of, args_view, assign_of, declarators_view, exprs_view, member_of, props_view, push_arg,
    push_declarator, push_expr, push_prop, push_stmt, stmts_view, Arg, ArgView, AssignOp, Decl,
    DeclView, Expr, ExprView, Opaque, OpaqueView, Pat, PatView, Prop, PropView, Stmt, StmtView,
    VarDeclarator, VarDeclaratorView,
};
use crate::constants::CJS_API_NAME;
use crate::helpers::{
    const_stmt, decl_var_and_assign_stmt, obj_member_expr, registry_call, registry_member_expr,
    require_from_global, require_module_from_global,
};
use crate::ident::{
    clone_opt_ident, opt_string_view, plain, private_ident, quote_ident, Ident, IdentView, Mark,
};
use crate::module::{
    push_item, seq_view, DefaultDecl, DefaultDeclView, ModuleDecl, ModuleDeclView, ModuleItem,
    ModuleItemView,
};
use crate::module_resolver::{ModuleResolver, ResolverView};

verus! {

/// A `require` of a module, by the binding that receives it.
#[derive(Debug, PartialEq, Eq)]
pub struct Require {
    pub ident: Ident,
    pub module_src: String,
}

/// An export of a value, by its name.
#[derive(Debug, PartialEq, Eq)]
pub struct Exports {
    pub expr: Expr,
    pub name: String,
}

/// The export that an assignment to `left` publishes: `exports.name`
/// publishes `name`, and `module.exports` publishes `default`.
pub open spec fn export_slot(left: ExprView) -> Option<Seq<char>> {
    match left {
        ExprView::Member { obj, prop } => if obj.is_ident_ref_to("exports"@) {
            Some(prop.sym)
        } else if obj.is_ident_ref_to("module"@) && prop.sym == "exports"@ {
            Some("default"@)
        } else {
            None
        },
        _ => None,
    }
}

/// The export that an expression publishes by itself: that of its target,
/// where the expression is a plain assignment.
pub open spec fn published(e: ExprView) -> Option<Seq<char>> {
    match e {
        ExprView::Assign { op: AssignOp::Assign, left, .. } => export_slot(*left),
        _ => None,
    }
}

/// The literal that an expression requires: the expression is a call of
/// `require`, without type arguments, with a string literal as its one
/// argument.
pub open spec fn required(e: ExprView) -> Option<Seq<char>> {
    match e {
        ExprView::Call { callee, args, type_args: None } => if args.len() == 1
            && callee.is_ident_ref_to("require"@) && !args[0].spread && args[0].expr is Str {
            Some(args[0].expr->Str_0)
        } else {
            None
        },
        _ => None,
    }
}

/// The expressions of a list that are not the placeholder of an emptied-out
/// expression, in order.
pub open spec fn without_invalid(v: Seq<ExprView>) -> Seq<ExprView>
    decreases v.len(),
{
    if v.len() == 0 {
        Seq::empty()
    } else if v.last() is Invalid {
        without_invalid(v.drop_last())
    } else {
        without_invalid(v.drop_last()).push(v.last())
    }
}

/// Whether some assignment inside an opaque node publishes an export.
pub open spec fn opaque_publishes(o: OpaqueView) -> bool
    decreases o,
{
    exprs_publish(o.exprs) || stmts_publish(o.stmts)
}

/// Whether some assignment inside an expression publishes an export.
pub open spec fn expr_publishes(e: ExprView) -> bool
    decreases e,
{
    match e {
        ExprView::Member { obj, .. } => expr_publishes(*obj),
        ExprView::Call { callee, args, .. } => expr_publishes(*callee) || args_publish(args),
        ExprView::Assign { left, right, .. } => published(e) is Some || expr_publishes(*left)
            || expr_publishes(*right),
        ExprView::Object(props) => props_publish(props),
        ExprView::Sequence(exprs) => exprs_publish(exprs),
        ExprView::Other(o) => opaque_publishes(o),
        _ => false,
    }
}

/// Whether some assignment inside a list of expressions publishes an export.
pub open spec fn exprs_publish(v: Seq<ExprView>) -> bool
    decreases v,
{
    exists|i: int| 0 <= i < v.len() && expr_publishes(#[trigger] v[i])
}

/// Whether some assignment inside an argument publishes an export.
pub open spec fn arg_publishes(a: ArgView) -> bool
    decreases a,
{
    expr_publishes(a.expr)
}

/// Whether some assignment inside a list of arguments publishes an export.
pub open spec fn args_publish(v: Seq<ArgView>) -> bool
    decreases v,
{
    exists|i: int| 0 <= i < v.len() && arg_publishes(#[trigger] v[i])
}

/// Whether some assignment inside a property publishes an export.
pub open spec fn prop_publishes(p: PropView) -> bool
    decreases p,
{
    match p {
        PropView::Shorthand(_) => false,
        PropView::KeyValue { value, .. } => expr_publishes(value),
    }
}

/// Whether some assignment inside a list of properties publishes an export.
pub open spec fn props_publish(v: Seq<PropView>) -> bool
    decreases v,
{
    exists|i: int| 0 <= i < v.len() && prop_publishes(#[trigger] v[i])
}

/// Whether some assignment inside a statement publishes an export.
pub open spec fn stmt_publishes(s: StmtView) -> bool
    decreases s,
{
    match s {
        StmtView::Empty => false,
        StmtView::Expr(e) => expr_publishes(e),
        StmtView::Decl(d) => decl_publishes(d),
        StmtView::Other(o) => opaque_publishes(o),
    }
}

/// Whether some assignment inside a list of statements publishes an export.
pub open spec fn stmts_publish(v: Seq<StmtView>) -> bool
    decreases v,
{
    exists|i: int| 0 <= i < v.len() && stmt_publishes(#[trigger] v[i])
}

/// Whether some assignment inside a declaration publishes an export.
pub open spec fn decl_publishes(d: DeclView) -> bool
    decreases d,
{
    match d {
        DeclView::Var { decls, .. } => declarators_publish(decls),
        DeclView::Fn { function, .. } => opaque_publishes(function),
        DeclView::Class { class, .. } => opaque_publishes(class),
        DeclView::Other(o) => opaque_publishes(o),
    }
}

/// Whether some assignment inside a declarator publishes an export.
pub open spec fn declarator_publishes(d: VarDeclaratorView) -> bool
    decreases d,
{
    pat_publishes(d.name) || match d.init {
        Some(e) => expr_publishes(e),
        None => false,
    }
}

/// Whether some assignment inside a list of declarators publishes an export.
pub open spec fn declarators_publish(v: Seq<VarDeclaratorView>) -> bool
    decreases v,
{
    exists|i: int| 0 <= i < v.len() && declarator_publishes(#[trigger] v[i])
}

/// Whether some assignment inside a pattern publishes an export.
pub open spec fn pat_publishes(p: PatView) -> bool
    decreases p,
{
    match p {
        PatView::Ident(_) => false,
        PatView::Other(o) => opaque_publishes(o),
    }
}

/// Whether some assignment inside a module declaration publishes an export.
pub open spec fn module_decl_publishes(d: ModuleDeclView) -> bool {
    match d {
        ModuleDeclView::ExportDecl(decl) => decl_publishes(decl),
        ModuleDeclView::ExportDefaultDecl(DefaultDeclView::Class { class, .. }) => opaque_publishes(
            class,
        ),
        ModuleDeclView::ExportDefaultDecl(DefaultDeclView::Fn { function, .. }) => opaque_publishes(
            function,
        ),
        ModuleDeclView::ExportDefaultDecl(DefaultDeclView::Other(o)) => opaque_publishes(o),
        ModuleDeclView::ExportDefaultExpr(e) => expr_publishes(e),
        ModuleDeclView::Other(o) => opaque_publishes(o),
        _ => false,
    }
}

/// Whether some assignment inside an item publishes an export.
pub open spec fn item_publishes(item: ModuleItemView) -> bool {
    match item {
        ModuleItemView::ModuleDecl(d) => module_decl_publishes(d),
        ModuleItemView::Stmt(s) => stmt_publishes(s),
    }
}

/// Whether some assignment inside a list of items publishes an export.
pub open spec fn items_publish(v: Seq<ModuleItemView>) -> bool {
    exists|i: int| 0 <= i < v.len() && item_publishes(#[trigger] v[i])
}

/// Some assignment inside the first `i + 1` expressions publishes an export
/// exactly where one inside the first `i` of them, or inside the one behind
/// them, does.
pub proof fn lemma_exprs_publish_take(v: Seq<ExprView>, i: int)
    requires
        0 <= i < v.len(),
    ensures
        exprs_publish(v.take(i + 1)) == (exprs_publish(v.take(i)) || expr_publishes(v[i])),
{
    let a = v.take(i);
    let b = v.take(i + 1);
    assert(b[i] == v[i]);
    if exprs_publish(a) {
        let j = choose|j: int| 0 <= j < a.len() && expr_publishes(#[trigger] a[j]);
        assert(b[j] == a[j]);
    }
    if exprs_publish(b) {
        let j = choose|j: int| 0 <= j < b.len() && expr_publishes(#[trigger] b[j]);
        if j < i {
            assert(a[j] == b[j]);
        }
    }
}

/// Some assignment inside the first `i + 1` arguments publishes an export
/// exactly where one inside the first `i` of them, or inside the one behind
/// them, does.
pub proof fn lemma_args_publish_take(v: Seq<ArgView>, i: int)
    requires
        0 <= i < v.len(),
    ensures
        args_publish(v.take(i + 1)) == (args_publish(v.take(i)) || arg_publishes(v[i])),
{
    let a = v.take(i);
    let b = v.take(i + 1);
    assert(b[i] == v[i]);
    if args_publish(a) {
        let j = choose|j: int| 0 <= j < a.len() && arg_publishes(#[trigger] a[j]);
        assert(b[j] == a[j]);
    }
    if args_publish(b) {
        let j = choose|j: int| 0 <= j < b.len() && arg_publishes(#[trigger] b[j]);
        if j < i {
            assert(a[j] == b[j]);
        }
    }
}

/// Some assignment inside the first `i + 1` properties publishes an export
/// exactly where one inside the first `i` of them, or inside the one behind
/// them, does.
pub proof fn lemma_props_publish_take(v: Seq<PropView>, i: int)
    requires
        0 <= i < v.len(),
    ensures
        props_publish(v.take(i + 1)) == (props_publish(v.take(i)) || prop_publishes(v[i])),
{
    let a = v.take(i);
    let b = v.take(i + 1);
    assert(b[i] == v[i]);
    if props_publish(a) {
        let j = choose|j: int| 0 <= j < a.len() && prop_publishes(#[trigger] a[j]);
        assert(b[j] == a[j]);
    }
    if props_publish(b) {
        let j = choose|j: int| 0 <= j < b.len() && prop_publishes(#[trigger] b[j]);
        if j < i {
            assert(a[j] == b[j]);
        }
    }
}

/// Some assignment inside the first `i + 1` statements publishes an export
/// exactly where one inside the first `i` of them, or inside the one behind
/// them, does.
pub proof fn lemma_stmts_publish_take(v: Seq<StmtView>, i: int)
    requires
        0 <= i < v.len(),
    ensures
        stmts_publish(v.take(i + 1)) == (stmts_publish(v.take(i)) || stmt_publishes(v[i])),
{
    let a = v.take(i);
    let b = v.take(i + 1);
    assert(b[i] == v[i]);
    if stmts_publish(a) {
        let j = choose|j: int| 0 <= j < a.len() && stmt_publishes(#[trigger] a[j]);
        assert(b[j] == a[j]);
    }
    if stmts_publish(b) {
        let j = choose|j: int| 0 <= j < b.len() && stmt_publishes(#[trigger] b[j]);
        if j < i {
            assert(a[j] == b[j]);
        }
    }
}

/// Some assignment inside the first `i + 1` declarators publishes an export
/// exactly where one inside the first `i` of them, or inside the one behind
/// them, does.
pub proof fn lemma_declarators_publish_take(v: Seq<VarDeclaratorView>, i: int)
    requires
        0 <= i < v.len(),
    ensures
        declarators_publish(v.take(i + 1)) == (declarators_publish(v.take(i))
            || declarator_publishes(v[i])),
{
    let a = v.take(i);
    let b = v.take(i + 1);
    assert(b[i] == v[i]);
    if declarators_publish(a) {
        let j = choose|j: int| 0 <= j < a.len() && declarator_publishes(#[trigger] a[j]);
        assert(b[j] == a[j]);
    }
    if declarators_publish(b) {
        let j = choose|j: int| 0 <= j < b.len() && declarator_publishes(#[trigger] b[j]);
        if j < i {
            assert(a[j] == b[j]);
        }
    }
}

/// Some assignment inside the first `i + 1` items publishes an export
/// exactly where one inside the first `i` of them, or inside the one behind
/// them, does.
pub proof fn lemma_items_publish_take(v: Seq<ModuleItemView>, i: int)
    requires
        0 <= i < v.len(),
    ensures
        items_publish(v.take(i + 1)) == (items_publish(v.take(i)) || item_publishes(v[i])),
{
    let a = v.take(i);
    let b = v.take(i + 1);
    assert(b[i] == v[i]);
    if items_publish(a) {
        let j = choose|j: int| 0 <= j < a.len() && item_publishes(#[trigger] a[j]);
        assert(b[j] == a[j]);
    }
    if items_publish(b) {
        let j = choose|j: int| 0 <= j < b.len() && item_publishes(#[trigger] b[j]);
        if j < i {
            assert(a[j] == b[j]);
        }
    }
}

/// What the rewriting of a module depends on.
pub struct CjsRules {
    pub resolver: ResolverView,
    /// The name under which the module is registered.
    pub module_name: Seq<char>,
    /// Whether `require` is lowered.
    pub runtime_module: bool,
    /// The binding of the export boundary.
    pub boundary: IdentView,
}

/// The mathematical value of a [`CommonJsTransformer`].
pub struct CjsView {
    pub rules: CjsRules,
    /// Whether an assignment that publishes an export has been met.
    pub exported: bool,
}

impl CjsView {
    /// The same transformer, after it has met an assignment that publishes an
    /// export if `publishes` says so.
    pub open spec fn met(self, publishes: bool) -> Self {
        CjsView { exported: self.exported || publishes, ..self }
    }

    /// What the items of a module become: each item is rewritten, and where
    /// an assignment that publishes an export has been met, in the items or
    /// before, the declaration of the export boundary is put first.
    pub open spec fn module_items(self, v: Seq<ModuleItemView>) -> Seq<ModuleItemView> {
        if self.exported || items_publish(v) {
            seq![ModuleItemView::Stmt(self.rules.boundary_stmt())] + self.rules.items(v)
        } else {
            self.rules.items(v)
        }
    }
}

impl CjsRules {
    /// `boundary.exports.name`.
    pub open spec fn boundary_slot(self, name: Seq<char>) -> ExprView {
        member_of(member_of(ExprView::Ident(self.boundary), plain("exports"@)), plain(name))
    }

    /// `const boundary = global.__modules.cjs('module_name')`.
    pub open spec fn boundary_stmt(self) -> StmtView {
        const_stmt(
            self.boundary,
            registry_call(CJS_API_NAME@, seq![arg_of(ExprView::Str(self.module_name))]),
        )
    }

    /// What an opaque node becomes.
    pub open spec fn opaque(self, o: OpaqueView) -> OpaqueView
        decreases o,
    {
        OpaqueView { node: o.node, exprs: self.exprs(o.exprs), stmts: self.stmts(o.stmts) }
    }

    /// What an expression becomes. Its parts are rewritten first. Then a call
    /// that requires a literal becomes a call of the registry's `require`
    /// with the path of the literal, where `require` is lowered; and a plain
    /// assignment that publishes an export becomes the same assignment of
    /// the value that the assignment to the export's slot in the boundary
    /// gives.
    pub open spec fn expr(self, e: ExprView) -> ExprView
        decreases e,
    {
        match e {
            ExprView::Member { obj, prop } => ExprView::Member {
                obj: Box::new(self.expr(*obj)),
                prop,
            },
            ExprView::Call { callee, args, type_args } => if self.runtime_module && required(e)
                is Some {
                require_from_global(self.resolver.path_of(required(e)->0, false))
            } else {
                ExprView::Call {
                    callee: Box::new(self.expr(*callee)),
                    args: self.args(args),
                    type_args,
                }
            },
            ExprView::Assign { op, left, right } => match published(e) {
                Some(name) => assign_of(
                    AssignOp::Assign,
                    self.expr(*left),
                    assign_of(AssignOp::Assign, self.boundary_slot(name), self.expr(*right)),
                ),
                None => assign_of(op, self.expr(*left), self.expr(*right)),
            },
            ExprView::Object(props) => ExprView::Object(self.props(props)),
            ExprView::Sequence(exprs) => ExprView::Sequence(without_invalid(self.exprs(exprs))),
            ExprView::Other(o) => ExprView::Other(self.opaque(o)),
            _ => e,
        }
    }

    /// What the expressions of a list become, one for one.
    pub open spec fn exprs(self, v: Seq<ExprView>) -> Seq<ExprView>
        decreases v,
    {
        Seq::new(
            v.len(),
            |i: int|
                if 0 <= i < v.len() {
                    self.expr(v[i])
                } else {
                    arbitrary()
                },
        )
    }

    /// What an argument becomes.
    pub open spec fn arg(self, a: ArgView) -> ArgView
        decreases a,
    {
        ArgView { spread: a.spread, expr: self.expr(a.expr) }
    }

    /// What the arguments of a list become, one for one.
    pub open spec fn args(self, v: Seq<ArgView>) -> Seq<ArgView>
        decreases v,
    {
        Seq::new(
            v.len(),
            |i: int|
                if 0 <= i < v.len() {
                    self.arg(v[i])
                } else {
                    arbitrary()
                },
        )
    }

    /// What a property becomes.
    pub open spec fn prop(self, p: PropView) -> PropView
        decreases p,
    {
        match p {
            PropView::Shorthand(_) => p,
            PropView::KeyValue { key, value } => PropView::KeyValue {
                key,
                value: self.expr(value),
            },
        }
    }

    /// What the properties of a list become, one for one.
    pub open spec fn props(self, v: Seq<PropView>) -> Seq<PropView>
        decreases v,
    {
        Seq::new(
            v.len(),
            |i: int|
                if 0 <= i < v.len() {
                    self.prop(v[i])
                } else {
                    arbitrary()
                },
        )
    }

    /// What a statement becomes. An expression statement whose expression
    /// has become the placeholder of an emptied-out expression becomes the
    /// empty statement.
    pub open spec fn stmt(self, s: StmtView) -> StmtView
        decreases s,
    {
        match s {
            StmtView::Empty => s,
            StmtView::Expr(e) => if self.expr(e) is Invalid {
                StmtView::Empty
            } else {
                StmtView::Expr(self.expr(e))
            },
            StmtView::Decl(d) => StmtView::Decl(self.decl(d)),
            StmtView::Other(o) => StmtView::Other(self.opaque(o)),
        }
    }

    /// What the statements of a list become, one for one.
    pub open spec fn stmts(self, v: Seq<StmtView>) -> Seq<StmtView>
        decreases v,
    {
        Seq::new(
            v.len(),
            |i: int|
                if 0 <= i < v.len() {
                    self.stmt(v[i])
                } else {
                    arbitrary()
                },
        )
    }

    /// What a declaration becomes.
    pub open spec fn decl(self, d: DeclView) -> DeclView
        decreases d,
    {
        match d {
            DeclView::Var { kind, declare, decls } => DeclView::Var {
                kind,
                declare,
                decls: self.declarators(decls),
            },
            DeclView::Fn { ident, declare, function } => DeclView::Fn {
                ident,
                declare,
                function: self.opaque(function),
            },
            DeclView::Class { ident, declare, class } => DeclView::Class {
                ident,
                declare,
                class: self.opaque(class),
            },
            DeclView::Other(o) => DeclView::Other(self.opaque(o)),
        }
    }

    /// What a declarator becomes.
    pub open spec fn declarator(self, d: VarDeclaratorView) -> VarDeclaratorView
        decreases d,
    {
        VarDeclaratorView {
            name: self.pat(d.name),
            init: match d.init {
                Some(e) => Some(self.expr(e)),
                None => None,
            },
            definite: d.definite,
        }
    }

    /// What the declarators of a list become, one for one.
    pub open spec fn declarators(self, v: Seq<VarDeclaratorView>) -> Seq<VarDeclaratorView>
        decreases v,
    {
        Seq::new(
            v.len(),
            |i: int|
                if 0 <= i < v.len() {
                    self.declarator(v[i])
                } else {
                    arbitrary()
                },
        )
    }

    /// What a pattern becomes.
    pub open spec fn pat(self, p: PatView) -> PatView
        decreases p,
    {
        match p {
            PatView::Ident(_) => p,
            PatView::Other(o) => PatView::Other(self.opaque(o)),
        }
    }

    /// What a module declaration becomes.
    pub open spec fn module_decl(self, d: ModuleDeclView) -> ModuleDeclView {
        match d {
            ModuleDeclView::ExportDecl(decl) => ModuleDeclView::ExportDecl(self.decl(decl)),
            ModuleDeclView::ExportDefaultDecl(DefaultDeclView::Class { ident, class }) => {
                ModuleDeclView::ExportDefaultDecl(
                    DefaultDeclView::Class { ident, class: self.opaque(class) },
                )
            },
            ModuleDeclView::ExportDefaultDecl(DefaultDeclView::Fn { ident, function }) => {
                ModuleDeclView::ExportDefaultDecl(
                    DefaultDeclView::Fn { ident, function: self.opaque(function) },
                )
            },
            ModuleDeclView::ExportDefaultDecl(DefaultDeclView::Other(o)) => {
                ModuleDeclView::ExportDefaultDecl(DefaultDeclView::Other(self.opaque(o)))
            },
            ModuleDeclView::ExportDefaultExpr(e) => ModuleDeclView::ExportDefaultExpr(self.expr(e)),
            ModuleDeclView::Other(o) => ModuleDeclView::Other(self.opaque(o)),
            _ => d,
        }
    }

    /// What an item becomes.
    pub open spec fn item(self, item: ModuleItemView) -> ModuleItemView {
        match item {
            ModuleItemView::ModuleDecl(d) => ModuleItemView::ModuleDecl(self.module_decl(d)),
            ModuleItemView::Stmt(s) => ModuleItemView::Stmt(self.stmt(s)),
        }
    }

    /// What the items of a list become, one for one.
    pub open spec fn items(self, v: Seq<ModuleItemView>) -> Seq<ModuleItemView> {
        Seq::new(v.len(), |i: int| self.item(v[i]))
    }
}

/// The name of the export that an assignment to `left` publishes.
fn export_name(left: &Expr) -> (r: Option<String>)
    ensures
        opt_string_view(r) == export_slot(left@),
{
    match left {
        Expr::Member { obj, prop } => {
            if obj.is_ident_ref_to("exports") {
                Some(prop.sym.clone())
            } else if obj.is_ident_ref_to("module") && prop.is_named("exports") {
                Some(String::from_str("default"))
            } else {
                None
            }
        },
        _ => None,
    }
}

/// Rewrites the CommonJS idioms of one module.
pub struct CommonJsTransformer<'a> {
    resolver: &'a ModuleResolver,
    module_name: String,
    runtime_module: bool,
    cjs_boundary_ident: Ident,
    exported: bool,
}

impl<'a> View for CommonJsTransformer<'a> {
    type V = CjsView;

    closed spec fn view(&self) -> CjsView {
        CjsView {
            rules: CjsRules {
                resolver: self.resolver@,
                module_name: self.module_name@,
                runtime_module: self.runtime_module,
                boundary: self.cjs_boundary_ident@,
            },
            exported: self.exported,
        }
    }
}

impl<'a> CommonJsTransformer<'a> {
    /// A transformer for the module registered as `module_name`, which has
    /// met nothing yet.
    pub fn new(resolver: &'a ModuleResolver, module_name: String, runtime_module: bool) -> (r:
        Self)
        ensures
            r@ == (CjsView {
                rules: CjsRules {
                    resolver: resolver@,
                    module_name: module_name@,
                    runtime_module,
                    boundary: IdentView { sym: "__cjs"@, mark: Mark::Boundary },
                },
                exported: false,
            }),
    {
        CommonJsTransformer {
            resolver,
            module_name,
            runtime_module,
            cjs_boundary_ident: private_ident("__cjs", Mark::Boundary),
            exported: false,
        }
    }

    /// Whether an assignment that publishes an export has been met.
    pub fn exported(&self) -> (b: bool)
        ensures
            b == self@.exported,
    {
        self.exported
    }

    /// Returns the expression that opens the export boundary of the module:
    /// `global.__modules.cjs('module_name')`.
    fn get_cjs_boundary(&self) -> (r: Expr)
        ensures
            r@ == registry_call(
                CJS_API_NAME@,
                seq![arg_of(ExprView::Str(self@.rules.module_name))],
            ),
    {
        let mut args: Vec<Arg> = Vec::new();
        args.push(Expr::Str(self.module_name.clone()).as_arg());
        assert(args_view(args) =~= seq![arg_of(ExprView::Str(self.module_name@))]);
        registry_member_expr(CJS_API_NAME).as_call(args)
    }

    /// Rewrites an opaque node: the expressions and the statements inside
    /// it.
    fn lower_opaque(&mut self, o: &Opaque) -> (r: Opaque)
        ensures
            r@ == old(self)@.rules.opaque(o@),
            final(self)@ == old(self)@.met(opaque_publishes(o@)),
        decreases o,
    {
        let exprs = self.lower_exprs(&o.exprs);
        let stmts = self.lower_stmts(&o.stmts);
        Opaque { node: o.node, exprs, stmts }
    }

    /// Rewrites an expression.
    fn lower_expr(&mut self, e: &Expr) -> (r: Expr)
        ensures
            r@ == old(self)@.rules.expr(e@),
            final(self)@ == old(self)@.met(expr_publishes(e@)),
        decreases e,
    {
        match e {
            Expr::Ident(i) => Expr::Ident(i.clone()),
            Expr::Str(s) => Expr::Str(s.clone()),
            Expr::Invalid => Expr::Invalid,
            Expr::Member { obj, prop } => {
                let obj = self.lower_expr(obj);
                Expr::Member { obj: Box::new(obj), prop: prop.clone() }
            },
            Expr::Call { callee, args, type_args } => {
                if self.runtime_module && type_args.is_none() && args.len() == 1
                    && callee.is_ident_ref_to("require") {
                    assert(args_view(*args)[0] == args[0]@);
                    if !args[0].spread {
                        match &args[0].expr {
                            Expr::Str(src) => {
                                let path = match self.resolver.to_actual_path(src, false) {
                                    Some(path) => path,
                                    None => src.clone(),
                                };
                                assert(!expr_publishes(callee@));
                                assert(!arg_publishes(args_view(*args)[0]));
                                assert(!args_publish(args_view(*args)));
                                return require_module_from_global(&path);
                            },
                            _ => {},
                        }
                    }
                }
                let callee = self.lower_expr(callee);
                let args = self.lower_args(args);
                Expr::Call { callee: Box::new(callee), args, type_args: *type_args }
            },
            Expr::Assign { op, left, right } => {
                let name = match op {
                    AssignOp::Assign => export_name(left),
                    AssignOp::Compound(_) => None,
                };
                let left = self.lower_expr(left);
                let right = self.lower_expr(right);
                match name {
                    Some(name) => {
                        self.exported = true;
                        let slot = obj_member_expr(
                            obj_member_expr(
                                Expr::Ident(self.cjs_boundary_ident.clone()),
                                quote_ident("exports"),
                            ),
                            quote_ident(name.as_str()),
                        );
                        right.make_assign_to(AssignOp::Assign, slot).make_assign_to(
                            AssignOp::Assign,
                            left,
                        )
                    },
                    None => Expr::Assign { op: *op, left: Box::new(left), right: Box::new(right) },
                }
            },
            Expr::Object(props) => Expr::Object(self.lower_props(props)),
            Expr::Sequence(exprs) => Expr::Sequence(self.lower_sequence(exprs)),
            Expr::Other(o) => Expr::Other(self.lower_opaque(o)),
        }
    }

    /// Rewrites the expressions of a list, one for one.
    fn lower_exprs(&mut self, v: &Vec<Expr>) -> (r: Vec<Expr>)
        ensures
            exprs_view(r) == old(self)@.rules.exprs(exprs_view(*v)),
            final(self)@ == old(self)@.met(exprs_publish(exprs_view(*v))),
        decreases v,
    {
        let ghost start = self@;
        let ghost views = exprs_view(*v);
        let mut out: Vec<Expr> = Vec::new();
        assert(exprs_view(out) =~= start.rules.exprs(views).take(0));
        let mut i: usize = 0;
        while i < v.len()
            invariant
                i <= v.len(),
                views == exprs_view(*v),
                self@ == start.met(exprs_publish(views.take(i as int))),
                exprs_view(out) == start.rules.exprs(views).take(i as int),
            decreases v.len() - i,
        {
            let item = self.lower_expr(&v[i]);
            proof {
                assert(views[i as int] == v[i as int]@);
                lemma_exprs_publish_take(views, i as int);
            }
            push_expr(&mut out, item);
            assert(exprs_view(out) =~= start.rules.exprs(views).take(i + 1));
            i += 1;
        }
        assert(views.take(v.len() as int) =~= views);
        assert(start.rules.exprs(views).take(v.len() as int) =~= start.rules.exprs(views));
        out
    }

    /// Rewrites the expressions of a sequence, and takes out those that have
    /// become the placeholder of an emptied-out expression.
    fn lower_sequence(&mut self, v: &Vec<Expr>) -> (r: Vec<Expr>)
        ensures
            exprs_view(r) == without_invalid(old(self)@.rules.exprs(exprs_view(*v))),
            final(self)@ == old(self)@.met(exprs_publish(exprs_view(*v))),
        decreases v,
    {
        let ghost start = self@;
        let ghost views = exprs_view(*v);
        let ghost mapped = start.rules.exprs(views);
        let mut out: Vec<Expr> = Vec::new();
        assert(exprs_view(out) =~= without_invalid(mapped.take(0)));
        let mut i: usize = 0;
        while i < v.len()
            invariant
                i <= v.len(),
                views == exprs_view(*v),
                mapped == start.rules.exprs(views),
                self@ == start.met(exprs_publish(views.take(i as int))),
                exprs_view(out) == without_invalid(mapped.take(i as int)),
            decreases v.len() - i,
        {
            let item = self.lower_expr(&v[i]);
            proof {
                assert(views[i as int] == v[i as int]@);
                lemma_exprs_publish_take(views, i as int);
            }
            assert(mapped.take(i + 1).drop_last() =~= mapped.take(i as int));
            if !item.is_invalid() {
                push_expr(&mut out, item);
            }
            i += 1;
        }
        assert(views.take(v.len() as int) =~= views);
        assert(mapped.take(v.len() as int) =~= mapped);
        out
    }

    /// Rewrites an argument.
    fn lower_arg(&mut self, a: &Arg) -> (r: Arg)
        ensures
            r@ == old(self)@.rules.arg(a@),
            final(self)@ == old(self)@.met(arg_publishes(a@)),
        decreases a,
    {
        Arg { spread: a.spread, expr: self.lower_expr(&a.expr) }
    }

    /// Rewrites the arguments of a list, one for one.
    fn lower_args(&mut self, v: &Vec<Arg>) -> (r: Vec<Arg>)
        ensures
            args_view(r) == old(self)@.rules.args(args_view(*v)),
            final(self)@ == old(self)@.met(args_publish(args_view(*v))),
        decreases v,
    {
        let ghost start = self@;
        let ghost views = args_view(*v);
        let mut out: Vec<Arg> = Vec::new();
        assert(args_view(out) =~= start.rules.args(views).take(0));
        let mut i: usize = 0;
        while i < v.len()
            invariant
                i <= v.len(),
                views == args_view(*v),
                self@ == start.met(args_publish(views.take(i as int))),
                args_view(out) == start.rules.args(views).take(i as int),
            decreases v.len() - i,
        {
            let item = self.lower_arg(&v[i]);
            proof {
                assert(views[i as int] == v[i as int]@);
                lemma_args_publish_take(views, i as int);
            }
            push_arg(&mut out, item);
            assert(args_view(out) =~= start.rules.args(views).take(i + 1));
            i += 1;
        }
        assert(views.take(v.len() as int) =~= views);
        assert(start.rules.args(views).take(v.len() as int) =~= start.rules.args(views));
        out
    }

    /// Rewrites a property.
    fn lower_prop(&mut self, p: &Prop) -> (r: Prop)
        ensures
            r@ == old(self)@.rules.prop(p@),
            final(self)@ == old(self)@.met(prop_publishes(p@)),
        decreases p,
    {
        match p {
            Prop::Shorthand(i) => Prop::Shorthand(i.clone()),
            Prop::KeyValue { key, value } => Prop::KeyValue {
                key: key.clone(),
                value: self.lower_expr(value),
            },
        }
    }

    /// Rewrites the properties of a list, one for one.
    fn lower_props(&mut self, v: &Vec<Prop>) -> (r: Vec<Prop>)
        ensures
            props_view(r) == old(self)@.rules.props(props_view(*v)),
            final(self)@ == old(self)@.met(props_publish(props_view(*v))),
        decreases v,
    {
        let ghost start = self@;
        let ghost views = props_view(*v);
        let mut out: Vec<Prop> = Vec::new();
        assert(props_view(out) =~= start.rules.props(views).take(0));
        let mut i: usize = 0;
        while i < v.len()
            invariant
                i <= v.len(),
                views == props_view(*v),
                self@ == start.met(props_publish(views.take(i as int))),
                props_view(out) == start.rules.props(views).take(i as int),
            decreases v.len() - i,
        {
            let item = self.lower_prop(&v[i]);
            proof {
                assert(views[i as int] == v[i as int]@);
                lemma_props_publish_take(views, i as int);
            }
            push_prop(&mut out, item);
            assert(props_view(out) =~= start.rules.props(views).take(i + 1));
            i += 1;
        }
        assert(views.take(v.len() as int) =~= views);
        assert(start.rules.props(views).take(v.len() as int) =~= start.rules.props(views));
        out
    }

    /// Rewrites a statement.
    fn lower_stmt(&mut self, s: &Stmt) -> (r: Stmt)
        ensures
            r@ == old(self)@.rules.stmt(s@),
            final(self)@ == old(self)@.met(stmt_publishes(s@)),
        decreases s,
    {
        match s {
            Stmt::Empty => Stmt::Empty,
            Stmt::Expr(e) => {
                let expr = self.lower_expr(e);
                if expr.is_invalid() {
                    Stmt::Empty
                } else {
                    Stmt::Expr(expr)
                }
            },
            Stmt::Decl(d) => Stmt::Decl(self.lower_decl(d)),
            Stmt::Other(o) => Stmt::Other(self.lower_opaque(o)),
        }
    }

    /// Rewrites the statements of a list, one for one.
    fn lower_stmts(&mut self, v: &Vec<Stmt>) -> (r: Vec<Stmt>)
        ensures
            stmts_view(r) == old(self)@.rules.stmts(stmts_view(*v)),
            final(self)@ == old(self)@.met(stmts_publish(stmts_view(*v))),
        decreases v,
    {
        let ghost start = self@;
        let ghost views = stmts_view(*v);
        let mut out: Vec<Stmt> = Vec::new();
        assert(stmts_view(out) =~= start.rules.stmts(views).take(0));
        let mut i: usize = 0;
        while i < v.len()
            invariant
                i <= v.len(),
                views == stmts_view(*v),
                self@ == start.met(stmts_publish(views.take(i as int))),
                stmts_view(out) == start.rules.stmts(views).take(i as int),
            decreases v.len() - i,
        {
            let item = self.lower_stmt(&v[i]);
            proof {
                assert(views[i as int] == v[i as int]@);
                lemma_stmts_publish_take(views, i as int);
            }
            push_stmt(&mut out, item);
            assert(stmts_view(out) =~= start.rules.stmts(views).take(i + 1));
            i += 1;
        }
        assert(views.take(v.len() as int) =~= views);
        assert(start.rules.stmts(views).take(v.len() as int) =~= start.rules.stmts(views));
        out
    }

    /// Rewrites a declaration.
    fn lower_decl(&mut self, d: &Decl) -> (r: Decl)
        ensures
            r@ == old(self)@.rules.decl(d@),
            final(self)@ == old(self)@.met(decl_publishes(d@)),
        decreases d,
    {
        match d {
            Decl::Var { kind, declare, decls } => Decl::Var {
                kind: *kind,
                declare: *declare,
                decls: self.lower_declarators(decls),
            },
            Decl::Fn { ident, declare, function } => Decl::Fn {
                ident: ident.clone(),
                declare: *declare,
                function: self.lower_opaque(function),
            },
            Decl::Class { ident, declare, class } => Decl::Class {
                ident: ident.clone(),
                declare: *declare,
                class: self.lower_opaque(class),
            },
            Decl::Other(o) => Decl::Other(self.lower_opaque(o)),
        }
    }

    /// Rewrites a declarator.
    fn lower_declarator(&mut self, d: &VarDeclarator) -> (r: VarDeclarator)
        ensures
            r@ == old(self)@.rules.declarator(d@),
            final(self)@ == old(self)@.met(declarator_publishes(d@)),
        decreases d,
    {
        let name = self.lower_pat(&d.name);
        let init = match &d.init {
            Some(e) => Some(self.lower_expr(e)),
            None => None,
        };
        VarDeclarator { name, init, definite: d.definite }
    }

    /// Rewrites the declarators of a list, one for one.
    fn lower_declarators(&mut self, v: &Vec<VarDeclarator>) -> (r: Vec<VarDeclarator>)
        ensures
            declarators_view(r) == old(self)@.rules.declarators(declarators_view(*v)),
            final(self)@ == old(self)@.met(declarators_publish(declarators_view(*v))),
        decreases v,
    {
        let ghost start = self@;
        let ghost views = declarators_view(*v);
        let mut out: Vec<VarDeclarator> = Vec::new();
        assert(declarators_view(out) =~= start.rules.declarators(views).take(0));
        let mut i: usize = 0;
        while i < v.len()
            invariant
                i <= v.len(),
                views == declarators_view(*v),
                self@ == start.met(declarators_publish(views.take(i as int))),
                declarators_view(out) == start.rules.declarators(views).take(i as int),
            decreases v.len() - i,
        {
            let item = self.lower_declarator(&v[i]);
            proof {
                assert(views[i as int] == v[i as int]@);
                lemma_declarators_publish_take(views, i as int);
            }
            push_declarator(&mut out, item);
            assert(declarators_view(out) =~= start.rules.declarators(views).take(i + 1));
            i += 1;
        }
        assert(views.take(v.len() as int) =~= views);
        assert(start.rules.declarators(views).take(v.len() as int) =~= start.rules.declarators(
            views,
        ));
        out
    }

    /// Rewrites a pattern.
    fn lower_pat(&mut self, p: &Pat) -> (r: Pat)
        ensures
            r@ == old(self)@.rules.pat(p@),
            final(self)@ == old(self)@.met(pat_publishes(p@)),
        decreases p,
    {
        match p {
            Pat::Ident(i) => Pat::Ident(i.clone()),
            Pat::Other(o) => Pat::Other(self.lower_opaque(o)),
        }
    }

    /// Rewrites a module declaration.
    fn lower_module_decl(&mut self, d: &ModuleDecl) -> (r: ModuleDecl)
        ensures
            r@ == old(self)@.rules.module_decl(d@),
            final(self)@ == old(self)@.met(module_decl_publishes(d@)),
    {
        match d {
            ModuleDecl::ExportDecl(decl) => ModuleDecl::ExportDecl(self.lower_decl(decl)),
            ModuleDecl::ExportDefaultDecl(DefaultDecl::Class { ident, class }) => {
                ModuleDecl::ExportDefaultDecl(
                    DefaultDecl::Class {
                        ident: clone_opt_ident(ident),
                        class: self.lower_opaque(class),
                    },
                )
            },
            ModuleDecl::ExportDefaultDecl(DefaultDecl::Fn { ident, function }) => {
                ModuleDecl::ExportDefaultDecl(
                    DefaultDecl::Fn {
                        ident: clone_opt_ident(ident),
                        function: self.lower_opaque(function),
                    },
                )
            },
            ModuleDecl::ExportDefaultDecl(DefaultDecl::Other(o)) => {
                ModuleDecl::ExportDefaultDecl(DefaultDecl::Other(self.lower_opaque(o)))
            },
            ModuleDecl::ExportDefaultExpr(e) => ModuleDecl::ExportDefaultExpr(self.lower_expr(e)),
            ModuleDecl::Other(o) => ModuleDecl::Other(self.lower_opaque(o)),
            _ => d.clone(),
        }
    }

    /// Rewrites an item.
    fn lower_item(&mut self, item: &ModuleItem) -> (r: ModuleItem)
        ensures
            r@ == old(self)@.rules.item(item@),
            final(self)@ == old(self)@.met(item_publishes(item@)),
    {
        match item {
            ModuleItem::ModuleDecl(d) => ModuleItem::ModuleDecl(self.lower_module_decl(d)),
            ModuleItem::Stmt(s) => ModuleItem::Stmt(self.lower_stmt(s)),
        }
    }

    /// Rewrites the items of a module. Where an assignment that publishes an
    /// export has been met, in these items or before, the declaration of the
    /// export boundary is put first: `const __cjs =
    /// global.__modules.cjs('module_name')`.
    pub fn visit_mut_module_items(&mut self, stmts: &mut Vec<ModuleItem>)
        ensures
            seq_view(*final(stmts)) == old(self)@.module_items(seq_view(*old(stmts))),
            final(self)@ == old(self)@.met(items_publish(seq_view(*old(stmts)))),
    {
        let ghost start = self@;
        let ghost views = seq_view(*stmts);
        let mut body: Vec<ModuleItem> = Vec::new();
        assert(seq_view(body) =~= start.rules.items(views).take(0));
        let mut i: usize = 0;
        while i < stmts.len()
            invariant
                i <= stmts.len(),
                views == seq_view(*stmts),
                self@ == start.met(items_publish(views.take(i as int))),
                seq_view(body) == start.rules.items(views).take(i as int),
            decreases stmts.len() - i,
        {
            let item = self.lower_item(&stmts[i]);
            proof {
                assert(views[i as int] == stmts[i as int]@);
                lemma_items_publish_take(views, i as int);
            }
            push_item(&mut body, item);
            assert(seq_view(body) =~= start.rules.items(views).take(i + 1));
            i += 1;
        }
        assert(views.take(stmts.len() as int) =~= views);
        assert(start.rules.items(views).take(stmts.len() as int) =~= start.rules.items(views));
        if self.exported {
            let cjs_boundary_expr = self.get_cjs_boundary();
            let boundary = ModuleItem::Stmt(
                decl_var_and_assign_stmt(&self.cjs_boundary_ident, cjs_boundary_expr),
            );
            let ghost rest = seq_view(body);
            body.insert(0, boundary);
            assert(seq_view(body) =~= seq![boundary@] + rest);
            *stmts = body;
        } else {
            *stmts = body;
        }
    }

    /// Rewrites a statement in place.
    pub fn visit_mut_stmt(&mut self, stmt: &mut Stmt)
        ensures
            final(stmt)@ == old(self)@.rules.stmt(old(stmt)@),
            final(self)@ == old(self)@.met(stmt_publishes(old(stmt)@)),
    {
        let lowered = self.lower_stmt(stmt);
        *stmt = lowered;
    }

    /// Rewrites the expressions of a sequence in place, and takes out those
    /// that have become the placeholder of an emptied-out expression.
    pub fn visit_mut_exprs(&mut self, exprs: &mut Vec<Expr>)
        ensures
            exprs_view(*final(exprs)) == without_invalid(
                old(self)@.rules.exprs(exprs_view(*old(exprs))),
            ),
            final(self)@ == old(self)@.met(exprs_publish(exprs_view(*old(exprs)))),
    {
        let lowered = self.lower_sequence(exprs);
        *exprs = lowered;
    }

    /// Rewrites an expression in place.
    pub fn visit_mut_expr(&mut self, expr: &mut Expr)
        ensures
            final(expr)@ == old(self)@.rules.expr(old(expr)@),
            final(self)@ == old(self)@.met(expr_publishes(old(expr)@)),
    {
        let lowered = self.lower_expr(expr);
        *expr = lowered;
    }
}

/// All the expressions of a list that holds no placeholder of an emptied-out
/// expression are kept.
pub proof fn lemma_without_invalid_keeps(v: Seq<ExprView>)
    requires
        forall|i: int| 0 <= i < v.len() ==> !((#[trigger] v[i]) is Invalid),
    ensures
        without_invalid(v) == v,
    decreases v.len(),
{
    if v.len() > 0 {
        assert forall|i: int| 0 <= i < v.drop_last().len() implies !((
        #[trigger] v.drop_last()[i]) is Invalid) by {
            assert(v.drop_last()[i] == v[i]);
        }
        lemma_without_invalid_keeps(v.drop_last());
        assert(v[v.len() - 1] == v.last());
        assert(v.drop_last().push(v.last()) =~= v);
    } else {
        assert(v =~= Seq::empty());
    }
}

impl CjsRules {
    /// Whether the rewriting passes over an opaque node: nothing inside it is
    /// a call that is lowered, and nothing is taken out of it.
    pub open spec fn opaque_stays(self, o: OpaqueView) -> bool
        decreases o,
    {
        self.exprs_stay(o.exprs) && self.stmts_stay(o.stmts)
    }

    /// Whether the rewriting passes over an expression: no call inside it
    /// requires a literal where `require` is lowered, and no sequence inside
    /// it holds the placeholder of an emptied-out expression.
    pub open spec fn expr_stays(self, e: ExprView) -> bool
        decreases e,
    {
        match e {
            ExprView::Member { obj, .. } => self.expr_stays(*obj),
            ExprView::Call { callee, args, .. } => !(self.runtime_module && required(e) is Some)
                && self.expr_stays(*callee) && self.args_stay(args),
            ExprView::Assign { left, right, .. } => self.expr_stays(*left) && self.expr_stays(
                *right,
            ),
            ExprView::Object(props) => self.props_stay(props),
            ExprView::Sequence(exprs) => self.exprs_stay(exprs) && forall|i: int|
                0 <= i < exprs.len() ==> !((#[trigger] exprs[i]) is Invalid),
            ExprView::Other(o) => self.opaque_stays(o),
            _ => true,
        }
    }

    /// Whether the rewriting passes over an argument.
    pub open spec fn arg_stays(self, a: ArgView) -> bool
        decreases a,
    {
        self.expr_stays(a.expr)
    }

    /// Whether the rewriting passes over a property.
    pub open spec fn prop_stays(self, p: PropView) -> bool
        decreases p,
    {
        match p {
            PropView::Shorthand(_) => true,
            PropView::KeyValue { value, .. } => self.expr_stays(value),
        }
    }

    /// Whether the rewriting passes over a statement: it passes over what is
    /// inside it, and the statement is no expression statement of the
    /// placeholder of an emptied-out expression.
    pub open spec fn stmt_stays(self, s: StmtView) -> bool
        decreases s,
    {
        match s {
            StmtView::Empty => true,
            StmtView::Expr(e) => self.expr_stays(e) && !(e is Invalid),
            StmtView::Decl(d) => self.decl_stays(d),
            StmtView::Other(o) => self.opaque_stays(o),
        }
    }

    /// Whether the rewriting passes over a declaration.
    pub open spec fn decl_stays(self, d: DeclView) -> bool
        decreases d,
    {
        match d {
            DeclView::Var { decls, .. } => self.declarators_stay(decls),
            DeclView::Fn { function, .. } => self.opaque_stays(function),
            DeclView::Class { class, .. } => self.opaque_stays(class),
            DeclView::Other(o) => self.opaque_stays(o),
        }
    }

    /// Whether the rewriting passes over a declarator.
    pub open spec fn declarator_stays(self, d: VarDeclaratorView) -> bool
        decreases d,
    {
        self.pat_stays(d.name) && match d.init {
            Some(e) => self.expr_stays(e),
            None => true,
        }
    }

    /// Whether the rewriting passes over a pattern.
    pub open spec fn pat_stays(self, p: PatView) -> bool
        decreases p,
    {
        match p {
            PatView::Ident(_) => true,
            PatView::Other(o) => self.opaque_stays(o),
        }
    }

    /// Whether the rewriting passes over all the expressions of a list.
    pub open spec fn exprs_stay(self, v: Seq<ExprView>) -> bool
        decreases v,
    {
        forall|i: int| 0 <= i < v.len() ==> self.expr_stays(#[trigger] v[i])
    }

    /// Whether the rewriting passes over all the arguments of a list.
    pub open spec fn args_stay(self, v: Seq<ArgView>) -> bool
        decreases v,
    {
        forall|i: int| 0 <= i < v.len() ==> self.arg_stays(#[trigger] v[i])
    }

    /// Whether the rewriting passes over all the properties of a list.
    pub open spec fn props_stay(self, v: Seq<PropView>) -> bool
        decreases v,
    {
        forall|i: int| 0 <= i < v.len() ==> self.prop_stays(#[trigger] v[i])
    }

    /// Whether the rewriting passes over all the statements of a list.
    pub open spec fn stmts_stay(self, v: Seq<StmtView>) -> bool
        decreases v,
    {
        forall|i: int| 0 <= i < v.len() ==> self.stmt_stays(#[trigger] v[i])
    }

    /// Whether the rewriting passes over all the declarators of a list.
    pub open spec fn declarators_stay(self, v: Seq<VarDeclaratorView>) -> bool
        decreases v,
    {
        forall|i: int| 0 <= i < v.len() ==> self.declarator_stays(#[trigger] v[i])
    }

    /// Whether the rewriting passes over a module declaration.
    pub open spec fn module_decl_stays(self, d: ModuleDeclView) -> bool {
        match d {
            ModuleDeclView::ExportDecl(decl) => self.decl_stays(decl),
            ModuleDeclView::ExportDefaultDecl(DefaultDeclView::Class { class, .. }) => {
                self.opaque_stays(class)
            },
            ModuleDeclView::ExportDefaultDecl(DefaultDeclView::Fn { function, .. }) => {
                self.opaque_stays(function)
            },
            ModuleDeclView::ExportDefaultDecl(DefaultDeclView::Other(o)) => self.opaque_stays(o),
            ModuleDeclView::ExportDefaultExpr(e) => self.expr_stays(e),
            ModuleDeclView::Other(o) => self.opaque_stays(o),
            _ => true,
        }
    }

    /// Whether the rewriting passes over an item.
    pub open spec fn item_stays(self, item: ModuleItemView) -> bool {
        match item {
            ModuleItemView::ModuleDecl(d) => self.module_decl_stays(d),
            ModuleItemView::Stmt(s) => self.stmt_stays(s),
        }
    }

    /// Whether the rewriting passes over all the items of a list.
    pub open spec fn items_stay(self, v: Seq<ModuleItemView>) -> bool {
        forall|i: int| 0 <= i < v.len() ==> self.item_stays(#[trigger] v[i])
    }

    /// An opaque node that the rewriting passes over is left as it is.
    pub proof fn lemma_opaque_stays(self, o: OpaqueView)
        requires
            self.opaque_stays(o),
            !opaque_publishes(o),
        ensures
            self.opaque(o) == o,
        decreases o,
    {
        self.lemma_exprs_stay(o.exprs);
        self.lemma_stmts_stay(o.stmts);
    }

    /// An expression that the rewriting passes over is left as it is: where
    /// no call requires a literal, no assignment publishes an export and no
    /// sequence holds a placeholder, nothing changes.
    pub proof fn lemma_expr_stays(self, e: ExprView)
        requires
            self.expr_stays(e),
            !expr_publishes(e),
        ensures
            self.expr(e) == e,
        decreases e,
    {
        match e {
            ExprView::Member { obj, .. } => {
                self.lemma_expr_stays(*obj);
            },
            ExprView::Call { callee, args, .. } => {
                self.lemma_expr_stays(*callee);
                self.lemma_args_stay(args);
            },
            ExprView::Assign { left, right, .. } => {
                self.lemma_expr_stays(*left);
                self.lemma_expr_stays(*right);
            },
            ExprView::Object(props) => {
                self.lemma_props_stay(props);
            },
            ExprView::Sequence(exprs) => {
                self.lemma_exprs_stay(exprs);
                lemma_without_invalid_keeps(exprs);
            },
            ExprView::Other(o) => {
                self.lemma_opaque_stays(o);
            },
            _ => {},
        }
    }

    /// An argument that the rewriting passes over is left as it is.
    pub proof fn lemma_arg_stays(self, a: ArgView)
        requires
            self.arg_stays(a),
            !arg_publishes(a),
        ensures
            self.arg(a) == a,
        decreases a,
    {
        self.lemma_expr_stays(a.expr);
    }

    /// A property that the rewriting passes over is left as it is.
    pub proof fn lemma_prop_stays(self, p: PropView)
        requires
            self.prop_stays(p),
            !prop_publishes(p),
        ensures
            self.prop(p) == p,
        decreases p,
    {
        match p {
            PropView::Shorthand(_) => {},
            PropView::KeyValue { value, .. } => {
                self.lemma_expr_stays(value);
            },
        }
    }

    /// A statement that the rewriting passes over is left as it is.
    pub proof fn lemma_stmt_stays(self, s: StmtView)
        requires
            self.stmt_stays(s),
            !stmt_publishes(s),
        ensures
            self.stmt(s) == s,
        decreases s,
    {
        match s {
            StmtView::Empty => {},
            StmtView::Expr(e) => {
                self.lemma_expr_stays(e);
            },
            StmtView::Decl(d) => {
                self.lemma_decl_stays(d);
            },
            StmtView::Other(o) => {
                self.lemma_opaque_stays(o);
            },
        }
    }

    /// A declaration that the rewriting passes over is left as it is.
    pub proof fn lemma_decl_stays(self, d: DeclView)
        requires
            self.decl_stays(d),
            !decl_publishes(d),
        ensures
            self.decl(d) == d,
        decreases d,
    {
        match d {
            DeclView::Var { decls, .. } => {
                self.lemma_declarators_stay(decls);
            },
            DeclView::Fn { function, .. } => {
                self.lemma_opaque_stays(function);
            },
            DeclView::Class { class, .. } => {
                self.lemma_opaque_stays(class);
            },
            DeclView::Other(o) => {
                self.lemma_opaque_stays(o);
            },
        }
    }

    /// A declarator that the rewriting passes over is left as it is.
    pub proof fn lemma_declarator_stays(self, d: VarDeclaratorView)
        requires
            self.declarator_stays(d),
            !declarator_publishes(d),
        ensures
            self.declarator(d) == d,
        decreases d,
    {
        self.lemma_pat_stays(d.name);
        match d.init {
            Some(e) => {
                self.lemma_expr_stays(e);
            },
            None => {},
        }
    }

    /// A pattern that the rewriting passes over is left as it is.
    pub proof fn lemma_pat_stays(self, p: PatView)
        requires
            self.pat_stays(p),
            !pat_publishes(p),
        ensures
            self.pat(p) == p,
        decreases p,
    {
        match p {
            PatView::Ident(_) => {},
            PatView::Other(o) => {
                self.lemma_opaque_stays(o);
            },
        }
    }

    /// The expressions that the rewriting passes over are left as they are.
    pub proof fn lemma_exprs_stay(self, v: Seq<ExprView>)
        requires
            self.exprs_stay(v),
            !exprs_publish(v),
        ensures
            self.exprs(v) == v,
        decreases v,
    {
        assert forall|i: int| 0 <= i < v.len() implies #[trigger] self.exprs(v)[i] == v[i] by {
            assert(self.expr_stays(v[i]));
            assert(!expr_publishes(v[i]));
            self.lemma_expr_stays(v[i]);
        }
        assert(self.exprs(v) =~= v);
    }

    /// The arguments that the rewriting passes over are left as they are.
    pub proof fn lemma_args_stay(self, v: Seq<ArgView>)
        requires
            self.args_stay(v),
            !args_publish(v),
        ensures
            self.args(v) == v,
        decreases v,
    {
        assert forall|i: int| 0 <= i < v.len() implies #[trigger] self.args(v)[i] == v[i] by {
            assert(self.arg_stays(v[i]));
            assert(!arg_publishes(v[i]));
            self.lemma_arg_stays(v[i]);
        }
        assert(self.args(v) =~= v);
    }

    /// The properties that the rewriting passes over are left as they are.
    pub proof fn lemma_props_stay(self, v: Seq<PropView>)
        requires
            self.props_stay(v),
            !props_publish(v),
        ensures
            self.props(v) == v,
        decreases v,
    {
        assert forall|i: int| 0 <= i < v.len() implies #[trigger] self.props(v)[i] == v[i] by {
            assert(self.prop_stays(v[i]));
            assert(!prop_publishes(v[i]));
            self.lemma_prop_stays(v[i]);
        }
        assert(self.props(v) =~= v);
    }

    /// The statements that the rewriting passes over are left as they are.
    pub proof fn lemma_stmts_stay(self, v: Seq<StmtView>)
        requires
            self.stmts_stay(v),
            !stmts_publish(v),
        ensures
            self.stmts(v) == v,
        decreases v,
    {
        assert forall|i: int| 0 <= i < v.len() implies #[trigger] self.stmts(v)[i] == v[i] by {
            assert(self.stmt_stays(v[i]));
            assert(!stmt_publishes(v[i]));
            self.lemma_stmt_stays(v[i]);
        }
        assert(self.stmts(v) =~= v);
    }

    /// The declarators that the rewriting passes over are left as they are.
    pub proof fn lemma_declarators_stay(self, v: Seq<VarDeclaratorView>)
        requires
            self.declarators_stay(v),
            !declarators_publish(v),
        ensures
            self.declarators(v) == v,
        decreases v,
    {
        assert forall|i: int| 0 <= i < v.len() implies #[trigger] self.declarators(v)[i]
            == v[i] by {
            assert(self.declarator_stays(v[i]));
            assert(!declarator_publishes(v[i]));
            self.lemma_declarator_stays(v[i]);
        }
        assert(self.declarators(v) =~= v);
    }

    /// An item that the rewriting passes over is left as it is.
    pub proof fn lemma_item_stays(self, item: ModuleItemView)
        requires
            self.item_stays(item),
            !item_publishes(item),
        ensures
            self.item(item) == item,
    {
        match item {
            ModuleItemView::ModuleDecl(d) => match d {
                ModuleDeclView::ExportDecl(decl) => {
                    self.lemma_decl_stays(decl);
                },
                ModuleDeclView::ExportDefaultDecl(DefaultDeclView::Class { class, .. }) => {
                    self.lemma_opaque_stays(class);
                },
                ModuleDeclView::ExportDefaultDecl(DefaultDeclView::Fn { function, .. }) => {
                    self.lemma_opaque_stays(function);
                },
                ModuleDeclView::ExportDefaultDecl(DefaultDeclView::Other(o)) => {
                    self.lemma_opaque_stays(o);
                },
                ModuleDeclView::ExportDefaultExpr(e) => {
                    self.lemma_expr_stays(e);
                },
                ModuleDeclView::Other(o) => {
                    self.lemma_opaque_stays(o);
                },
                _ => {},
            },
            ModuleItemView::Stmt(s) => {
                self.lemma_stmt_stays(s);
            },
        }
    }
}

impl CjsRules {
    /// A CommonJS assignment is preserved: an assignment that publishes an
    /// export becomes the assignment, to the same target, of the value that
    /// the assignment to the export's slot in the boundary gives. So the
    /// slot is updated, and the target holds the same value afterwards.
    pub proof fn lemma_published_assignment_is_preserved(self, e: ExprView)
        requires
            published(e) is Some,
        ensures
            self.expr(e) == assign_of(
                AssignOp::Assign,
                *e->Assign_left,
                assign_of(
                    AssignOp::Assign,
                    self.boundary_slot(published(e)->0),
                    self.expr(*e->Assign_right),
                ),
            ),
    {
        let left = *e->Assign_left;
        assert(left is Member);
        let obj = *left->Member_obj;
        assert(obj is Ident);
        assert(self.expr(obj) == obj);
        assert(self.expr(left) == left);
    }
}

impl CjsView {
    /// What does not match is left untouched: where no call in the items of a
    /// module requires a literal, no assignment publishes an export, nothing
    /// is the placeholder of an emptied-out expression and no export has
    /// been published before, the module is left as it is.
    pub proof fn lemma_module_without_idioms_stays(self, v: Seq<ModuleItemView>)
        requires
            self.rules.items_stay(v),
            !items_publish(v),
            !self.exported,
        ensures
            self.module_items(v) == v,
    {
        assert forall|i: int| 0 <= i < v.len() implies #[trigger] self.rules.items(v)[i]
            == v[i] by {
            assert(self.rules.item_stays(v[i]));
            assert(!item_publishes(v[i]));
            self.rules.lemma_item_stays(v[i]);
        }
        assert(self.rules.items(v) =~= v);
    }
}

} // verus!
