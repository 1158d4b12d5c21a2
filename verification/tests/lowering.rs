use swc_global_module::ast::{
    Arg, AssignOp, Decl, Expr, Opaque, Pat, Prop, Stmt, VarDeclKind, VarDeclarator,
};
use swc_global_module::cjs_transformer::CommonJsTransformer;
use swc_global_module::config::GlobalModuleOptions;
use swc_global_module::ident::{Ident, Mark};
use swc_global_module::module::{
    DefaultDecl, ExportAll, ExportSpecifier, ImportDecl, ImportPhase, ImportSpecifier, Module,
    ModuleDecl, ModuleExportName, ModuleItem, NamedExport,
};
use swc_global_module::module_collector_esm::{
    ExportModule, ImportModule, ModuleType, Unsupported,
};
use swc_global_module::module_resolver::ModuleResolver;
use swc_global_module::{global_module, GlobalModuleTransformer};

fn text(s: &str) -> String {
    s.to_string()
}

fn source(sym: &str) -> Ident {
    Ident { sym: text(sym), mark: Mark::Source(1) }
}

fn plain(sym: &str) -> Ident {
    Ident { sym: text(sym), mark: Mark::Plain }
}

fn private(sym: &str, mark: Mark) -> Ident {
    Ident { sym: text(sym), mark }
}

fn name(sym: &str) -> ModuleExportName {
    ModuleExportName::Ident(source(sym))
}

fn ident(sym: &str) -> Expr {
    Expr::Ident(source(sym))
}

fn string(s: &str) -> Expr {
    Expr::Str(text(s))
}

fn member(obj: Expr, prop: &str) -> Expr {
    Expr::Member { obj: Box::new(obj), prop: plain(prop) }
}

fn arg(expr: Expr) -> Arg {
    Arg { spread: false, expr }
}

fn call(callee: Expr, args: Vec<Expr>) -> Expr {
    Expr::Call {
        callee: Box::new(callee),
        args: args.into_iter().map(arg).collect(),
        type_args: None,
    }
}

fn assign(left: Expr, right: Expr) -> Expr {
    Expr::Assign { op: AssignOp::Assign, left: Box::new(left), right: Box::new(right) }
}

fn registry(name: &str) -> Expr {
    member(member(Expr::Ident(plain("global")), "__modules"), name)
}

fn constant(ident: Ident, init: Expr) -> ModuleItem {
    ModuleItem::Stmt(Stmt::Decl(Decl::Var {
        kind: VarDeclKind::Const,
        declare: false,
        decls: vec![VarDeclarator { name: Pat::Ident(ident), init: Some(init), definite: false }],
    }))
}

fn statement(expr: Expr) -> ModuleItem {
    ModuleItem::Stmt(Stmt::Expr(expr))
}

fn opaque(node: u64) -> Opaque {
    Opaque { node, exprs: vec![], stmts: vec![] }
}

fn number(node: u64) -> Expr {
    Expr::Other(opaque(node))
}

fn import(specifiers: Vec<ImportSpecifier>, src: &str) -> ModuleItem {
    ModuleItem::ModuleDecl(ModuleDecl::Import(ImportDecl {
        specifiers,
        src: text(src),
        type_only: false,
        attributes: None,
        phase: ImportPhase::Evaluation,
    }))
}

fn named_export(specifiers: Vec<ExportSpecifier>, src: Option<&str>) -> ModuleItem {
    ModuleItem::ModuleDecl(ModuleDecl::ExportNamed(NamedExport {
        specifiers,
        src: src.map(text),
        type_only: false,
        attributes: None,
    }))
}

fn clause(orig: &str, exported: Option<&str>) -> ExportSpecifier {
    ExportSpecifier::Named { orig: name(orig), exported: exported.map(name), is_type_only: false }
}

fn esm(props: Vec<Prop>, wildcards: Vec<Expr>) -> ModuleItem {
    let mut args = vec![string("test.js"), Expr::Object(props)];
    args.extend(wildcards);
    statement(call(registry("esm"), args))
}

fn boundary() -> Ident {
    private("__cjs", Mark::Boundary)
}

fn boundary_decl() -> ModuleItem {
    constant(boundary(), call(registry("cjs"), vec![string("test.js")]))
}

fn published(target: Expr, slot: &str, value: Expr) -> Expr {
    assign(target, assign(member(member(Expr::Ident(boundary()), "exports"), slot), value))
}

fn transformer(
    runtime_module: bool,
    external: Option<&str>,
    ids: Option<Vec<(&str, &str)>>,
) -> GlobalModuleTransformer {
    global_module(
        text("test.js"),
        runtime_module,
        external.map(text),
        ids.map(|pairs| pairs.into_iter().map(|(k, v)| (text(k), text(v))).collect()),
    )
    .ok()
    .unwrap()
}

fn lower_with(
    body: Vec<ModuleItem>,
    runtime_module: bool,
    external: Option<&str>,
    ids: Option<Vec<(&str, &str)>>,
) -> Vec<ModuleItem> {
    let mut t = transformer(runtime_module, external, ids);
    let mut module = Module { body };
    assert_eq!(t.visit_mut_module(&mut module), Ok(()));
    module.body
}

fn lower(body: Vec<ModuleItem>, runtime_module: bool) -> Vec<ModuleItem> {
    lower_with(body, runtime_module, None, None)
}

fn rewrite(expr: Expr, runtime_module: bool) -> (Expr, bool) {
    let resolver = ModuleResolver::new(None, Some(vec![(text("react"), text("12345"))]))
        .ok()
        .unwrap();
    let mut cjs = CommonJsTransformer::new(&resolver, text("test.js"), runtime_module);
    let mut expr = expr;
    cjs.visit_mut_expr(&mut expr);
    (expr, cjs.exported())
}

#[test]
fn renamed_export_is_keyed_by_its_new_name() {
    let out = lower(vec![named_export(vec![clause("a", Some("b"))], None)], true);
    assert_eq!(
        out,
        vec![esm(vec![Prop::KeyValue { key: plain("b"), value: ident("a") }], vec![])]
    );
}

#[test]
fn export_under_its_own_name_is_shorthand() {
    let out = lower(vec![named_export(vec![clause("a", None)], None)], true);
    assert_eq!(out, vec![esm(vec![Prop::Shorthand(source("a"))], vec![])]);
    let out = lower(vec![named_export(vec![clause("a", Some("a"))], None)], true);
    assert_eq!(out, vec![esm(vec![Prop::Shorthand(source("a"))], vec![])]);
}

#[test]
fn anonymous_default_function_gets_a_private_name() {
    let body = vec![ModuleItem::ModuleDecl(ModuleDecl::ExportDefaultDecl(DefaultDecl::Fn {
        ident: None,
        function: opaque(7),
    }))];
    let out = lower(body, true);
    let name = private("__fn", Mark::Export(0));
    assert_eq!(
        out,
        vec![
            ModuleItem::Stmt(Stmt::Decl(Decl::Fn {
                ident: name.clone(),
                declare: false,
                function: opaque(7),
            })),
            esm(vec![Prop::KeyValue { key: plain("default"), value: Expr::Ident(name) }], vec![]),
        ]
    );
}

#[test]
fn external_source_bypasses_the_registry_import() {
    let body = vec![import(vec![ImportSpecifier::Default { local: source("React") }], "react")];
    let out = lower_with(body, true, Some("^react$"), None);
    let module = private("_react", Mark::Module(0));
    assert_eq!(
        out,
        vec![
            constant(module.clone(), call(registry("external"), vec![string("react")])),
            constant(source("React"), member(Expr::Ident(module), "default")),
        ]
    );
}

#[test]
fn external_source_is_handed_to_the_registry_once_where_imports_stay() {
    let first = import(vec![ImportSpecifier::Default { local: source("React") }], "react");
    let second = import(
        vec![ImportSpecifier::Named {
            local: source("useState"),
            imported: None,
            is_type_only: false,
        }],
        "react",
    );
    let local = import(vec![ImportSpecifier::Default { local: source("x") }], "./x");
    let out = lower_with(
        vec![first.clone(), local.clone(), second.clone()],
        false,
        Some("^react$"),
        None,
    );
    let external = private("__external", Mark::External(0));
    assert_eq!(
        out,
        vec![
            import(vec![ImportSpecifier::Namespace { local: external.clone() }], "react"),
            statement(call(registry("external"), vec![string("react"), Expr::Ident(external)])),
            first,
            local,
            second,
        ]
    );
}

#[test]
fn every_external_source_gets_its_own_binding_where_imports_stay() {
    let body = vec![
        import(vec![ImportSpecifier::Default { local: source("a") }], "react"),
        import(vec![ImportSpecifier::Default { local: source("b") }], "react-native"),
    ];
    let out = lower_with(body.clone(), false, Some("^(react|react-native)"), None);
    let first = private("__external", Mark::External(0));
    let second = private("__external", Mark::External(1));
    assert_eq!(
        out,
        vec![
            import(vec![ImportSpecifier::Namespace { local: first.clone() }], "react"),
            statement(call(registry("external"), vec![string("react"), Expr::Ident(first)])),
            import(vec![ImportSpecifier::Namespace { local: second.clone() }], "react-native"),
            statement(call(
                registry("external"),
                vec![string("react-native"), Expr::Ident(second)]
            )),
            body[0].clone(),
            body[1].clone(),
        ]
    );
}

#[test]
fn commonjs_assignment_is_published_and_preserved() {
    let target = member(ident("exports"), "foo");
    let out = lower(vec![statement(assign(target.clone(), number(3)))], true);
    assert_eq!(out, vec![boundary_decl(), statement(published(target, "foo", number(3)))]);
}

#[test]
fn specifier_imported_in_every_form_is_bound_once() {
    let body = vec![
        import(vec![ImportSpecifier::Default { local: source("A") }], "x"),
        import(
            vec![
                ImportSpecifier::Named { local: source("b"), imported: None, is_type_only: false },
                ImportSpecifier::Named {
                    local: source("d"),
                    imported: Some(name("c")),
                    is_type_only: false,
                },
            ],
            "x",
        ),
        import(vec![ImportSpecifier::Namespace { local: source("ns") }], "x"),
        import(vec![ImportSpecifier::Default { local: source("Y") }], "y"),
    ];
    let out = lower(body, true);
    let x = private("_x", Mark::Module(0));
    let y = private("_y", Mark::Module(1));
    assert_eq!(
        out,
        vec![
            constant(x.clone(), call(registry("import"), vec![string("x")])),
            constant(y.clone(), call(registry("import"), vec![string("y")])),
            constant(source("A"), member(Expr::Ident(x.clone()), "default")),
            constant(source("b"), member(Expr::Ident(x.clone()), "b")),
            constant(source("d"), member(Expr::Ident(x.clone()), "c")),
            constant(
                source("ns"),
                call(member(registry("helpers"), "asWildcard"), vec![Expr::Ident(x)])
            ),
            constant(source("Y"), member(Expr::Ident(y), "default")),
        ]
    );
    let lookups = out
        .iter()
        .filter(|item| **item == constant(
            private("_x", Mark::Module(0)),
            call(registry("import"), vec![string("x")])
        ))
        .count();
    assert_eq!(lookups, 1);
}

#[test]
fn registered_modules_are_bound_in_the_order_of_their_first_import() {
    let body = vec![
        import(vec![ImportSpecifier::Default { local: source("z") }], "zeta"),
        import(vec![ImportSpecifier::Default { local: source("a") }], "alpha"),
    ];
    let out = lower(body, true);
    assert_eq!(
        out[..2],
        [
            constant(
                private("_zeta", Mark::Module(0)),
                call(registry("import"), vec![string("zeta")])
            ),
            constant(
                private("_alpha", Mark::Module(1)),
                call(registry("import"), vec![string("alpha")])
            ),
        ]
    );
}

#[test]
fn remapped_specifier_is_fetched_by_its_path() {
    let body = vec![import(vec![ImportSpecifier::Default { local: source("React") }], "react")];
    let out = lower_with(body.clone(), true, None, Some(vec![("react", "12345")]));
    let module = private("_react", Mark::Module(0));
    assert_eq!(
        out,
        vec![
            constant(module.clone(), call(registry("import"), vec![string("12345")])),
            constant(source("React"), member(Expr::Ident(module.clone()), "default")),
        ]
    );
    let out = lower_with(body, true, Some("^react$"), Some(vec![("react", "12345")]));
    assert_eq!(
        out,
        vec![
            constant(module.clone(), call(registry("external"), vec![string("react")])),
            constant(source("React"), member(Expr::Ident(module), "default")),
        ]
    );
}

#[test]
fn every_export_has_its_place_in_the_registration() {
    let body = vec![
        ModuleItem::ModuleDecl(ModuleDecl::ExportDefaultExpr(ident("v"))),
        named_export(vec![clause("a", None), clause("b", Some("c"))], None),
        ModuleItem::ModuleDecl(ModuleDecl::ExportAll(ExportAll {
            src: text("x"),
            type_only: false,
            attributes: None,
        })),
        named_export(vec![clause("default", Some("d"))], Some("y")),
        ModuleItem::ModuleDecl(ModuleDecl::ExportAll(ExportAll {
            src: text("y"),
            type_only: false,
            attributes: None,
        })),
    ];
    let out = lower(body, true);
    let default = private("__export_default", Mark::Export(0));
    let all_x = private("__re_export_all", Mark::Export(3));
    let d = private("__re_export", Mark::Export(4));
    let all_y = private("__re_export_all", Mark::Export(5));
    let x = private("_x", Mark::Module(0));
    let y = private("_y", Mark::Module(1));
    assert_eq!(
        out,
        vec![
            constant(x.clone(), call(registry("import"), vec![string("x")])),
            constant(y.clone(), call(registry("import"), vec![string("y")])),
            constant(
                all_x.clone(),
                call(member(registry("helpers"), "asWildcard"), vec![Expr::Ident(x)])
            ),
            constant(d.clone(), member(Expr::Ident(y.clone()), "default")),
            constant(
                all_y.clone(),
                call(member(registry("helpers"), "asWildcard"), vec![Expr::Ident(y)])
            ),
            constant(default.clone(), ident("v")),
            esm(
                vec![
                    Prop::KeyValue { key: plain("default"), value: Expr::Ident(default) },
                    Prop::Shorthand(source("a")),
                    Prop::KeyValue { key: plain("c"), value: ident("b") },
                    Prop::KeyValue { key: plain("d"), value: Expr::Ident(d) },
                ],
                vec![Expr::Ident(all_x), Expr::Ident(all_y)],
            ),
        ]
    );
}

#[test]
fn re_export_is_fed_by_an_import_declaration_where_exports_stay() {
    let body = vec![named_export(vec![clause("a", None), clause("default", Some("b"))], Some("x"))];
    let out = lower(body.clone(), false);
    let a = private("__re_export", Mark::Export(0));
    let b = private("__re_export", Mark::Export(1));
    assert_eq!(
        out,
        vec![
            import(
                vec![ImportSpecifier::Named {
                    local: a.clone(),
                    imported: Some(name("a")),
                    is_type_only: false,
                }],
                "x"
            ),
            import(vec![ImportSpecifier::Default { local: b.clone() }], "x"),
            body[0].clone(),
            esm(
                vec![
                    Prop::KeyValue { key: plain("a"), value: Expr::Ident(a) },
                    Prop::KeyValue { key: plain("b"), value: Expr::Ident(b) },
                ],
                vec![],
            ),
        ]
    );
}

#[test]
fn namespace_re_export_is_adapted_from_the_module_object() {
    let body =
        vec![named_export(vec![ExportSpecifier::Namespace { name: name("ns") }], Some("x"))];
    let out = lower(body.clone(), true);
    let ns = private("__re_export", Mark::Export(0));
    let x = private("_x", Mark::Module(0));
    assert_eq!(
        out,
        vec![
            constant(x.clone(), call(registry("import"), vec![string("x")])),
            constant(
                ns.clone(),
                call(member(registry("helpers"), "asWildcard"), vec![Expr::Ident(x)])
            ),
            esm(vec![Prop::KeyValue { key: plain("ns"), value: Expr::Ident(ns.clone()) }], vec![]),
        ]
    );
    let out = lower(body.clone(), false);
    assert_eq!(
        out,
        vec![
            import(vec![ImportSpecifier::Namespace { local: ns.clone() }], "x"),
            body[0].clone(),
            esm(vec![Prop::KeyValue { key: plain("ns"), value: Expr::Ident(ns) }], vec![]),
        ]
    );
}

#[test]
fn module_with_an_export_is_not_handed_to_the_commonjs_transformer() {
    let assignment = statement(assign(member(ident("exports"), "foo"), number(3)));
    let require = statement(call(ident("require"), vec![string("a")]));
    let body =
        vec![assignment.clone(), require.clone(), named_export(vec![clause("a", None)], None)];
    let out = lower(body, true);
    assert_eq!(out, vec![assignment, require, esm(vec![Prop::Shorthand(source("a"))], vec![])]);
}

#[test]
fn module_without_an_export_is_handed_to_the_commonjs_transformer() {
    let body = vec![
        import(vec![ImportSpecifier::Default { local: source("A") }], "x"),
        statement(assign(
            member(ident("module"), "exports"),
            call(ident("require"), vec![string("a")]),
        )),
    ];
    let out = lower(body, true);
    let x = private("_x", Mark::Module(0));
    assert_eq!(
        out,
        vec![
            boundary_decl(),
            constant(x.clone(), call(registry("import"), vec![string("x")])),
            constant(source("A"), member(Expr::Ident(x), "default")),
            statement(published(
                member(ident("module"), "exports"),
                "default",
                call(registry("require"), vec![string("a")])
            )),
        ]
    );
}

#[test]
fn lowering_the_same_module_twice_gives_the_same_module() {
    let body = vec![
        import(vec![ImportSpecifier::Default { local: source("A") }], "x"),
        named_export(vec![clause("default", Some("b"))], Some("react")),
        ModuleItem::ModuleDecl(ModuleDecl::ExportDefaultDecl(DefaultDecl::Class {
            ident: None,
            class: opaque(2),
        })),
        statement(assign(member(ident("exports"), "foo"), number(3))),
    ];
    for runtime_module in [true, false] {
        let first = lower_with(body.clone(), runtime_module, Some("^react$"), None);
        let second = lower_with(body.clone(), runtime_module, Some("^react$"), None);
        assert_eq!(first, second);
    }
}

#[test]
fn unsupported_construct_leaves_the_module_as_it_is() {
    let body = vec![
        import(vec![ImportSpecifier::Default { local: source("A") }], "x"),
        named_export(vec![ExportSpecifier::Default { binding: source("v") }], Some("y")),
    ];
    let mut t = transformer(true, None, None);
    let mut module = Module { body: body.clone() };
    assert_eq!(t.visit_mut_module(&mut module), Err(Unsupported::ExportClause));
    assert_eq!(module, Module { body });
    assert_eq!(t.resolver().registered_idents(), &vec![]);
}

#[test]
fn nothing_is_emitted_for_a_module_without_imports_and_exports() {
    let stmt = statement(call(ident("f"), vec![number(1)]));
    assert_eq!(lower(vec![stmt.clone()], true), vec![stmt.clone()]);
    assert_eq!(lower(vec![stmt.clone()], false), vec![stmt]);
    assert_eq!(lower(vec![], true), vec![]);
}

#[test]
fn no_exports_give_no_registration() {
    let t = transformer(true, None, None);
    assert_eq!(t.convert_esm_export(&vec![]), vec![]);
    assert_eq!(
        t.convert_esm_export(&vec![ExportModule::all(source("n"), None)]),
        vec![esm(vec![], vec![ident("n")])]
    );
    assert_eq!(
        t.convert_esm_export(&vec![ExportModule {
            ident: source("n"),
            as_ident: Some(source("m")),
            module_type: ModuleType::DefaultAsNamed,
        }]),
        vec![esm(vec![Prop::KeyValue { key: plain("default"), value: ident("n") }], vec![])]
    );
}

#[test]
fn plain_import_emits_nothing_where_imports_stay() {
    let mut t = transformer(false, Some("^react$"), None);
    let records = vec![
        ImportModule::default(source("a"), None, text("./a")),
        ImportModule::named(source("b"), None, text("./b")).re_exported(),
    ];
    assert_eq!(
        t.convert_esm_import(&records),
        vec![import(
            vec![ImportSpecifier::Named {
                local: source("b"),
                imported: None,
                is_type_only: false,
            }],
            "./b"
        )]
    );
    assert_eq!(t.resolver().registered_idents(), &vec![]);
}

#[test]
fn external_source_is_offered_once() {
    let mut t = transformer(false, Some("^react$"), None);
    let mut stmts = vec![];
    assert!(!t.register_external_module(&mut stmts, &text("./local")));
    assert_eq!(stmts, vec![]);
    assert!(t.register_external_module(&mut stmts, &text("react")));
    assert_eq!(stmts.len(), 2);
    assert!(t.register_external_module(&mut stmts, &text("react")));
    assert_eq!(stmts.len(), 2);
}

#[test]
fn require_of_a_literal_goes_through_the_registry() {
    assert_eq!(
        rewrite(call(ident("require"), vec![string("lodash")]), true),
        (call(registry("require"), vec![string("lodash")]), false)
    );
    assert_eq!(
        rewrite(call(ident("require"), vec![string("react")]), true),
        (call(registry("require"), vec![string("12345")]), false)
    );
}

#[test]
fn require_is_remapped_even_where_the_specifier_is_external() {
    let body = vec![statement(call(ident("require"), vec![string("react")]))];
    let out = lower_with(body, true, Some("^react$"), Some(vec![("react", "12345")]));
    assert_eq!(out, vec![statement(call(registry("require"), vec![string("12345")]))]);
}

#[test]
fn require_of_another_shape_is_left_alone() {
    let dynamic = call(ident("require"), vec![ident("name")]);
    assert_eq!(rewrite(dynamic.clone(), true), (dynamic, false));
    let two = call(ident("require"), vec![string("a"), string("b")]);
    assert_eq!(rewrite(two.clone(), true), (two, false));
    let none = call(ident("require"), vec![]);
    assert_eq!(rewrite(none.clone(), true), (none, false));
    let spread = Expr::Call {
        callee: Box::new(ident("require")),
        args: vec![Arg { spread: true, expr: string("a") }],
        type_args: None,
    };
    assert_eq!(rewrite(spread.clone(), true), (spread, false));
    let typed = Expr::Call {
        callee: Box::new(ident("require")),
        args: vec![arg(string("a"))],
        type_args: Some(5),
    };
    assert_eq!(rewrite(typed.clone(), true), (typed, false));
    let method = call(member(ident("loader"), "require"), vec![string("a")]);
    assert_eq!(rewrite(method.clone(), true), (method, false));
}

#[test]
fn require_is_left_alone_where_imports_stay() {
    let literal = call(ident("require"), vec![string("a")]);
    assert_eq!(rewrite(literal.clone(), false), (literal, false));
}

#[test]
fn wrapped_require_is_rewritten_inside_its_wrapper() {
    let wrapped = call(ident("wrapper"), vec![call(ident("require"), vec![string("a")])]);
    assert_eq!(
        rewrite(wrapped, true),
        (call(ident("wrapper"), vec![call(registry("require"), vec![string("a")])]), false)
    );
    let nested = Expr::Other(Opaque {
        node: 4,
        exprs: vec![call(ident("require"), vec![string("a")])],
        stmts: vec![Stmt::Expr(call(ident("require"), vec![string("b")]))],
    });
    assert_eq!(
        rewrite(nested, true),
        (
            Expr::Other(Opaque {
                node: 4,
                exprs: vec![call(registry("require"), vec![string("a")])],
                stmts: vec![Stmt::Expr(call(registry("require"), vec![string("b")]))],
            }),
            false
        )
    );
}

#[test]
fn module_exports_is_published_as_default() {
    let target = member(ident("module"), "exports");
    assert_eq!(
        rewrite(assign(target.clone(), ident("foo")), false),
        (published(target, "default", ident("foo")), true)
    );
}

#[test]
fn exports_is_told_by_its_spelling() {
    let target = member(Expr::Ident(private("exports", Mark::Source(9))), "bar");
    assert_eq!(
        rewrite(assign(target.clone(), ident("baz")), true),
        (published(target, "bar", ident("baz")), true)
    );
}

#[test]
fn other_assignments_are_left_alone() {
    let other_object = assign(member(ident("other"), "foo"), number(1));
    assert_eq!(rewrite(other_object.clone(), true), (other_object, false));
    let other_property = assign(member(ident("module"), "id"), number(1));
    assert_eq!(rewrite(other_property.clone(), true), (other_property, false));
    let bare = assign(ident("exports"), number(1));
    assert_eq!(rewrite(bare.clone(), true), (bare, false));
    let deep = assign(member(member(ident("exports"), "a"), "b"), number(1));
    assert_eq!(rewrite(deep.clone(), true), (deep, false));
    let compound = Expr::Assign {
        op: AssignOp::Compound(1),
        left: Box::new(member(ident("exports"), "foo")),
        right: Box::new(number(1)),
    };
    assert_eq!(rewrite(compound.clone(), true), (compound, false));
}

#[test]
fn chained_export_assignments_are_each_published() {
    let inner = assign(member(ident("exports"), "b"), number(1));
    let outer = assign(member(ident("exports"), "a"), inner);
    assert_eq!(
        rewrite(outer, true),
        (
            published(
                member(ident("exports"), "a"),
                "a",
                published(member(ident("exports"), "b"), "b", number(1))
            ),
            true
        )
    );
}

#[test]
fn export_assignment_inside_a_function_opens_the_boundary() {
    let body = |expr: Expr| {
        vec![ModuleItem::Stmt(Stmt::Decl(Decl::Fn {
            ident: source("f"),
            declare: false,
            function: Opaque { node: 1, exprs: vec![], stmts: vec![Stmt::Expr(expr)] },
        }))]
    };
    let target = member(ident("exports"), "foo");
    let out = lower(body(assign(target.clone(), number(3))), false);
    let mut expected = vec![boundary_decl()];
    expected.extend(body(published(target, "foo", number(3))));
    assert_eq!(out, expected);
}

#[test]
fn emptied_out_expressions_are_taken_out() {
    let resolver = ModuleResolver::new(None, None).ok().unwrap();
    let mut cjs = CommonJsTransformer::new(&resolver, text("test.js"), true);
    let mut exprs = vec![Expr::Invalid, ident("a"), Expr::Invalid, ident("b")];
    cjs.visit_mut_exprs(&mut exprs);
    assert_eq!(exprs, vec![ident("a"), ident("b")]);
    let mut stmt = Stmt::Expr(Expr::Invalid);
    cjs.visit_mut_stmt(&mut stmt);
    assert_eq!(stmt, Stmt::Empty);
    let mut stmt = Stmt::Expr(Expr::Sequence(vec![Expr::Invalid, ident("a")]));
    cjs.visit_mut_stmt(&mut stmt);
    assert_eq!(stmt, Stmt::Expr(Expr::Sequence(vec![ident("a")])));
    assert!(!cjs.exported());
}

#[test]
fn boundary_is_declared_once_before_everything() {
    let resolver = ModuleResolver::new(None, None).ok().unwrap();
    let mut cjs = CommonJsTransformer::new(&resolver, text("test.js"), true);
    let first = member(ident("exports"), "a");
    let second = member(ident("module"), "exports");
    let mut items = vec![
        statement(ident("before")),
        statement(assign(first.clone(), number(1))),
        ModuleItem::ModuleDecl(ModuleDecl::ExportDefaultExpr(assign(second.clone(), number(2)))),
    ];
    cjs.visit_mut_module_items(&mut items);
    assert!(cjs.exported());
    assert_eq!(
        items,
        vec![
            boundary_decl(),
            statement(ident("before")),
            statement(published(first, "a", number(1))),
            ModuleItem::ModuleDecl(ModuleDecl::ExportDefaultExpr(published(
                second,
                "default",
                number(2)
            ))),
        ]
    );
}

#[test]
fn object_and_declaration_parts_are_rewritten() {
    let require = || call(ident("require"), vec![string("a")]);
    let lowered = || call(registry("require"), vec![string("a")]);
    let object = Expr::Object(vec![
        Prop::Shorthand(source("s")),
        Prop::KeyValue { key: plain("k"), value: require() },
    ]);
    assert_eq!(
        rewrite(object, true).0,
        Expr::Object(vec![
            Prop::Shorthand(source("s")),
            Prop::KeyValue { key: plain("k"), value: lowered() },
        ])
    );
    let declare = |init: Expr| {
        vec![ModuleItem::Stmt(Stmt::Decl(Decl::Var {
            kind: VarDeclKind::Var,
            declare: false,
            decls: vec![
                VarDeclarator { name: Pat::Ident(source("a")), init: Some(init), definite: false },
                VarDeclarator { name: Pat::Ident(source("b")), init: None, definite: false },
            ],
        }))]
    };
    assert_eq!(lower(declare(require()), true), declare(lowered()));
}

#[test]
fn options_choose_the_module_id_and_the_mode() {
    let body = vec![named_export(vec![clause("a", None)], None)];
    let registration = |module_id: &str| {
        statement(call(
            registry("esm"),
            vec![string(module_id), Expr::Object(vec![Prop::Shorthand(source("a"))])],
        ))
    };
    let defaults = GlobalModuleOptions {
        module_id: None,
        runtime_module: None,
        external_pattern: None,
        import_paths: None,
    };
    let mut t = defaults.transformer(Some(text("src/index.js"))).ok().unwrap();
    let mut module = Module { body: body.clone() };
    assert_eq!(t.visit_mut_module(&mut module), Ok(()));
    assert_eq!(module.body, vec![body[0].clone(), registration("src/index.js")]);
    let chosen = GlobalModuleOptions {
        module_id: Some(text("chosen")),
        runtime_module: Some(true),
        external_pattern: None,
        import_paths: None,
    };
    let mut t = chosen.transformer(Some(text("src/index.js"))).ok().unwrap();
    let mut module = Module { body };
    assert_eq!(t.visit_mut_module(&mut module), Ok(()));
    assert_eq!(module.body, vec![registration("chosen")]);
}
