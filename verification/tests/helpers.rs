use swc_global_module::ast::{
    Arg, AssignOp, Decl, Expr, Opaque, Pat, Prop, Stmt, VarDeclKind, VarDeclarator,
};
use swc_global_module::constants::{
    CJS_API_NAME, ESM_API_NAME, GLOBAL, HELPER_AS_WILDCARD_NAME, MODULE, MODULE_EXTERNAL_NAME,
    MODULE_HELPER_NAME, MODULE_IMPORT_NAME, MODULE_REGISTRY_NAME, MODULE_REQUIRE_NAME,
};
use swc_global_module::helpers::{
    create_default_import_stmt, create_named_import_stmt, create_namespace_import_stmt,
    decl_var_and_assign_stmt, external_module_from_global, import_module_from_global,
    is_invalid_module_decl, obj_lit, obj_member_expr, registry_member_expr,
    require_module_from_global,
};
use swc_global_module::ident::{
    clone_opt_ident, clone_opt_string, private_ident, quote_ident, spelled, Ident, Mark,
};
use swc_global_module::module::{
    clone_items, ExportAll, ImportDecl, ImportPhase, ImportSpecifier, Module, ModuleDecl,
    ModuleExportName, ModuleItem,
};

fn text(s: &str) -> String {
    s.to_string()
}

fn source(sym: &str) -> Ident {
    Ident { sym: text(sym), mark: Mark::Source(3) }
}

fn plain(sym: &str) -> Ident {
    Ident { sym: text(sym), mark: Mark::Plain }
}

fn member(obj: Expr, prop: &str) -> Expr {
    Expr::Member { obj: Box::new(obj), prop: plain(prop) }
}

fn registry(name: &str) -> Expr {
    member(member(Expr::Ident(plain("global")), "__modules"), name)
}

fn call_with(callee: Expr, arg: Expr) -> Expr {
    Expr::Call {
        callee: Box::new(callee),
        args: vec![Arg { spread: false, expr: arg }],
        type_args: None,
    }
}

fn constant(ident: Ident, init: Expr) -> Stmt {
    Stmt::Decl(Decl::Var {
        kind: VarDeclKind::Const,
        declare: false,
        decls: vec![VarDeclarator { name: Pat::Ident(ident), init: Some(init), definite: false }],
    })
}

fn import(specifier: ImportSpecifier, src: &str) -> ModuleItem {
    ModuleItem::ModuleDecl(ModuleDecl::Import(ImportDecl {
        specifiers: vec![specifier],
        src: text(src),
        type_only: false,
        attributes: None,
        phase: ImportPhase::Evaluation,
    }))
}

#[test]
fn registry_names_are_what_the_runtime_offers() {
    assert_eq!(GLOBAL, "global");
    assert_eq!(MODULE, "__modules");
    assert_eq!(MODULE_REGISTRY_NAME, "registry");
    assert_eq!(MODULE_IMPORT_NAME, "import");
    assert_eq!(MODULE_REQUIRE_NAME, "require");
    assert_eq!(MODULE_EXTERNAL_NAME, "external");
    assert_eq!(MODULE_HELPER_NAME, "helpers");
    assert_eq!(HELPER_AS_WILDCARD_NAME, "asWildcard");
    assert_eq!(ESM_API_NAME, "esm");
    assert_eq!(CJS_API_NAME, "cjs");
}

#[test]
fn identifiers_are_made_with_their_marks() {
    assert_eq!(quote_ident("default"), plain("default"));
    assert_eq!(
        private_ident("__fn", Mark::Export(2)),
        Ident { sym: text("__fn"), mark: Mark::Export(2) }
    );
    assert!(source("exports").is_named("exports"));
    assert!(!source("exports").is_named("export"));
    assert!(spelled(&text("module"), "module"));
    assert!(!spelled(&text("module"), "Module"));
    assert_eq!(clone_opt_ident(&Some(source("a"))), Some(source("a")));
    assert_eq!(clone_opt_ident(&None), None);
    assert_eq!(clone_opt_string(&Some(text("a"))), Some(text("a")));
    assert_eq!(source("a").clone(), source("a"));
}

#[test]
fn member_expression_is_built_from_object_and_property() {
    assert_eq!(
        obj_member_expr(Expr::Ident(source("obj")), plain("prop")),
        member(Expr::Ident(source("obj")), "prop")
    );
    assert_eq!(registry_member_expr("esm"), registry("esm"));
}

#[test]
fn constant_declaration_binds_one_identifier() {
    assert_eq!(
        decl_var_and_assign_stmt(&source("name"), Expr::Str(text("value"))),
        constant(source("name"), Expr::Str(text("value")))
    );
}

#[test]
fn object_literal_holds_the_given_properties() {
    assert_eq!(obj_lit(None), Expr::Object(vec![]));
    assert_eq!(
        obj_lit(Some(vec![Prop::Shorthand(source("a"))])),
        Expr::Object(vec![Prop::Shorthand(source("a"))])
    );
}

#[test]
fn registry_calls_take_the_specifier_as_a_literal() {
    let src = text("./a");
    assert_eq!(
        import_module_from_global(&src),
        call_with(registry("import"), Expr::Str(text("./a")))
    );
    assert_eq!(
        require_module_from_global(&src),
        call_with(registry("require"), Expr::Str(text("./a")))
    );
    assert_eq!(
        external_module_from_global(&src),
        call_with(registry("external"), Expr::Str(text("./a")))
    );
}

#[test]
fn default_import_reads_default_or_declares_an_import() {
    let src = text("x");
    let module = source("_x");
    assert_eq!(
        create_default_import_stmt(&src, &source("a"), Some(&module)),
        ModuleItem::Stmt(constant(source("a"), member(Expr::Ident(source("_x")), "default")))
    );
    assert_eq!(
        create_default_import_stmt(&src, &source("a"), None),
        import(ImportSpecifier::Default { local: source("a") }, "x")
    );
}

#[test]
fn named_import_reads_the_imported_name_or_declares_an_import() {
    let src = text("x");
    let module = source("_x");
    assert_eq!(
        create_named_import_stmt(&src, &source("a"), Some(&module), &None),
        ModuleItem::Stmt(constant(source("a"), member(Expr::Ident(source("_x")), "a")))
    );
    assert_eq!(
        create_named_import_stmt(&src, &source("a"), Some(&module), &Some(source("b"))),
        ModuleItem::Stmt(constant(source("a"), member(Expr::Ident(source("_x")), "b")))
    );
    assert_eq!(
        create_named_import_stmt(&src, &source("a"), None, &None),
        import(
            ImportSpecifier::Named { local: source("a"), imported: None, is_type_only: false },
            "x"
        )
    );
    assert_eq!(
        create_named_import_stmt(&src, &source("a"), None, &Some(source("b"))),
        import(
            ImportSpecifier::Named {
                local: source("a"),
                imported: Some(ModuleExportName::Ident(source("b"))),
                is_type_only: false,
            },
            "x"
        )
    );
}

#[test]
fn namespace_import_adapts_the_module_or_declares_an_import() {
    let src = text("x");
    let module = source("_x");
    assert_eq!(
        create_namespace_import_stmt(&src, &source("ns"), Some(&module)),
        ModuleItem::Stmt(constant(
            source("ns"),
            call_with(member(registry("helpers"), "asWildcard"), Expr::Ident(source("_x")))
        ))
    );
    assert_eq!(
        create_namespace_import_stmt(&src, &source("ns"), None),
        import(ImportSpecifier::Namespace { local: source("ns") }, "x")
    );
}

#[test]
fn import_without_specifiers_and_source_is_invalid() {
    let empty = ImportDecl {
        specifiers: vec![],
        src: text(""),
        type_only: false,
        attributes: None,
        phase: ImportPhase::Evaluation,
    };
    assert!(is_invalid_module_decl(&ModuleDecl::Import(empty)));
    let side_effect = ImportDecl {
        specifiers: vec![],
        src: text("x"),
        type_only: false,
        attributes: None,
        phase: ImportPhase::Evaluation,
    };
    assert!(!is_invalid_module_decl(&ModuleDecl::Import(side_effect)));
    let bound = ImportDecl {
        specifiers: vec![ImportSpecifier::Default { local: source("a") }],
        src: text(""),
        type_only: false,
        attributes: None,
        phase: ImportPhase::Evaluation,
    };
    assert!(!is_invalid_module_decl(&ModuleDecl::Import(bound)));
    let export_all = ExportAll { src: text(""), type_only: false, attributes: None };
    assert!(!is_invalid_module_decl(&ModuleDecl::ExportAll(export_all)));
}

#[test]
fn expression_builders_wrap_the_expression() {
    let a = || Expr::Ident(source("a"));
    let b = || Expr::Ident(source("b"));
    assert_eq!(a().as_arg(), Arg { spread: false, expr: a() });
    assert_eq!(a().as_call(vec![b().as_arg()]), call_with(a(), b()));
    assert_eq!(a().into_stmt(), Stmt::Expr(a()));
    assert_eq!(
        a().make_assign_to(AssignOp::Assign, b()),
        Expr::Assign { op: AssignOp::Assign, left: Box::new(b()), right: Box::new(a()) }
    );
    assert_eq!(
        Stmt::Decl(a().into_var_decl(VarDeclKind::Const, Pat::Ident(source("c")))),
        constant(source("c"), a())
    );
    assert!(a().is_ident_ref_to("a"));
    assert!(!a().is_ident_ref_to("b"));
    assert!(!Expr::Str(text("a")).is_ident_ref_to("a"));
    assert!(Expr::Invalid.is_invalid());
    assert!(!a().is_invalid());
}

#[test]
fn copies_are_equal_to_what_they_copy() {
    let nested = Expr::Other(Opaque {
        node: 1,
        exprs: vec![
            Expr::Sequence(vec![Expr::Invalid, Expr::Str(text("s"))]),
            Expr::Object(vec![Prop::KeyValue { key: plain("k"), value: Expr::Ident(source("v")) }]),
        ],
        stmts: vec![
            Stmt::Empty,
            Stmt::Decl(Decl::Class {
                ident: source("C"),
                declare: true,
                class: Opaque { node: 2, exprs: vec![], stmts: vec![] },
            }),
            constant(source("c"), call_with(Expr::Ident(source("f")), Expr::Invalid)),
        ],
    });
    assert_eq!(nested.clone(), nested);
    let items = vec![
        ModuleItem::Stmt(Stmt::Expr(nested)),
        import(ImportSpecifier::Namespace { local: source("ns") }, "x"),
    ];
    assert_eq!(clone_items(&items), items);
    let module = Module { body: items };
    assert_eq!(module.clone(), module);
}
