use swc_global_module::ast::{Decl, Expr, Opaque, Pat, Stmt, VarDeclKind, VarDeclarator};
use swc_global_module::ident::{Ident, Mark};
use swc_global_module::module::{
    DefaultDecl, ExportAll, ExportSpecifier, ImportDecl, ImportPhase, ImportSpecifier, Module,
    ModuleDecl, ModuleExportName, ModuleItem, NamedExport,
};
use swc_global_module::module_collector_esm::{
    unsupported_in_items, EsModuleCollector, ExportModule, ImportModule, ModuleType, Unsupported,
};

fn text(s: &str) -> String {
    s.to_string()
}

fn source(sym: &str) -> Ident {
    Ident { sym: text(sym), mark: Mark::Source(1) }
}

fn private(sym: &str, k: usize) -> Ident {
    Ident { sym: text(sym), mark: Mark::Export(k) }
}

fn name(sym: &str) -> ModuleExportName {
    ModuleExportName::Ident(source(sym))
}

fn opaque(node: u64) -> Opaque {
    Opaque { node, exprs: vec![], stmts: vec![] }
}

fn import(specifiers: Vec<ImportSpecifier>, src: &str) -> ModuleItem {
    ModuleItem::ModuleDecl(ModuleDecl::Import(ImportDecl {
        specifiers,
        src: text(src),
        type_only: false,
        attributes: None,
        phase: ImportPhase::Evaluation,
    }))
}

fn named_export(specifiers: Vec<ExportSpecifier>, src: Option<&str>) -> ModuleItem {
    ModuleItem::ModuleDecl(ModuleDecl::ExportNamed(NamedExport {
        specifiers,
        src: src.map(text),
        type_only: false,
        attributes: None,
    }))
}

fn clause(orig: &str, exported: Option<&str>) -> ExportSpecifier {
    ExportSpecifier::Named { orig: name(orig), exported: exported.map(name), is_type_only: false }
}

fn var(kind: VarDeclKind, names: Vec<Pat>) -> Decl {
    Decl::Var {
        kind,
        declare: false,
        decls: names
            .into_iter()
            .map(|name| VarDeclarator { name, init: Some(Expr::Other(opaque(9))), definite: false })
            .collect(),
    }
}

fn import_record(
    ident: Ident,
    imported: Option<Ident>,
    src: &str,
    module_type: ModuleType,
    as_export: bool,
) -> ImportModule {
    ImportModule { ident, imported, module_src: text(src), module_type, as_export }
}

fn export_record(ident: Ident, as_ident: Option<Ident>, module_type: ModuleType) -> ExportModule {
    ExportModule { ident, as_ident, module_type }
}

fn collect(
    body: Vec<ModuleItem>,
    runtime_module: bool,
) -> (Vec<ImportModule>, Vec<ExportModule>, Vec<ModuleItem>) {
    let mut collector = EsModuleCollector::new(runtime_module);
    let mut items = body;
    assert_eq!(collector.visit_mut_module_items(&mut items), Ok(()));
    (collector.imports, collector.exports, items)
}

fn refused(body: Vec<ModuleItem>, runtime_module: bool) -> Unsupported {
    let mut collector = EsModuleCollector::new(runtime_module);
    let mut items: Vec<ModuleItem> = body.clone();
    let r = collector.visit_mut_module_items(&mut items);
    assert_eq!(items, body);
    assert_eq!(collector.imports, vec![]);
    assert_eq!(collector.exports, vec![]);
    r.unwrap_err()
}

fn four_imports() -> Vec<ModuleItem> {
    vec![
        import(vec![ImportSpecifier::Default { local: source("A") }], "x"),
        import(
            vec![
                ImportSpecifier::Named { local: source("b"), imported: None, is_type_only: false },
                ImportSpecifier::Named {
                    local: source("d"),
                    imported: Some(name("c")),
                    is_type_only: false,
                },
            ],
            "y",
        ),
        import(vec![ImportSpecifier::Namespace { local: source("ns") }], "z"),
    ]
}

fn four_import_records() -> Vec<ImportModule> {
    vec![
        import_record(source("A"), None, "x", ModuleType::Default, false),
        import_record(source("b"), None, "y", ModuleType::Named, false),
        import_record(source("d"), Some(source("c")), "y", ModuleType::Named, false),
        import_record(source("ns"), None, "z", ModuleType::NamespaceOrAll, false),
    ]
}

#[test]
fn import_clauses_become_records_and_the_declarations_go() {
    let (imports, exports, items) = collect(four_imports(), true);
    assert_eq!(imports, four_import_records());
    assert_eq!(exports, vec![]);
    assert_eq!(items, vec![]);
}

#[test]
fn import_declarations_stay_where_exports_stay() {
    let (imports, exports, items) = collect(four_imports(), false);
    assert_eq!(imports, four_import_records());
    assert_eq!(exports, vec![]);
    assert_eq!(items, four_imports());
}

#[test]
fn import_record_constructors_set_the_kind() {
    assert_eq!(
        ImportModule::default(source("a"), None, text("x")),
        import_record(source("a"), None, "x", ModuleType::Default, false)
    );
    assert_eq!(
        ImportModule::named(source("a"), Some(source("b")), text("x")),
        import_record(source("a"), Some(source("b")), "x", ModuleType::Named, false)
    );
    assert_eq!(
        ImportModule::namespace(source("a"), None, text("x")),
        import_record(source("a"), None, "x", ModuleType::NamespaceOrAll, false)
    );
    assert_eq!(
        ImportModule::namespace(source("a"), None, text("x")).re_exported(),
        import_record(source("a"), None, "x", ModuleType::NamespaceOrAll, true)
    );
}

#[test]
fn export_record_constructors_set_the_kind() {
    assert_eq!(
        ExportModule::default(source("a")),
        export_record(source("a"), None, ModuleType::Default)
    );
    assert_eq!(
        ExportModule::named(source("a"), Some(source("b"))),
        export_record(source("a"), Some(source("b")), ModuleType::Named)
    );
    assert_eq!(
        ExportModule::all(source("a"), None),
        export_record(source("a"), None, ModuleType::NamespaceOrAll)
    );
}

#[test]
fn default_expression_is_bound_to_a_private_constant() {
    for runtime_module in [true, false] {
        let body =
            vec![ModuleItem::ModuleDecl(ModuleDecl::ExportDefaultExpr(Expr::Ident(source("v"))))];
        let (imports, exports, items) = collect(body, runtime_module);
        let ident = private("__export_default", 0);
        assert_eq!(imports, vec![]);
        assert_eq!(exports, vec![export_record(ident.clone(), None, ModuleType::Default)]);
        assert_eq!(
            items,
            vec![ModuleItem::Stmt(Stmt::Decl(Decl::Var {
                kind: VarDeclKind::Const,
                declare: false,
                decls: vec![VarDeclarator {
                    name: Pat::Ident(ident),
                    init: Some(Expr::Ident(source("v"))),
                    definite: false,
                }],
            }))]
        );
    }
}

#[test]
fn named_default_class_keeps_its_name() {
    let body = vec![ModuleItem::ModuleDecl(ModuleDecl::ExportDefaultDecl(DefaultDecl::Class {
        ident: Some(source("C")),
        class: opaque(4),
    }))];
    let (_, exports, items) = collect(body.clone(), true);
    assert_eq!(exports, vec![export_record(source("C"), None, ModuleType::Default)]);
    assert_eq!(
        items,
        vec![ModuleItem::Stmt(Stmt::Decl(Decl::Class {
            ident: source("C"),
            declare: false,
            class: opaque(4),
        }))]
    );
    let (_, exports, items) = collect(body.clone(), false);
    assert_eq!(exports, vec![export_record(source("C"), None, ModuleType::Default)]);
    assert_eq!(items, body);
}

#[test]
fn anonymous_default_class_is_named_in_place_where_exports_stay() {
    let body = vec![ModuleItem::ModuleDecl(ModuleDecl::ExportDefaultDecl(DefaultDecl::Class {
        ident: None,
        class: opaque(4),
    }))];
    let (_, exports, items) = collect(body, false);
    let ident = private("__Class", 0);
    assert_eq!(exports, vec![export_record(ident.clone(), None, ModuleType::Default)]);
    assert_eq!(
        items,
        vec![ModuleItem::ModuleDecl(ModuleDecl::ExportDefaultDecl(DefaultDecl::Class {
            ident: Some(ident),
            class: opaque(4),
        }))]
    );
}

#[test]
fn anonymous_default_function_yields_one_default_record() {
    let body = vec![ModuleItem::ModuleDecl(ModuleDecl::ExportDefaultDecl(DefaultDecl::Fn {
        ident: None,
        function: opaque(5),
    }))];
    let (imports, exports, items) = collect(body, true);
    let ident = private("__fn", 0);
    assert_eq!(imports, vec![]);
    assert_eq!(exports, vec![export_record(ident.clone(), None, ModuleType::Default)]);
    assert!(!exports[0].ident.sym.is_empty());
    assert_eq!(
        items,
        vec![ModuleItem::Stmt(Stmt::Decl(Decl::Fn {
            ident,
            declare: false,
            function: opaque(5),
        }))]
    );
}

#[test]
fn default_declaration_that_binds_nothing_is_not_recorded() {
    let body =
        vec![ModuleItem::ModuleDecl(ModuleDecl::ExportDefaultDecl(DefaultDecl::Other(opaque(6))))];
    let (_, exports, items) = collect(body.clone(), true);
    assert_eq!(exports, vec![]);
    assert_eq!(items, vec![]);
    let (_, exports, items) = collect(body.clone(), false);
    assert_eq!(exports, vec![]);
    assert_eq!(items, body);
}

#[test]
fn every_declared_variable_is_exported() {
    let decl = var(VarDeclKind::Let, vec![Pat::Ident(source("a")), Pat::Ident(source("b"))]);
    let body = vec![ModuleItem::ModuleDecl(ModuleDecl::ExportDecl(decl.clone()))];
    let (_, exports, items) = collect(body.clone(), true);
    assert_eq!(
        exports,
        vec![
            export_record(source("a"), None, ModuleType::Named),
            export_record(source("b"), None, ModuleType::Named),
        ]
    );
    assert_eq!(items, vec![ModuleItem::Stmt(Stmt::Decl(decl))]);
    let (_, exports, items) = collect(body.clone(), false);
    assert_eq!(exports.len(), 2);
    assert_eq!(items, body);
}

#[test]
fn exported_function_and_class_lose_the_export() {
    let function = Decl::Fn { ident: source("f"), declare: false, function: opaque(1) };
    let class = Decl::Class { ident: source("C"), declare: false, class: opaque(2) };
    let body = vec![
        ModuleItem::ModuleDecl(ModuleDecl::ExportDecl(function.clone())),
        ModuleItem::ModuleDecl(ModuleDecl::ExportDecl(class.clone())),
    ];
    let (_, exports, items) = collect(body, true);
    assert_eq!(
        exports,
        vec![
            export_record(source("f"), None, ModuleType::Named),
            export_record(source("C"), None, ModuleType::Named),
        ]
    );
    assert_eq!(
        items,
        vec![ModuleItem::Stmt(Stmt::Decl(function)), ModuleItem::Stmt(Stmt::Decl(class))]
    );
}

#[test]
fn exported_declaration_that_binds_nothing_goes_with_the_exports() {
    let body = vec![ModuleItem::ModuleDecl(ModuleDecl::ExportDecl(Decl::Other(opaque(3))))];
    let (_, exports, items) = collect(body.clone(), true);
    assert_eq!(exports, vec![]);
    assert_eq!(items, vec![]);
    let (_, _, items) = collect(body.clone(), false);
    assert_eq!(items, body);
}

#[test]
fn exported_pattern_stops_the_pass() {
    let decl = var(VarDeclKind::Const, vec![Pat::Ident(source("a")), Pat::Other(opaque(8))]);
    let body = vec![ModuleItem::ModuleDecl(ModuleDecl::ExportDecl(decl.clone()))];
    assert_eq!(refused(body.clone(), true), Unsupported::PatternBinding);
    assert_eq!(refused(body, false), Unsupported::PatternBinding);
    let mut collector = EsModuleCollector::new(true);
    assert_eq!(
        collector.collect_and_convert_export_decl(&decl),
        Err(Unsupported::PatternBinding)
    );
    assert_eq!(collector.exports, vec![]);
}

#[test]
fn local_export_clauses_are_recorded_with_their_new_names() {
    let body = vec![named_export(
        vec![
            clause("a", None),
            clause("b", Some("c")),
            ExportSpecifier::Named { orig: name("T"), exported: None, is_type_only: true },
        ],
        None,
    )];
    let (imports, exports, items) = collect(body, true);
    assert_eq!(imports, vec![]);
    assert_eq!(
        exports,
        vec![
            export_record(source("a"), None, ModuleType::Named),
            export_record(source("b"), Some(source("c")), ModuleType::Named),
        ]
    );
    assert_eq!(items, vec![]);
}

#[test]
fn string_export_name_stops_the_pass() {
    let exported_string = vec![named_export(
        vec![
            clause("a", None),
            ExportSpecifier::Named {
                orig: name("b"),
                exported: Some(ModuleExportName::Str(text("b c"))),
                is_type_only: false,
            },
        ],
        None,
    )];
    assert_eq!(refused(exported_string, true), Unsupported::StringName);
    let original_string = vec![named_export(
        vec![ExportSpecifier::Named {
            orig: ModuleExportName::Str(text("a b")),
            exported: Some(name("c")),
            is_type_only: false,
        }],
        Some("x"),
    )];
    assert_eq!(refused(original_string, true), Unsupported::StringName);
    let namespace_string = vec![named_export(
        vec![ExportSpecifier::Namespace { name: ModuleExportName::Str(text("n s")) }],
        Some("x"),
    )];
    assert_eq!(refused(namespace_string, false), Unsupported::StringName);
}

#[test]
fn string_import_name_stops_the_pass() {
    let body = vec![import(
        vec![ImportSpecifier::Named {
            local: source("a"),
            imported: Some(ModuleExportName::Str(text("a b"))),
            is_type_only: false,
        }],
        "x",
    )];
    assert_eq!(refused(body.clone(), true), Unsupported::StringName);
    assert_eq!(refused(body, false), Unsupported::StringName);
}

#[test]
fn export_clause_of_another_form_stops_the_pass() {
    let default_from =
        vec![named_export(vec![ExportSpecifier::Default { binding: source("v") }], Some("x"))];
    assert_eq!(refused(default_from, true), Unsupported::ExportClause);
    let namespace_without_source =
        vec![named_export(vec![ExportSpecifier::Namespace { name: name("ns") }], None)];
    assert_eq!(refused(namespace_without_source, true), Unsupported::ExportClause);
    let namespace_behind_a_clause = vec![named_export(
        vec![clause("a", None), ExportSpecifier::Namespace { name: name("ns") }],
        Some("x"),
    )];
    assert_eq!(refused(namespace_behind_a_clause, true), Unsupported::ExportClause);
}

#[test]
fn first_unsupported_construct_is_reported() {
    let body = vec![
        named_export(vec![clause("a", None)], None),
        named_export(vec![ExportSpecifier::Default { binding: source("v") }], Some("x")),
        ModuleItem::ModuleDecl(ModuleDecl::ExportDecl(var(
            VarDeclKind::Var,
            vec![Pat::Other(opaque(8))],
        ))),
    ];
    assert_eq!(unsupported_in_items(&body), Some(Unsupported::ExportClause));
    assert_eq!(refused(body, true), Unsupported::ExportClause);
    assert_eq!(unsupported_in_items(&four_imports()), None);
}

#[test]
fn namespace_is_re_exported_through_a_private_import() {
    let body =
        vec![named_export(vec![ExportSpecifier::Namespace { name: name("ns") }], Some("x"))];
    let (imports, exports, items) = collect(body, true);
    let ident = private("__re_export", 0);
    assert_eq!(
        imports,
        vec![import_record(ident.clone(), None, "x", ModuleType::NamespaceOrAll, true)]
    );
    assert_eq!(exports, vec![export_record(ident, Some(source("ns")), ModuleType::Named)]);
    assert_eq!(items, vec![]);
}

#[test]
fn named_re_export_imports_each_clause_under_a_private_identifier() {
    let body = vec![named_export(
        vec![clause("a", None), clause("default", Some("b")), clause("c", Some("default"))],
        Some("x"),
    )];
    let (imports, exports, items) = collect(body.clone(), false);
    assert_eq!(
        imports,
        vec![
            import_record(
                private("__re_export", 0),
                Some(source("a")),
                "x",
                ModuleType::Named,
                true
            ),
            import_record(
                private("__re_export", 1),
                Some(source("default")),
                "x",
                ModuleType::DefaultAsNamed,
                true
            ),
            import_record(
                private("__re_export", 2),
                Some(source("c")),
                "x",
                ModuleType::Named,
                true
            ),
        ]
    );
    assert_eq!(
        exports,
        vec![
            export_record(private("__re_export", 0), Some(source("a")), ModuleType::Named),
            export_record(private("__re_export", 1), Some(source("b")), ModuleType::Named),
            export_record(private("__re_export", 2), Some(source("default")), ModuleType::Named),
        ]
    );
    assert_eq!(items, body);
}

#[test]
fn export_all_is_a_wildcard_export_of_a_private_namespace() {
    let body = vec![ModuleItem::ModuleDecl(ModuleDecl::ExportAll(ExportAll {
        src: text("x"),
        type_only: false,
        attributes: None,
    }))];
    let (imports, exports, items) = collect(body, true);
    let ident = private("__re_export_all", 0);
    assert_eq!(
        imports,
        vec![import_record(ident.clone(), None, "x", ModuleType::NamespaceOrAll, true)]
    );
    assert_eq!(exports, vec![export_record(ident, None, ModuleType::NamespaceOrAll)]);
    assert_eq!(items, vec![]);
}

#[test]
fn private_identifiers_follow_the_export_records() {
    let body = vec![
        named_export(vec![clause("a", None)], None),
        ModuleItem::ModuleDecl(ModuleDecl::ExportDefaultExpr(Expr::Ident(source("v")))),
        named_export(vec![clause("b", None)], Some("x")),
    ];
    let (_, exports, _) = collect(body, true);
    assert_eq!(
        exports,
        vec![
            export_record(source("a"), None, ModuleType::Named),
            export_record(private("__export_default", 1), None, ModuleType::Default),
            export_record(private("__re_export", 2), Some(source("b")), ModuleType::Named),
        ]
    );
}

#[test]
fn empty_statements_and_empty_imports_are_taken_out() {
    let stmt = ModuleItem::Stmt(Stmt::Expr(Expr::Ident(source("a"))));
    let body = vec![
        ModuleItem::Stmt(Stmt::Empty),
        stmt.clone(),
        import(vec![], ""),
        import(vec![], "side-effect"),
        ModuleItem::Stmt(Stmt::Empty),
    ];
    let (imports, _, items) = collect(body, false);
    assert_eq!(imports, vec![]);
    assert_eq!(items, vec![stmt, import(vec![], "side-effect")]);
}

#[test]
fn other_module_declarations_go_where_exports_are_stripped() {
    let other = ModuleItem::ModuleDecl(ModuleDecl::Other(opaque(11)));
    let stmt = ModuleItem::Stmt(Stmt::Other(opaque(12)));
    let (_, _, items) = collect(vec![other.clone(), stmt.clone()], true);
    assert_eq!(items, vec![stmt.clone()]);
    let (_, _, items) = collect(vec![other.clone(), stmt.clone()], false);
    assert_eq!(items, vec![other, stmt]);
}

#[test]
fn collector_goes_over_a_module() {
    let mut module = Module { body: four_imports() };
    let mut collector = EsModuleCollector::new(true);
    assert_eq!(collector.visit_mut_module(&mut module), Ok(()));
    assert_eq!(collector.imports, four_import_records());
    assert_eq!(module, Module { body: vec![] });
}
