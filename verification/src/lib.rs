//! Lowers the `import`/`export` syntax and the CommonJS idioms of one module
//! into calls against a global module registry.
//!
//! The pass works on one module at a time. The collector goes over the items
//! of the module and records what it imports and exports. From these records
//! the transformer emits the statements that bind the imports and the
//! statement that publishes the exports. A module without exports is handed
//! to the CommonJS transformer.

pub mod ast;
pub mod cjs_transformer;
pub mod config;
pub mod constants;
pub mod helpers;
pub mod ident;
pub mod module;
pub mod module_collector_esm;
pub mod module_mapper;
pub mod module_resolver;
pub mod pattern;

use vstd::prelude::*;
use crate::ast::{
    arg_of, args_view, props_view, push_arg, push_prop, Arg, ArgView, Expr, ExprView, Prop,
    PropView, StmtView,
};
use crate::cjs_transformer::{CjsRules, CjsView, CommonJsTransformer};
use crate::constants::{ESM_API_NAME, MODULE_EXTERNAL_NAME, MODULE_IMPORT_NAME};
use crate::helpers::{
    const_stmt, create_default_import_stmt, create_named_import_stmt,
    create_namespace_import_stmt, decl_var_and_assign_stmt, default_import_stmt,
    external_from_global, external_module_from_global, import_from_global,
    import_module_from_global, named_import_stmt, namespace_import_stmt, obj_lit, opt_ref_view,
    registry_call, registry_member_expr,
};
use crate::ident::{
    opt_string_view, plain, private_ident, quote_ident, Ident, IdentView, Mark,
};
use crate::module::{
    push_item, seq_view, ExportSpecifierView, Module, ModuleExportNameView, ModuleItem,
    ModuleItemView,
};
use crate::module_collector_esm::{
    items_unsupported, CollectorView, EsModuleCollector, ExportModule, ExportModuleView,
    ImportModule, ImportModuleView, ModuleType, Unsupported,
};
use crate::module_resolver::{
    find, lemma_find_some, opt_ids_view, refusal, ConfigError, ModuleIds, ModuleResolver,
    ResolverView,
};

verus! {

/// The statement that binds an import: it reads the binding off the module
/// object where there is one, and is an import declaration otherwise.
pub open spec fn binding_stmt(r: ImportModuleView, module: Option<IdentView>) -> ModuleItemView {
    match r.module_type {
        ModuleType::Default | ModuleType::DefaultAsNamed => default_import_stmt(
            r.module_src,
            r.ident,
            module,
        ),
        ModuleType::Named => named_import_stmt(r.module_src, r.ident, module, r.imported),
        ModuleType::NamespaceOrAll => namespace_import_stmt(r.module_src, r.ident, module),
    }
}

/// The name under which an export is published.
pub open spec fn external_name(r: ExportModuleView) -> Seq<char> {
    match r.module_type {
        ModuleType::Named => match r.as_ident {
            Some(name) => name.sym,
            None => r.ident.sym,
        },
        _ => "default"@,
    }
}

/// The property that publishes an export: `default: ident` for a default
/// export, `name: ident` for an export under another name, `ident` for an
/// export under its own name.
pub open spec fn export_prop(r: ExportModuleView) -> PropView {
    if r.module_type == ModuleType::Named && external_name(r) == r.ident.sym {
        PropView::Shorthand(r.ident)
    } else {
        PropView::KeyValue { key: plain(external_name(r)), value: ExprView::Ident(r.ident) }
    }
}

/// Whether an export publishes everything that another module exports.
pub open spec fn is_wildcard(r: ExportModuleView) -> bool {
    r.module_type == ModuleType::NamespaceOrAll
}

/// The properties that publish the exports which are not wildcards, in the
/// order of the exports.
pub open spec fn export_props(exports: Seq<ExportModuleView>) -> Seq<PropView>
    decreases exports.len(),
{
    if exports.len() == 0 {
        Seq::empty()
    } else if is_wildcard(exports.last()) {
        export_props(exports.drop_last())
    } else {
        export_props(exports.drop_last()).push(export_prop(exports.last()))
    }
}

/// The arguments that publish the wildcard exports, in the order of the
/// exports.
pub open spec fn export_wildcards(exports: Seq<ExportModuleView>) -> Seq<ArgView>
    decreases exports.len(),
{
    if exports.len() == 0 {
        Seq::empty()
    } else if is_wildcard(exports.last()) {
        export_wildcards(exports.drop_last()).push(arg_of(ExprView::Ident(exports.last().ident)))
    } else {
        export_wildcards(exports.drop_last())
    }
}

/// The statements that publish the exports of the module registered as
/// `module_id`: none without exports, otherwise the one statement
/// `global.__modules.esm('module_id', { props }, wildcards)`.
pub open spec fn export_stmts(module_id: Seq<char>, exports: Seq<ExportModuleView>) -> Seq<
    ModuleItemView,
> {
    if exports.len() == 0 {
        Seq::empty()
    } else {
        seq![
            ModuleItemView::Stmt(
                StmtView::Expr(
                    registry_call(
                        ESM_API_NAME@,
                        seq![
                            arg_of(ExprView::Str(module_id)),
                            arg_of(ExprView::Object(export_props(exports))),
                        ] + export_wildcards(exports),
                    ),
                ),
            ),
        ]
    }
}

/// The name under which a property publishes its value.
pub open spec fn prop_key(p: PropView) -> Seq<char> {
    match p {
        PropView::Shorthand(ident) => ident.sym,
        PropView::KeyValue { key, .. } => key.sym,
    }
}

/// The value that a property publishes.
pub open spec fn prop_value(p: PropView) -> ExprView {
    match p {
        PropView::Shorthand(ident) => ExprView::Ident(ident),
        PropView::KeyValue { value, .. } => value,
    }
}

/// A renamed export is keyed by its new name: the clause `export { a as b }`
/// is recorded as the export of `a` under `b` and published by the property
/// `b: a`, and the clause `export { a }` is recorded as the export of `a`
/// and published by the shorthand property `a`.
pub proof fn lemma_renamed_export_is_keyed_by_its_new_name(
    collector: CollectorView,
    a: IdentView,
    b: Option<IdentView>,
)
    ensures
        ({
            let clause = ExportSpecifierView::Named {
                orig: ModuleExportNameView::Ident(a),
                exported: match b {
                    Some(name) => Some(ModuleExportNameView::Ident(name)),
                    None => None,
                },
                is_type_only: false,
            };
            let record = ExportModuleView::named(a, b);
            &&& collector.local_export(clause) == collector.export(record)
            &&& (b is Some && b->0.sym != a.sym) ==> export_prop(record)
                == (PropView::KeyValue { key: plain(b->0.sym), value: ExprView::Ident(a) })
            &&& (b is None || b->0.sym == a.sym) ==> export_prop(record) == PropView::Shorthand(a)
        }),
{
}

/// The properties and the wildcard arguments of the first `k` exports stand
/// at the front of those of all the exports.
pub proof fn lemma_export_prefix(exports: Seq<ExportModuleView>, k: int)
    requires
        0 <= k <= exports.len(),
    ensures
        export_props(exports.take(k)).len() <= export_props(exports).len(),
        export_props(exports.take(k)) == export_props(exports).take(
            export_props(exports.take(k)).len() as int,
        ),
        export_wildcards(exports.take(k)).len() <= export_wildcards(exports).len(),
        export_wildcards(exports.take(k)) == export_wildcards(exports).take(
            export_wildcards(exports.take(k)).len() as int,
        ),
    decreases exports.len() - k,
{
    if k == exports.len() {
        assert(exports.take(k) =~= exports);
        assert(export_props(exports).take(export_props(exports).len() as int) =~= export_props(
            exports,
        ));
        assert(export_wildcards(exports).take(export_wildcards(exports).len() as int)
            =~= export_wildcards(exports));
    } else {
        lemma_export_prefix(exports, k + 1);
        let longer = exports.take(k + 1);
        assert(longer.drop_last() =~= exports.take(k));
        let props = export_props(exports);
        let wildcards = export_wildcards(exports);
        assert(export_props(exports.take(k)) =~= props.take(
            export_props(exports.take(k)).len() as int,
        ));
        assert(export_wildcards(exports.take(k)) =~= wildcards.take(
            export_wildcards(exports.take(k)).len() as int,
        ));
    }
}

/// The statement that publishes the exports is complete: every export has
/// exactly one place in it. An export that is not a wildcard has its
/// property, keyed by the name under which it is published and holding its
/// binding, at the position that is the number of such exports before it. A
/// wildcard export has its argument, which holds its binding, at the position
/// that is the number of wildcard exports before it. There are as many
/// properties and arguments together as there are exports.
pub proof fn lemma_export_completeness(exports: Seq<ExportModuleView>, k: int)
    requires
        0 <= k < exports.len(),
    ensures
        export_props(exports).len() + export_wildcards(exports).len() == exports.len(),
        !is_wildcard(exports[k]) ==> {
            let at = export_props(exports.take(k)).len() as int;
            &&& at < export_props(exports).len()
            &&& export_props(exports)[at] == export_prop(exports[k])
            &&& prop_key(export_props(exports)[at]) == external_name(exports[k])
            &&& prop_value(export_props(exports)[at]) == ExprView::Ident(exports[k].ident)
        },
        is_wildcard(exports[k]) ==> {
            let at = export_wildcards(exports.take(k)).len() as int;
            &&& at < export_wildcards(exports).len()
            &&& export_wildcards(exports)[at] == arg_of(ExprView::Ident(exports[k].ident))
        },
{
    lemma_export_count(exports);
    lemma_export_prefix(exports, k + 1);
    let longer = exports.take(k + 1);
    assert(longer.drop_last() =~= exports.take(k));
    assert(longer.last() == exports[k]);
    if is_wildcard(exports[k]) {
        let at = export_wildcards(exports.take(k)).len() as int;
        assert(export_wildcards(longer)[at] == arg_of(ExprView::Ident(exports[k].ident)));
        assert(export_wildcards(exports).take(export_wildcards(longer).len() as int)[at]
            == export_wildcards(exports)[at]);
    } else {
        let at = export_props(exports.take(k)).len() as int;
        assert(export_props(longer)[at] == export_prop(exports[k]));
        assert(export_props(exports).take(export_props(longer).len() as int)[at] == export_props(
            exports,
        )[at]);
    }
}

/// There are as many properties and wildcard arguments together as there are
/// exports.
pub proof fn lemma_export_count(exports: Seq<ExportModuleView>)
    ensures
        export_props(exports).len() + export_wildcards(exports).len() == exports.len(),
    decreases exports.len(),
{
    if exports.len() > 0 {
        lemma_export_count(exports.drop_last());
    }
}

/// The statement that binds a registered module to its identifier: a fetch
/// by the host's own loader where the module's path is external, a fetch
/// from the registry otherwise.
pub open spec fn registry_binding(resolver: ResolverView, k: int) -> ModuleItemView {
    let (path, ident) = resolver.registered[k];
    ModuleItemView::Stmt(
        const_stmt(
            ident,
            if resolver.is_external(path) {
                external_from_global(path)
            } else {
                import_from_global(path)
            },
        ),
    )
}

/// The statements that bind the registered modules, in the order of their
/// registration.
pub open spec fn registry_bindings(resolver: ResolverView) -> Seq<ModuleItemView> {
    Seq::new(resolver.registered.len(), |k: int| registry_binding(resolver, k))
}

/// An external module bypasses the registry's `import`: the statement that
/// binds a registered module whose path is external fetches it by
/// `external`, and is no fetch by `import`.
pub proof fn lemma_external_binding_is_no_import(resolver: ResolverView, k: int)
    requires
        0 <= k < resolver.registered.len(),
        resolver.is_external(resolver.registered[k].0),
    ensures
        registry_bindings(resolver)[k] == ModuleItemView::Stmt(
            const_stmt(
                resolver.registered[k].1,
                external_from_global(resolver.registered[k].0),
            ),
        ),
        registry_bindings(resolver)[k] != ModuleItemView::Stmt(
            const_stmt(resolver.registered[k].1, import_from_global(resolver.registered[k].0)),
        ),
{
    reveal_strlit("external");
    reveal_strlit("import");
    let path = resolver.registered[k].0;
    assert(MODULE_EXTERNAL_NAME@.len() != MODULE_IMPORT_NAME@.len());
    assert(external_from_global(path)->Call_callee->Member_prop.sym == MODULE_EXTERNAL_NAME@);
    assert(import_from_global(path)->Call_callee->Member_prop.sym == MODULE_IMPORT_NAME@);
    let external = const_stmt(resolver.registered[k].1, external_from_global(path));
    let import = const_stmt(resolver.registered[k].1, import_from_global(path));
    assert(external->Decl_0->Var_decls[0].init == Some(external_from_global(path)));
    assert(import->Decl_0->Var_decls[0].init == Some(import_from_global(path)));
}

/// The mathematical value of a [`GlobalModuleTransformer`].
pub struct TransformerView {
    /// The name under which the module is registered.
    pub module_id: Seq<char>,
    /// Whether `import` and `export` are replaced by calls against the
    /// registry.
    pub runtime_module: bool,
    /// The external sources that have been handed to the registry, in order.
    pub external_flags: Seq<Seq<char>>,
    pub resolver: ResolverView,
}

impl TransformerView {
    /// The transformer that has lowered nothing yet.
    pub open spec fn fresh(
        module_id: Seq<char>,
        runtime_module: bool,
        external_pattern: Option<Seq<char>>,
        module_ids: Option<Seq<(Seq<char>, Seq<char>)>>,
    ) -> Self {
        TransformerView {
            module_id,
            runtime_module,
            external_flags: Seq::empty(),
            resolver: ResolverView { registered: Seq::empty(), external_pattern, module_ids },
        }
    }

    /// The private identifier that receives the namespace of the next
    /// external source.
    pub open spec fn external_ident(self) -> IdentView {
        IdentView { sym: "__external"@, mark: Mark::External(self.external_flags.len() as usize) }
    }

    /// The statements that hand the external source `src` to the registry:
    /// `import * as __external from 'src'` and
    /// `global.__modules.external('src', __external)`.
    pub open spec fn external_stmts(self, src: Seq<char>) -> Seq<ModuleItemView> {
        seq![
            namespace_import_stmt(src, self.external_ident(), None),
            ModuleItemView::Stmt(
                StmtView::Expr(
                    registry_call(
                        MODULE_EXTERNAL_NAME@,
                        seq![
                            arg_of(ExprView::Str(src)),
                            arg_of(ExprView::Ident(self.external_ident())),
                        ],
                    ),
                ),
            ),
        ]
    }

    /// The transformer after `src` has been offered as an external source.
    pub open spec fn with_external(self, src: Seq<char>) -> Self {
        if self.resolver.is_external(src) && !self.external_flags.contains(src) {
            TransformerView { external_flags: self.external_flags.push(src), ..self }
        } else {
            self
        }
    }

    /// The statements that the offer of `src` as an external source emits.
    pub open spec fn offered_external_stmts(self, src: Seq<char>) -> Seq<ModuleItemView> {
        if self.resolver.is_external(src) && !self.external_flags.contains(src) {
            self.external_stmts(src)
        } else {
            Seq::empty()
        }
    }

    /// Whether an import is left to its own declaration: imports and exports
    /// stay, the import is not made to be exported again, and its source is
    /// external.
    pub open spec fn left_to_host(self, r: ImportModuleView) -> bool {
        !self.runtime_module && !r.as_export && self.resolver.is_external(r.module_src)
    }

    /// Whether an import gets a statement that binds it.
    pub open spec fn binds(self, r: ImportModuleView) -> bool {
        !self.left_to_host(r) && (self.runtime_module || r.as_export)
    }

    /// The transformer after one import.
    pub open spec fn after_import(self, r: ImportModuleView) -> Self {
        if self.left_to_host(r) {
            self.with_external(r.module_src)
        } else if self.runtime_module {
            TransformerView {
                resolver: self.resolver.after_request(
                    r.module_src,
                    self.resolver.is_external(r.module_src),
                ),
                ..self
            }
        } else {
            self
        }
    }

    /// The statements that one import emits.
    pub open spec fn import_stmts_of(self, r: ImportModuleView) -> Seq<ModuleItemView> {
        if self.left_to_host(r) {
            self.offered_external_stmts(r.module_src)
        } else if self.runtime_module {
            seq![
                binding_stmt(
                    r,
                    Some(
                        self.resolver.ident_by_src(
                            r.module_src,
                            self.resolver.is_external(r.module_src),
                        ),
                    ),
                ),
            ]
        } else if r.as_export {
            seq![binding_stmt(r, None)]
        } else {
            Seq::empty()
        }
    }

    /// The transformer after a list of imports, taken in order.
    pub open spec fn after_imports(self, imports: Seq<ImportModuleView>) -> Self
        decreases imports.len(),
    {
        if imports.len() == 0 {
            self
        } else {
            self.after_imports(imports.drop_last()).after_import(imports.last())
        }
    }

    /// The statements that a list of imports emits, in the order of the
    /// imports.
    pub open spec fn import_stmts(self, imports: Seq<ImportModuleView>) -> Seq<ModuleItemView>
        decreases imports.len(),
    {
        if imports.len() == 0 {
            Seq::empty()
        } else {
            self.import_stmts(imports.drop_last()) + self.after_imports(
                imports.drop_last(),
            ).import_stmts_of(imports.last())
        }
    }

    /// The collector that goes over a module.
    pub open spec fn collector(self) -> CollectorView {
        CollectorView {
            runtime_module: self.runtime_module,
            imports: Seq::empty(),
            exports: Seq::empty(),
        }
    }

    /// The transformer after it has lowered a module with the items `body`.
    pub open spec fn after_module(self, body: Seq<ModuleItemView>) -> Self {
        self.after_imports(self.collector().items(body).imports)
    }

    /// The CommonJS transformer that a module without exports is handed to.
    pub open spec fn cjs(self) -> CjsView {
        CjsView {
            rules: CjsRules {
                resolver: self.resolver,
                module_name: self.module_id,
                runtime_module: self.runtime_module,
                boundary: IdentView { sym: "__cjs"@, mark: Mark::Boundary },
            },
            exported: false,
        }
    }

    /// The items of a module before the CommonJS transformer sees them: the
    /// bindings of the registered modules, where imports and exports are
    /// replaced; the statements that the imports emit; what the collector
    /// left of the module; the statement that publishes the exports.
    pub open spec fn assembled(self, body: Seq<ModuleItemView>) -> Seq<ModuleItemView> {
        let collected = self.collector().items(body);
        let after = self.after_imports(collected.imports);
        let items = self.import_stmts(collected.imports) + self.collector().output(body)
            + export_stmts(self.module_id, collected.exports);
        if self.runtime_module {
            registry_bindings(after.resolver) + items
        } else {
            items
        }
    }

    /// Whether a module with the items `body` is handed to the CommonJS
    /// transformer: it is, exactly where the collector found no export.
    pub open spec fn is_commonjs(self, body: Seq<ModuleItemView>) -> bool {
        self.collector().items(body).exports.len() == 0
    }

    /// The items of a lowered module.
    pub open spec fn lowered(self, body: Seq<ModuleItemView>) -> Seq<ModuleItemView> {
        if self.is_commonjs(body) {
            self.after_module(body).cjs().module_items(self.assembled(body))
        } else {
            self.assembled(body)
        }
    }

    /// The imports change neither the configuration of the transformer nor
    /// that of its resolver.
    pub proof fn lemma_after_imports_keeps_configuration(self, imports: Seq<ImportModuleView>)
        ensures
            self.after_imports(imports).module_id == self.module_id,
            self.after_imports(imports).runtime_module == self.runtime_module,
            self.after_imports(imports).resolver.external_pattern
                == self.resolver.external_pattern,
            self.after_imports(imports).resolver.module_ids == self.resolver.module_ids,
        decreases imports.len(),
    {
        if imports.len() > 0 {
            self.lemma_after_imports_keeps_configuration(imports.drop_last());
        }
    }

    /// One import keeps the transformer well formed and its configuration as
    /// it is. Every path that was registered before is registered at the
    /// same index afterwards. Where imports are replaced, the path of the
    /// import's source is registered afterwards.
    pub proof fn lemma_after_import(self, r: ImportModuleView)
        requires
            self.wf(),
        ensures
            self.after_import(r).wf(),
            self.after_import(r).module_id == self.module_id,
            self.after_import(r).runtime_module == self.runtime_module,
            self.after_import(r).resolver.external_pattern == self.resolver.external_pattern,
            self.after_import(r).resolver.module_ids == self.resolver.module_ids,
            forall|path: Seq<char>|
                find(self.resolver.registered, path) is Some ==> #[trigger] find(
                    self.after_import(r).resolver.registered,
                    path,
                ) == find(self.resolver.registered, path),
            self.runtime_module ==> find(
                self.after_import(r).resolver.registered,
                self.resolver.path_of(r.module_src, self.resolver.is_external(r.module_src)),
            ) is Some,
    {
        let src = r.module_src;
        if self.left_to_host(r) {
            if !self.external_flags.contains(src) {
                let flags = self.external_flags.push(src);
                assert forall|i: int, j: int|
                    0 <= i < flags.len() && 0 <= j < flags.len() && i != j implies flags[i]
                    != flags[j] by {
                    if i < self.external_flags.len() && j < self.external_flags.len() {
                        assert(flags[i] == self.external_flags[i]);
                        assert(flags[j] == self.external_flags[j]);
                    } else if i < self.external_flags.len() {
                        assert(self.external_flags.contains(self.external_flags[i]));
                    } else {
                        assert(self.external_flags.contains(self.external_flags[j]));
                    }
                }
            }
        } else if self.runtime_module {
            self.resolver.lemma_after_request(src, self.resolver.is_external(src));
        }
    }

    /// A list of imports keeps the transformer well formed and its
    /// configuration as it is. Where imports are replaced, the path of the
    /// source of every import of the list is registered afterwards.
    pub proof fn lemma_after_imports(self, imports: Seq<ImportModuleView>)
        requires
            self.wf(),
        ensures
            self.after_imports(imports).wf(),
            self.after_imports(imports).module_id == self.module_id,
            self.after_imports(imports).runtime_module == self.runtime_module,
            self.after_imports(imports).resolver.external_pattern
                == self.resolver.external_pattern,
            self.after_imports(imports).resolver.module_ids == self.resolver.module_ids,
            forall|path: Seq<char>|
                find(self.resolver.registered, path) is Some ==> #[trigger] find(
                    self.after_imports(imports).resolver.registered,
                    path,
                ) == find(self.resolver.registered, path),
            self.runtime_module ==> forall|i: int|
                0 <= i < imports.len() ==> find(
                    self.after_imports(imports).resolver.registered,
                    self.resolver.path_of(
                        (#[trigger] imports[i]).module_src,
                        self.resolver.is_external(imports[i].module_src),
                    ),
                ) is Some,
        decreases imports.len(),
    {
        if imports.len() > 0 {
            let before = self.after_imports(imports.drop_last());
            let after = self.after_imports(imports);
            self.lemma_after_imports(imports.drop_last());
            before.lemma_after_import(imports.last());
            assert forall|path: Seq<char>|
                find(self.resolver.registered, path) is Some implies #[trigger] find(
                after.resolver.registered,
                path,
            ) == find(self.resolver.registered, path) by {
                assert(find(before.resolver.registered, path) == find(
                    self.resolver.registered,
                    path,
                ));
            }
            if self.runtime_module {
                assert forall|i: int| 0 <= i < imports.len() implies find(
                    after.resolver.registered,
                    self.resolver.path_of(
                        (#[trigger] imports[i]).module_src,
                        self.resolver.is_external(imports[i].module_src),
                    ),
                ) is Some by {
                    let src = imports[i].module_src;
                    let path = self.resolver.path_of(src, self.resolver.is_external(src));
                    assert(path == before.resolver.path_of(src, before.resolver.is_external(src)));
                    if i < imports.len() - 1 {
                        assert(imports.drop_last()[i] == imports[i]);
                        assert(find(before.resolver.registered, path) is Some);
                        assert(find(after.resolver.registered, path) == find(
                            before.resolver.registered,
                            path,
                        ));
                    }
                }
            }
        }
    }

    /// Where imports are replaced, every specifier that is imported gets
    /// exactly one statement that binds its module, however often and in
    /// whatever forms it is imported: among the statements that bind the
    /// registered modules, there is one for the path of the specifier, and
    /// no second one.
    pub proof fn lemma_one_binding_per_specifier(self, imports: Seq<ImportModuleView>, i: int)
        requires
            self.wf(),
            self.runtime_module,
            0 <= i < imports.len(),
        ensures
            ({
                let resolver = self.after_imports(imports).resolver;
                let bindings = registry_bindings(resolver);
                let src = imports[i].module_src;
                let path = self.resolver.path_of(src, self.resolver.is_external(src));
                &&& bindings.len() == resolver.registered.len()
                &&& exists|k: int|
                    0 <= k < bindings.len() && (#[trigger] resolver.registered[k]).0 == path
                        && bindings[k] == registry_binding(resolver, k)
                &&& forall|j: int, k: int|
                    0 <= j < bindings.len() && 0 <= k < bindings.len() && (
                    #[trigger] resolver.registered[j]).0 == path && (
                    #[trigger] resolver.registered[k]).0 == path ==> j == k
            }),
    {
        let resolver = self.after_imports(imports).resolver;
        let src = imports[i].module_src;
        let path = self.resolver.path_of(src, self.resolver.is_external(src));
        self.lemma_after_imports(imports);
        assert(imports[i].module_src == src);
        lemma_find_some(resolver.registered, path, 0);
        let k = find(resolver.registered, path)->0;
        assert(resolver.registered[k].0 == path);
    }

    /// Where imports stay, every external source among the imports is handed
    /// to the registry exactly once. It is noted once, whatever was noted
    /// before stays noted, and where no import is made to be exported again,
    /// two statements are emitted for each source that is noted anew and
    /// nothing else.
    pub proof fn lemma_external_sources_are_handed_over_once(
        self,
        imports: Seq<ImportModuleView>,
    )
        requires
            self.wf(),
            !self.runtime_module,
        ensures
            self.after_imports(imports).external_flags.no_duplicates(),
            self.external_flags.len() <= self.after_imports(imports).external_flags.len(),
            forall|k: int|
                0 <= k < self.external_flags.len() ==> self.after_imports(
                    imports,
                ).external_flags[k] == #[trigger] self.external_flags[k],
            forall|i: int|
                0 <= i < imports.len() && self.left_to_host(#[trigger] imports[i])
                    ==> self.after_imports(imports).external_flags.contains(
                    imports[i].module_src,
                ),
            (forall|i: int| 0 <= i < imports.len() ==> !(#[trigger] imports[i]).as_export)
                ==> self.import_stmts(imports).len() == 2 * (self.after_imports(
                imports,
            ).external_flags.len() - self.external_flags.len()),
        decreases imports.len(),
    {
        if imports.len() > 0 {
            let earlier = imports.drop_last();
            let before = self.after_imports(earlier);
            let after = self.after_imports(imports);
            let last = imports.last();
            self.lemma_external_sources_are_handed_over_once(earlier);
            self.lemma_after_imports(earlier);
            before.lemma_after_import(last);
            assert(before.left_to_host(last) == self.left_to_host(last));
            assert forall|i: int|
                0 <= i < imports.len() && self.left_to_host(
                    #[trigger] imports[i],
                ) implies after.external_flags.contains(imports[i].module_src) by {
                if i < imports.len() - 1 {
                    assert(earlier[i] == imports[i]);
                    let src = imports[i].module_src;
                    let k = choose|k: int|
                        0 <= k < before.external_flags.len() && before.external_flags[k] == src;
                    assert(after.external_flags[k] == src);
                } else {
                    let src = last.module_src;
                    if before.external_flags.contains(src) {
                        let k = choose|k: int|
                            0 <= k < before.external_flags.len() && before.external_flags[k]
                                == src;
                        assert(after.external_flags[k] == src);
                    } else {
                        assert(after.external_flags[before.external_flags.len() as int] == src);
                    }
                }
            }
            if forall|i: int| 0 <= i < imports.len() ==> !(#[trigger] imports[i]).as_export {
                assert forall|i: int| 0 <= i < earlier.len() implies !(
                #[trigger] earlier[i]).as_export by {
                    assert(earlier[i] == imports[i]);
                }
                assert(!imports[imports.len() - 1].as_export);
            }
        }
    }

    /// Where imports are replaced, every statement that an import emits is a
    /// statement and no import declaration.
    pub proof fn lemma_replaced_imports_emit_statements(self, imports: Seq<ImportModuleView>)
        requires
            self.runtime_module,
        ensures
            forall|k: int|
                0 <= k < self.import_stmts(imports).len() ==> (#[trigger] self.import_stmts(
                    imports,
                )[k]) is Stmt,
        decreases imports.len(),
    {
        if imports.len() > 0 {
            self.lemma_replaced_imports_emit_statements(imports.drop_last());
            self.lemma_after_imports_keeps_configuration(imports.drop_last());
        }
    }

    /// Where imports and exports are replaced, none is left: every item of a
    /// lowered module is a statement.
    pub proof fn lemma_replaced_syntax_is_gone(self, body: Seq<ModuleItemView>)
        requires
            self.runtime_module,
        ensures
            forall|k: int|
                0 <= k < self.lowered(body).len() ==> (#[trigger] self.lowered(body)[k]) is Stmt,
    {
        let collected = self.collector().items(body);
        self.collector().lemma_stripped_output_holds_statements(body);
        self.lemma_replaced_imports_emit_statements(collected.imports);
        let assembled = self.assembled(body);
        assert forall|k: int| 0 <= k < assembled.len() implies (
        #[trigger] assembled[k]) is Stmt by {
            let bindings = registry_bindings(self.after_imports(collected.imports).resolver);
            let imports = self.import_stmts(collected.imports);
            let kept = self.collector().output(body);
            let exports = export_stmts(self.module_id, collected.exports);
            if k < bindings.len() {
            } else if k < bindings.len() + imports.len() {
                assert(assembled[k] == imports[k - bindings.len()]);
            } else if k < bindings.len() + imports.len() + kept.len() {
                assert(assembled[k] == kept[k - bindings.len() - imports.len()]);
            } else {
                assert(assembled[k] == exports[k - bindings.len() - imports.len() - kept.len()]);
            }
        }
        if self.is_commonjs(body) {
            let cjs = self.after_module(body).cjs();
            let items = cjs.rules.items(assembled);
            assert forall|k: int| 0 <= k < items.len() implies (#[trigger] items[k]) is Stmt by {
                assert(assembled[k] is Stmt);
            }
        }
    }

    /// Whether lowering a module with the items `body` may end with the
    /// result `r`, the transformer `after` and the items `out`. A construct
    /// that is not lowered is reported, the first one in the order of the
    /// items, and nothing is changed; otherwise the module is lowered.
    pub open spec fn lowers(
        self,
        body: Seq<ModuleItemView>,
        r: Result<(), Unsupported>,
        after: TransformerView,
        out: Seq<ModuleItemView>,
    ) -> bool {
        match items_unsupported(body) {
            Some(e) => r == Err::<(), Unsupported>(e) && after == self && out == body,
            None => r == Ok::<(), Unsupported>(()) && after == self.after_module(body) && out
                == self.lowered(body),
        }
    }

    /// Lowering is deterministic: whenever the same transformer lowers the
    /// same module, it ends with the same result, the same transformer and
    /// the same items.
    pub proof fn lemma_lowering_is_deterministic(
        self,
        body: Seq<ModuleItemView>,
        r1: Result<(), Unsupported>,
        after1: TransformerView,
        out1: Seq<ModuleItemView>,
        r2: Result<(), Unsupported>,
        after2: TransformerView,
        out2: Seq<ModuleItemView>,
    )
        requires
            self.lowers(body, r1, after1, out1),
            self.lowers(body, r2, after2, out2),
        ensures
            r1 == r2,
            after1 == after2,
            out1 == out2,
    {
    }

    /// A module with an export is never handed to the CommonJS transformer,
    /// and a module without an export always is.
    pub proof fn lemma_mode_exclusivity(self, body: Seq<ModuleItemView>)
        ensures
            self.collector().items(body).exports.len() >= 1 ==> self.lowered(body)
                == self.assembled(body),
            self.collector().items(body).exports.len() == 0 ==> self.lowered(body)
                == self.after_module(body).cjs().module_items(self.assembled(body)),
    {
    }

    /// Whether the resolver is well formed and no external source is noted
    /// twice.
    pub open spec fn wf(self) -> bool {
        self.resolver.wf() && self.external_flags.no_duplicates()
    }
}

/// Appends the items of `more` to `out`.
fn append_items(out: &mut Vec<ModuleItem>, more: &mut Vec<ModuleItem>)
    ensures
        seq_view(*final(out)) == seq_view(*old(out)) + seq_view(*old(more)),
{
    let ghost before = seq_view(*out);
    let ghost added = seq_view(*more);
    out.append(more);
    assert(seq_view(*out) =~= before + added);
}

/// Lowers the `import`/`export` syntax and the CommonJS idioms of modules
/// into calls against the global registry.
pub struct GlobalModuleTransformer {
    module_id: String,
    runtime_module: bool,
    external_flags: Vec<String>,
    resolver: ModuleResolver,
}

impl View for GlobalModuleTransformer {
    type V = TransformerView;

    closed spec fn view(&self) -> TransformerView {
        TransformerView {
            module_id: self.module_id@,
            runtime_module: self.runtime_module,
            external_flags: seq_view(self.external_flags),
            resolver: self.resolver@,
        }
    }
}

impl GlobalModuleTransformer {
    /// Whether the transformer is one that [`GlobalModuleTransformer::new`]
    /// made and its methods kept.
    pub closed spec fn wf(&self) -> bool {
        self.resolver.wf() && self@.wf()
    }

    /// A transformer for the module registered as `module_id`. It is refused
    /// where a pattern does not compile, as [`refusal`] says.
    pub fn new(
        module_id: String,
        runtime_module: bool,
        external_pattern: Option<String>,
        module_ids: Option<ModuleIds>,
    ) -> (r: Result<Self, ConfigError>)
        ensures
            match refusal(opt_string_view(external_pattern)) {
                Some(e) => r matches Err(err) && err == e,
                None => {
                    &&& r matches Ok(transformer)
                    &&& transformer.wf()
                    &&& transformer@ == TransformerView::fresh(
                        module_id@,
                        runtime_module,
                        opt_string_view(external_pattern),
                        opt_ids_view(module_ids),
                    )
                },
            },
    {
        match ModuleResolver::new(external_pattern, module_ids) {
            Ok(resolver) => {
                let transformer = GlobalModuleTransformer {
                    module_id,
                    runtime_module,
                    external_flags: Vec::new(),
                    resolver,
                };
                proof {
                    resolver.lemma_wf();
                }
                assert(transformer@.external_flags =~= Seq::empty());
                Ok(transformer)
            },
            Err(e) => Err(e),
        }
    }

    /// The resolver of the transformer.
    pub fn resolver(&self) -> (r: &ModuleResolver)
        ensures
            r@ == self@.resolver,
            self.wf() ==> r.wf(),
    {
        &self.resolver
    }

    /// Whether `src` has been handed to the registry as an external source.
    fn is_registered_external(&self, src: &String) -> (b: bool)
        ensures
            b == self@.external_flags.contains(src@),
    {
        let ghost flags = seq_view(self.external_flags);
        let mut i: usize = 0;
        while i < self.external_flags.len()
            invariant
                i <= self.external_flags.len(),
                flags == seq_view(self.external_flags),
                forall|j: int| 0 <= j < i ==> flags[j] != src@,
            decreases self.external_flags.len() - i,
        {
            assert(flags[i as int] == self.external_flags[i as int]@);
            if self.external_flags[i] == *src {
                return true;
            }
            i += 1;
        }
        false
    }

    /// Offers `src` as an external source, and says whether it is one. An
    /// external source that has not been handed to the registry yet is handed
    /// to it now, by two statements appended to `stmts`:
    /// `import * as __external from 'src'` and
    /// `global.__modules.external('src', __external)`.
    pub fn register_external_module(&mut self, stmts: &mut Vec<ModuleItem>, src: &String) -> (b:
        bool)
        requires
            old(self).wf(),
        ensures
            final(self).wf(),
            b == old(self)@.resolver.is_external(src@),
            final(self)@ == old(self)@.with_external(src@),
            seq_view(*final(stmts)) == seq_view(*old(stmts)) + old(self)@.offered_external_stmts(
                src@,
            ),
    {
        if !self.resolver.is_external(src) {
            assert(seq_view(*stmts) =~= seq_view(*stmts) + Seq::<ModuleItemView>::empty());
            false
        } else if self.is_registered_external(src) {
            assert(seq_view(*stmts) =~= seq_view(*stmts) + Seq::<ModuleItemView>::empty());
            true
        } else {
            let external_ident = private_ident(
                "__external",
                Mark::External(self.external_flags.len()),
            );
            let ghost before = seq_view(*stmts);
            let ghost flags = seq_view(self.external_flags);
            self.external_flags.push(src.clone());
            assert(seq_view(self.external_flags) =~= flags.push(src@));
            push_item(stmts, create_namespace_import_stmt(src, &external_ident, None));
            let mut args: Vec<Arg> = Vec::new();
            args.push(Expr::Str(src.clone()).as_arg());
            args.push(Expr::Ident(external_ident).as_arg());
            assert(args_view(args) =~= seq![
                arg_of(ExprView::Str(src@)),
                arg_of(ExprView::Ident(old(self)@.external_ident())),
            ]);
            push_item(
                stmts,
                ModuleItem::Stmt(
                    registry_member_expr(MODULE_EXTERNAL_NAME).as_call(args).into_stmt(),
                ),
            );
            assert(seq_view(*stmts) =~= before + old(self)@.external_stmts(src@));
            true
        }
    }

    /// The statement that binds one import.
    fn create_binding_stmt(record: &ImportModule, module: Option<&Ident>) -> (r: ModuleItem)
        ensures
            r@ == binding_stmt(record@, opt_ref_view(module)),
    {
        match record.module_type {
            ModuleType::Default | ModuleType::DefaultAsNamed => create_default_import_stmt(
                &record.module_src,
                &record.ident,
                module,
            ),
            ModuleType::Named => create_named_import_stmt(
                &record.module_src,
                &record.ident,
                module,
                &record.imported,
            ),
            ModuleType::NamespaceOrAll => create_namespace_import_stmt(
                &record.module_src,
                &record.ident,
                module,
            ),
        }
    }

    /// Returns the statements that the imports emit, in the order of the
    /// imports.
    ///
    /// Where imports are replaced, every import is bound by a read off its
    /// module object, and the module is registered with the resolver at its
    /// first import. Where imports stay, an import that is made to be
    /// exported again is bound by an import declaration; of the others, each
    /// external source is handed to the registry once, and nothing else is
    /// emitted.
    pub fn convert_esm_import(&mut self, imports: &Vec<ImportModule>) -> (r: Vec<ModuleItem>)
        requires
            old(self).wf(),
        ensures
            final(self).wf(),
            final(self)@ == old(self)@.after_imports(seq_view(*imports)),
            seq_view(r) == old(self)@.import_stmts(seq_view(*imports)),
    {
        let ghost start = self@;
        let ghost records = seq_view(*imports);
        let mut stmts: Vec<ModuleItem> = Vec::new();
        assert(seq_view(stmts) =~= Seq::empty());
        let mut i: usize = 0;
        while i < imports.len()
            invariant
                i <= imports.len(),
                records == seq_view(*imports),
                self.wf(),
                self@ == start.after_imports(records.take(i as int)),
                seq_view(stmts) == start.import_stmts(records.take(i as int)),
            decreases imports.len() - i,
        {
            assert(records.take(i + 1).drop_last() =~= records.take(i as int));
            assert(records[i as int] == imports[i as int]@);
            let record = &imports[i];
            let ghost before = self@;
            let ghost emitted = seq_view(stmts);
            let left_to_host = !self.runtime_module && !record.as_export
                && self.register_external_module(&mut stmts, &record.module_src);
            if !left_to_host {
                if self.runtime_module {
                    let is_external = self.resolver.is_external(&record.module_src);
                    let ident = self.resolver.get_ident_by_src(&record.module_src, is_external);
                    proof {
                        self.resolver.lemma_wf();
                    }
                    push_item(&mut stmts, Self::create_binding_stmt(record, Some(&ident)));
                    assert(seq_view(stmts) =~= emitted + before.import_stmts_of(record@));
                } else if record.as_export {
                    push_item(&mut stmts, Self::create_binding_stmt(record, None));
                    assert(seq_view(stmts) =~= emitted + before.import_stmts_of(record@));
                } else {
                    assert(seq_view(stmts) =~= emitted + before.import_stmts_of(record@));
                }
            }
            i += 1;
        }
        assert(records.take(imports.len() as int) =~= records);
        stmts
    }

    /// Returns the statements that publish the exports: none without
    /// exports, otherwise the one statement
    /// `global.__modules.esm('module_id', { props }, wildcards)`. Every export
    /// that is not a wildcard has its property, in the order of the exports,
    /// and every wildcard export its argument behind the properties.
    pub fn convert_esm_export(&self, exports: &Vec<ExportModule>) -> (r: Vec<ModuleItem>)
        ensures
            seq_view(r) == export_stmts(self@.module_id, seq_view(*exports)),
    {
        let ghost records = seq_view(*exports);
        let mut stmts: Vec<ModuleItem> = Vec::new();
        let mut props: Vec<Prop> = Vec::new();
        let mut wildcards: Vec<Arg> = Vec::new();
        assert(props_view(props) =~= export_props(records.take(0)));
        assert(args_view(wildcards) =~= export_wildcards(records.take(0)));
        let mut i: usize = 0;
        while i < exports.len()
            invariant
                i <= exports.len(),
                records == seq_view(*exports),
                props_view(props) == export_props(records.take(i as int)),
                args_view(wildcards) == export_wildcards(records.take(i as int)),
            decreases exports.len() - i,
        {
            assert(records.take(i + 1).drop_last() =~= records.take(i as int));
            assert(records[i as int] == exports[i as int]@);
            let record = &exports[i];
            match record.module_type {
                ModuleType::Default | ModuleType::DefaultAsNamed => {
                    push_prop(
                        &mut props,
                        Prop::KeyValue {
                            key: quote_ident("default"),
                            value: Expr::Ident(record.ident.clone()),
                        },
                    );
                },
                ModuleType::Named => {
                    let renamed = match &record.as_ident {
                        Some(renamed_ident) => if renamed_ident.sym != record.ident.sym {
                            Some(renamed_ident)
                        } else {
                            None
                        },
                        None => None,
                    };
                    let prop = match renamed {
                        Some(renamed_ident) => Prop::KeyValue {
                            key: quote_ident(renamed_ident.sym.as_str()),
                            value: Expr::Ident(record.ident.clone()),
                        },
                        None => Prop::Shorthand(record.ident.clone()),
                    };
                    push_prop(&mut props, prop);
                },
                ModuleType::NamespaceOrAll => {
                    push_arg(
                        &mut wildcards,
                        Expr::Ident(record.ident.clone()).as_arg(),
                    );
                },
            }
            i += 1;
        }
        assert(records.take(exports.len() as int) =~= records);
        if exports.len() > 0 {
            let mut args: Vec<Arg> = Vec::new();
            args.push(Expr::Str(self.module_id.clone()).as_arg());
            args.push(obj_lit(Some(props)).as_arg());
            let ghost head = args_view(args);
            assert(head =~= seq![
                arg_of(ExprView::Str(self@.module_id)),
                arg_of(ExprView::Object(export_props(records))),
            ]);
            let ghost tail = args_view(wildcards);
            args.append(&mut wildcards);
            assert(args_view(args) =~= head + tail);
            stmts.push(
                ModuleItem::Stmt(registry_member_expr(ESM_API_NAME).as_call(args).into_stmt()),
            );
            assert(seq_view(stmts) =~= export_stmts(self@.module_id, records));
        } else {
            assert(seq_view(stmts) =~= export_stmts(self@.module_id, records));
        }
        stmts
    }

    /// Returns the statements that bind the registered modules, in the order
    /// of their registration.
    fn registry_binding_stmts(&self) -> (r: Vec<ModuleItem>)
        requires
            self.wf(),
        ensures
            seq_view(r) == registry_bindings(self@.resolver),
    {
        let registered = self.resolver.registered_idents();
        let ghost bindings = registry_bindings(self@.resolver);
        let mut out: Vec<ModuleItem> = Vec::new();
        assert(seq_view(out) =~= bindings.take(0));
        let mut k: usize = 0;
        while k < registered.len()
            invariant
                k <= registered.len(),
                self.wf(),
                seq_view(*registered) == self@.resolver.registered,
                bindings == registry_bindings(self@.resolver),
                seq_view(out) == bindings.take(k as int),
            decreases registered.len() - k,
        {
            assert(seq_view(*registered)[k as int] == registered[k as int]@);
            let path = &registered[k].0;
            let ident = &registered[k].1;
            let module = if self.resolver.is_external(path) {
                external_module_from_global(path)
            } else {
                import_module_from_global(path)
            };
            push_item(&mut out, ModuleItem::Stmt(decl_var_and_assign_stmt(ident, module)));
            assert(seq_view(out) =~= bindings.take(k + 1));
            k += 1;
        }
        assert(bindings.take(registered.len() as int) =~= bindings);
        out
    }

    /// Lowers a module.
    ///
    /// The collector goes over the items of the module. The statements that
    /// the imports emit are put before what the collector left of the
    /// module, and the statement that publishes the exports behind it. Where
    /// imports and exports are replaced, the bindings of the registered
    /// modules are put before all of it. A module in which the collector
    /// found no export is then handed to the CommonJS transformer; a module
    /// with an export never is.
    ///
    /// A construct that is not lowered stops the pass before anything is
    /// changed; the first one in the order of the items is reported.
    pub fn visit_mut_module(&mut self, module: &mut Module) -> (r: Result<(), Unsupported>)
        requires
            old(self).wf(),
        ensures
            final(self).wf(),
            old(self)@.lowers(old(module)@.body, r, final(self)@, final(module)@.body),
    {
        let ghost start = self@;
        let ghost body = module@.body;
        let mut esm_collector = EsModuleCollector::new(self.runtime_module);
        match esm_collector.visit_mut_module(module) {
            Err(e) => {
                return Err(e);
            },
            Ok(()) => {},
        }
        let mut import_stmts = self.convert_esm_import(&esm_collector.imports);
        let mut export_stmts = self.convert_esm_export(&esm_collector.exports);
        let mut items: Vec<ModuleItem> = if self.runtime_module {
            self.registry_binding_stmts()
        } else {
            Vec::new()
        };
        proof {
            start.lemma_after_imports_keeps_configuration(esm_collector@.imports);
        }
        append_items(&mut items, &mut import_stmts);
        append_items(&mut items, &mut module.body);
        append_items(&mut items, &mut export_stmts);
        assert(seq_view(items) =~= start.assembled(body));
        if esm_collector.exports.len() == 0 {
            let mut cjs_transformer = CommonJsTransformer::new(
                &self.resolver,
                self.module_id.clone(),
                self.runtime_module,
            );
            cjs_transformer.visit_mut_module_items(&mut items);
        }
        module.body = items;
        Ok(())
    }
}

/// A transformer for the module registered as `module_id`.
///
/// With `runtime_module`, `import` and `export` are replaced by calls against
/// the registry; without it they stay, and the registry is used for the
/// exports and the external sources only. Specifiers that match
/// `external_pattern` are left to the host's own loader. `module_ids` remaps
/// the specifiers that are not external.
///
/// The configuration is refused where a pattern does not compile, as
/// [`refusal`] says.
pub fn global_module(
    module_id: String,
    runtime_module: bool,
    external_pattern: Option<String>,
    module_ids: Option<ModuleIds>,
) -> (r: Result<GlobalModuleTransformer, ConfigError>)
    ensures
        match refusal(opt_string_view(external_pattern)) {
            Some(e) => r matches Err(err) && err == e,
            None => {
                &&& r matches Ok(transformer)
                &&& transformer.wf()
                &&& transformer@ == TransformerView::fresh(
                    module_id@,
                    runtime_module,
                    opt_string_view(external_pattern),
                    opt_ids_view(module_ids),
                )
            },
        },
{
    GlobalModuleTransformer::new(module_id, runtime_module, external_pattern, module_ids)
}

} // verus!
