//! Collects the imports and exports of a module and rewrites its `export`
//! declarations into plain declarations.

use vstd::prelude::*;
use crate::ast::{
    clone_decl, clone_expr, clone_opaque, declarators_view, var_decl_of, Decl, DeclView, Expr,
    OpaqueView, Pat, PatView, Stmt, StmtView, VarDeclKind, VarDeclaratorView,
};
use crate::helpers::{invalid_module_decl, is_invalid_module_decl};
use crate::ident::{clone_opt_ident, opt_ident_view, private_ident, Ident, IdentView, Mark};
use crate::module::{
    opt_name_view, push_item, seq_view, DefaultDecl, DefaultDeclView, ExportAll, ExportAllView,
    ExportSpecifier, ExportSpecifierView, ImportDecl, ImportDeclView, ImportSpecifier,
    ImportSpecifierView, Module, ModuleDecl, ModuleDeclView, ModuleExportName,
    ModuleExportNameView, ModuleItem, ModuleItemView, NamedExport, NamedExportView,
};

verus! {

/// The kind of an import or of an export.
#[derive(Clone, Copy, Debug, PartialEq, Eq, Hash, Structural)]
pub enum ModuleType {
    /// The default export of a module.
    Default,
    /// A named binding.
    Named,
    /// The default export of another module, re-exported under a name.
    DefaultAsNamed,
    /// Of an import: the namespace of a module. Of an export: everything that
    /// another module exports.
    NamespaceOrAll,
}

/// A construct that the pass does not lower. The pass stops at the first one
/// rather than lose the binding.
#[derive(Clone, Copy, Debug, PartialEq, Eq, Hash, Structural)]
pub enum Unsupported {
    /// A string stands where the name of an import or of an export is
    /// expected.
    StringName,
    /// An exported variable is declared by a destructuring pattern.
    PatternBinding,
    /// An export clause of a form that is not lowered.
    ExportClause,
}

/// One imported binding.
#[derive(Debug, PartialEq, Eq)]
pub struct ImportModule {
    /// The local binding.
    pub ident: Ident,
    /// The name under which the source exports it; without one, the name of
    /// the local binding.
    pub imported: Option<Ident>,
    /// The specifier of the source.
    pub module_src: String,
    pub module_type: ModuleType,
    /// Whether the binding is imported only to be exported again.
    pub as_export: bool,
}

/// One exported binding.
#[derive(Debug, PartialEq, Eq)]
pub struct ExportModule {
    /// The binding: `a` in `export { a as b }`.
    pub ident: Ident,
    /// The name under which it is exported: `b` in `export { a as b }`.
    pub as_ident: Option<Ident>,
    pub module_type: ModuleType,
}

/// The mathematical value of an [`ImportModule`].
pub struct ImportModuleView {
    pub ident: IdentView,
    pub imported: Option<IdentView>,
    pub module_src: Seq<char>,
    pub module_type: ModuleType,
    pub as_export: bool,
}

/// The mathematical value of an [`ExportModule`].
pub struct ExportModuleView {
    pub ident: IdentView,
    pub as_ident: Option<IdentView>,
    pub module_type: ModuleType,
}

impl ImportModuleView {
    /// The import of a default export.
    pub open spec fn default(
        ident: IdentView,
        imported: Option<IdentView>,
        module_src: Seq<char>,
    ) -> Self {
        ImportModuleView {
            ident,
            imported,
            module_src,
            module_type: ModuleType::Default,
            as_export: false,
        }
    }

    /// The import of a named export.
    pub open spec fn named(
        ident: IdentView,
        imported: Option<IdentView>,
        module_src: Seq<char>,
    ) -> Self {
        ImportModuleView {
            ident,
            imported,
            module_src,
            module_type: ModuleType::Named,
            as_export: false,
        }
    }

    /// The import of a namespace.
    pub open spec fn namespace(
        ident: IdentView,
        imported: Option<IdentView>,
        module_src: Seq<char>,
    ) -> Self {
        ImportModuleView {
            ident,
            imported,
            module_src,
            module_type: ModuleType::NamespaceOrAll,
            as_export: false,
        }
    }

    /// The same import, made only to be exported again.
    pub open spec fn re_exported(self) -> Self {
        ImportModuleView { as_export: true, ..self }
    }
}

impl ExportModuleView {
    /// The default export.
    pub open spec fn default(ident: IdentView) -> Self {
        ExportModuleView { ident, as_ident: None, module_type: ModuleType::Default }
    }

    /// A named export.
    pub open spec fn named(ident: IdentView, as_ident: Option<IdentView>) -> Self {
        ExportModuleView { ident, as_ident, module_type: ModuleType::Named }
    }

    /// The export of everything that another module exports.
    pub open spec fn all(ident: IdentView, as_ident: Option<IdentView>) -> Self {
        ExportModuleView { ident, as_ident, module_type: ModuleType::NamespaceOrAll }
    }
}

impl View for ImportModule {
    type V = ImportModuleView;

    open spec fn view(&self) -> ImportModuleView {
        ImportModuleView {
            ident: self.ident@,
            imported: opt_ident_view(self.imported),
            module_src: self.module_src@,
            module_type: self.module_type,
            as_export: self.as_export,
        }
    }
}

impl View for ExportModule {
    type V = ExportModuleView;

    open spec fn view(&self) -> ExportModuleView {
        ExportModuleView {
            ident: self.ident@,
            as_ident: opt_ident_view(self.as_ident),
            module_type: self.module_type,
        }
    }
}

impl Clone for ImportModule {
    fn clone(&self) -> (r: Self)
        ensures
            r@ == self@,
    {
        ImportModule {
            ident: self.ident.clone(),
            imported: clone_opt_ident(&self.imported),
            module_src: self.module_src.clone(),
            module_type: self.module_type,
            as_export: self.as_export,
        }
    }
}

impl Clone for ExportModule {
    fn clone(&self) -> (r: Self)
        ensures
            r@ == self@,
    {
        ExportModule {
            ident: self.ident.clone(),
            as_ident: clone_opt_ident(&self.as_ident),
            module_type: self.module_type,
        }
    }
}

impl ImportModule {
    /// The import of a default export.
    pub fn default(ident: Ident, imported: Option<Ident>, module_src: String) -> (r: Self)
        ensures
            r@ == ImportModuleView::default(ident@, opt_ident_view(imported), module_src@),
    {
        ImportModule {
            ident,
            imported,
            module_src,
            module_type: ModuleType::Default,
            as_export: false,
        }
    }

    /// The import of a named export.
    pub fn named(ident: Ident, imported: Option<Ident>, module_src: String) -> (r: Self)
        ensures
            r@ == ImportModuleView::named(ident@, opt_ident_view(imported), module_src@),
    {
        ImportModule {
            ident,
            imported,
            module_src,
            module_type: ModuleType::Named,
            as_export: false,
        }
    }

    /// The import of a namespace.
    pub fn namespace(ident: Ident, imported: Option<Ident>, module_src: String) -> (r: Self)
        ensures
            r@ == ImportModuleView::namespace(ident@, opt_ident_view(imported), module_src@),
    {
        ImportModule {
            ident,
            imported,
            module_src,
            module_type: ModuleType::NamespaceOrAll,
            as_export: false,
        }
    }

    /// The same import, made only to be exported again.
    pub fn re_exported(self) -> (r: Self)
        ensures
            r@ == self@.re_exported(),
    {
        ImportModule {
            ident: self.ident,
            imported: self.imported,
            module_src: self.module_src,
            module_type: self.module_type,
            as_export: true,
        }
    }
}

impl ExportModule {
    /// The default export.
    pub fn default(ident: Ident) -> (r: Self)
        ensures
            r@ == ExportModuleView::default(ident@),
    {
        ExportModule { ident, as_ident: None, module_type: ModuleType::Default }
    }

    /// A named export.
    pub fn named(ident: Ident, as_ident: Option<Ident>) -> (r: Self)
        ensures
            r@ == ExportModuleView::named(ident@, opt_ident_view(as_ident)),
    {
        ExportModule { ident, as_ident, module_type: ModuleType::Named }
    }

    /// The export of everything that another module exports.
    pub fn all(ident: Ident, as_ident: Option<Ident>) -> (r: Self)
        ensures
            r@ == ExportModuleView::all(ident@, opt_ident_view(as_ident)),
    {
        ExportModule { ident, as_ident, module_type: ModuleType::NamespaceOrAll }
    }
}

/// The identifier behind a name, where the name is an identifier.
pub open spec fn name_ident(name: Option<ModuleExportNameView>) -> Option<IdentView> {
    match name {
        Some(ModuleExportNameView::Ident(i)) => Some(i),
        _ => None,
    }
}

/// Whether an item stays in the list of items once the collector has gone
/// over it: empty statements go, and so do imports without specifiers and
/// without a source.
pub open spec fn kept(item: ModuleItemView) -> bool {
    match item {
        ModuleItemView::ModuleDecl(decl) => !invalid_module_decl(decl),
        ModuleItemView::Stmt(stmt) => !(stmt is Empty),
    }
}

/// The construct of an import clause that is not lowered, if there is one.
pub open spec fn import_specifier_unsupported(s: ImportSpecifierView) -> Option<Unsupported> {
    match s {
        ImportSpecifierView::Named { imported: Some(ModuleExportNameView::Str(_)), .. } => Some(
            Unsupported::StringName,
        ),
        _ => None,
    }
}

/// The first construct that is not lowered among the import clauses from
/// `start` on.
pub open spec fn import_specifiers_unsupported_from(
    items: Seq<ImportSpecifierView>,
    start: int,
) -> Option<Unsupported>
    decreases items.len() - start,
{
    if start < 0 || start >= items.len() {
        None
    } else {
        match import_specifier_unsupported(items[start]) {
            Some(e) => Some(e),
            None => import_specifiers_unsupported_from(items, start + 1),
        }
    }
}

/// The first construct of a list of import clauses that is not lowered.
pub open spec fn import_specifiers_unsupported(items: Seq<ImportSpecifierView>) -> Option<
    Unsupported,
> {
    import_specifiers_unsupported_from(items, 0)
}

/// The construct of a clause of an export without a source that is not
/// lowered, if there is one. A clause that exports a type binds no value and
/// is passed over.
pub open spec fn local_export_unsupported(s: ExportSpecifierView) -> Option<Unsupported> {
    match s {
        ExportSpecifierView::Named { orig, exported, is_type_only } => if is_type_only {
            None
        } else if orig is Str || exported matches Some(ModuleExportNameView::Str(_)) {
            Some(Unsupported::StringName)
        } else {
            None
        },
        _ => Some(Unsupported::ExportClause),
    }
}

/// The first construct that is not lowered among the clauses, from `start`
/// on, of an export without a source.
pub open spec fn local_exports_unsupported_from(
    items: Seq<ExportSpecifierView>,
    start: int,
) -> Option<Unsupported>
    decreases items.len() - start,
{
    if start < 0 || start >= items.len() {
        None
    } else {
        match local_export_unsupported(items[start]) {
            Some(e) => Some(e),
            None => local_exports_unsupported_from(items, start + 1),
        }
    }
}

/// The first construct of the clauses of an export without a source that is
/// not lowered.
pub open spec fn local_exports_unsupported(items: Seq<ExportSpecifierView>) -> Option<Unsupported> {
    local_exports_unsupported_from(items, 0)
}

/// The construct of a clause of a re-export that is not lowered, if there is
/// one.
pub open spec fn re_export_unsupported(s: ExportSpecifierView) -> Option<Unsupported> {
    match s {
        ExportSpecifierView::Named { orig, exported, .. } => if orig is Str
            || exported matches Some(ModuleExportNameView::Str(_)) {
            Some(Unsupported::StringName)
        } else {
            None
        },
        _ => Some(Unsupported::ExportClause),
    }
}

/// The first construct that is not lowered among the clauses of a re-export
/// from `start` on.
pub open spec fn re_exports_unsupported_from(
    items: Seq<ExportSpecifierView>,
    start: int,
) -> Option<Unsupported>
    decreases items.len() - start,
{
    if start < 0 || start >= items.len() {
        None
    } else {
        match re_export_unsupported(items[start]) {
            Some(e) => Some(e),
            None => re_exports_unsupported_from(items, start + 1),
        }
    }
}

/// The first construct of the clauses of a re-export that is not lowered.
pub open spec fn re_exports_unsupported(items: Seq<ExportSpecifierView>) -> Option<Unsupported> {
    re_exports_unsupported_from(items, 0)
}

/// Whether a re-export is of the form `export * as name from`.
pub open spec fn is_namespace_re_export(n: NamedExportView) -> bool {
    n.src is Some && n.specifiers.len() > 0 && n.specifiers[0] is Namespace
}

/// The first construct of a named export that is not lowered.
pub open spec fn named_export_unsupported(n: NamedExportView) -> Option<Unsupported> {
    if n.src is None {
        local_exports_unsupported(n.specifiers)
    } else if is_namespace_re_export(n) {
        if n.specifiers[0]->Namespace_name is Str {
            Some(Unsupported::StringName)
        } else {
            None
        }
    } else {
        re_exports_unsupported(n.specifiers)
    }
}

/// The construct of a declarator of an exported variable that is not
/// lowered, if there is one.
pub open spec fn declarator_unsupported(d: VarDeclaratorView) -> Option<Unsupported> {
    if d.name is Ident {
        None
    } else {
        Some(Unsupported::PatternBinding)
    }
}

/// The first construct that is not lowered among the declarators, from
/// `start` on, of an exported variable.
pub open spec fn declarators_unsupported_from(
    items: Seq<VarDeclaratorView>,
    start: int,
) -> Option<Unsupported>
    decreases items.len() - start,
{
    if start < 0 || start >= items.len() {
        None
    } else {
        match declarator_unsupported(items[start]) {
            Some(e) => Some(e),
            None => declarators_unsupported_from(items, start + 1),
        }
    }
}

/// The first construct of the declarators of an exported variable that is
/// not lowered.
pub open spec fn declarators_unsupported(items: Seq<VarDeclaratorView>) -> Option<Unsupported> {
    declarators_unsupported_from(items, 0)
}

/// The first construct of an exported declaration that is not lowered.
pub open spec fn export_decl_unsupported(d: DeclView) -> Option<Unsupported> {
    match d {
        DeclView::Var { decls, .. } => declarators_unsupported(decls),
        _ => None,
    }
}

/// The first construct of an item that is not lowered.
pub open spec fn item_unsupported(item: ModuleItemView) -> Option<Unsupported> {
    match item {
        ModuleItemView::ModuleDecl(ModuleDeclView::Import(d)) => import_specifiers_unsupported(
            d.specifiers,
        ),
        ModuleItemView::ModuleDecl(ModuleDeclView::ExportDecl(d)) => export_decl_unsupported(d),
        ModuleItemView::ModuleDecl(ModuleDeclView::ExportNamed(n)) => named_export_unsupported(n),
        _ => None,
    }
}

/// The first construct that is not lowered among the items from `start` on.
pub open spec fn items_unsupported_from(items: Seq<ModuleItemView>, start: int) -> Option<
    Unsupported,
>
    decreases items.len() - start,
{
    if start < 0 || start >= items.len() {
        None
    } else {
        match item_unsupported(items[start]) {
            Some(e) => Some(e),
            None => items_unsupported_from(items, start + 1),
        }
    }
}

/// The first construct of a list of items that is not lowered.
pub open spec fn items_unsupported(items: Seq<ModuleItemView>) -> Option<Unsupported> {
    items_unsupported_from(items, 0)
}

/// The mathematical value of an [`EsModuleCollector`].
pub struct CollectorView {
    pub runtime_module: bool,
    pub imports: Seq<ImportModuleView>,
    pub exports: Seq<ExportModuleView>,
}

impl CollectorView {
    /// The private identifier spelled `sym` that is introduced with the next
    /// export record.
    pub open spec fn fresh(self, sym: Seq<char>) -> IdentView {
        IdentView { sym, mark: Mark::Export(self.exports.len() as usize) }
    }

    /// The collector with one more import record.
    pub open spec fn import(self, r: ImportModuleView) -> Self {
        CollectorView { imports: self.imports.push(r), ..self }
    }

    /// The collector with one more export record.
    pub open spec fn export(self, r: ExportModuleView) -> Self {
        CollectorView { exports: self.exports.push(r), ..self }
    }

    /// The collector after one clause of an import from `src`.
    pub open spec fn import_specifier(self, s: ImportSpecifierView, src: Seq<char>) -> Self {
        match s {
            ImportSpecifierView::Default { local } => self.import(
                ImportModuleView::default(local, None, src),
            ),
            ImportSpecifierView::Named { local, imported, .. } => self.import(
                ImportModuleView::named(local, name_ident(imported), src),
            ),
            ImportSpecifierView::Namespace { local } => self.import(
                ImportModuleView::namespace(local, None, src),
            ),
        }
    }

    /// The collector after the clauses of an import from `src`, taken in
    /// order.
    pub open spec fn import_specifiers(
        self,
        specs: Seq<ImportSpecifierView>,
        src: Seq<char>,
    ) -> Self
        decreases specs.len(),
    {
        if specs.len() == 0 {
            self
        } else {
            self.import_specifiers(specs.drop_last(), src).import_specifier(specs.last(), src)
        }
    }

    /// The collector after an import declaration.
    pub open spec fn import_decl(self, d: ImportDeclView) -> Self {
        self.import_specifiers(d.specifiers, d.src)
    }

    /// The collector after one clause of an export without a source.
    pub open spec fn local_export(self, s: ExportSpecifierView) -> Self {
        match s {
            ExportSpecifierView::Named {
                orig: ModuleExportNameView::Ident(orig),
                exported,
                is_type_only: false,
            } => self.export(ExportModuleView::named(orig, name_ident(exported))),
            _ => self,
        }
    }

    /// The collector after the clauses of an export without a source, taken
    /// in order.
    pub open spec fn local_exports(self, specs: Seq<ExportSpecifierView>) -> Self
        decreases specs.len(),
    {
        if specs.len() == 0 {
            self
        } else {
            self.local_exports(specs.drop_last()).local_export(specs.last())
        }
    }

    /// The collector after one clause of a re-export from `src`: the binding
    /// is imported under a private identifier and exported under the name of
    /// the clause.
    pub open spec fn re_export(self, s: ExportSpecifierView, src: Seq<char>) -> Self {
        match s {
            ExportSpecifierView::Named {
                orig: ModuleExportNameView::Ident(orig),
                exported,
                ..
            } => {
                let ident = self.fresh("__re_export"@);
                self.import(
                    ImportModuleView {
                        ident,
                        imported: Some(orig),
                        module_src: src,
                        module_type: if orig.sym == "default"@ {
                            ModuleType::DefaultAsNamed
                        } else {
                            ModuleType::Named
                        },
                        as_export: true,
                    },
                ).export(
                    ExportModuleView::named(
                        ident,
                        Some(
                            match name_ident(exported) {
                                Some(name) => name,
                                None => orig,
                            },
                        ),
                    ),
                )
            },
            _ => self,
        }
    }

    /// The collector after the clauses of a re-export from `src`, taken in
    /// order.
    pub open spec fn re_exports(self, specs: Seq<ExportSpecifierView>, src: Seq<char>) -> Self
        decreases specs.len(),
    {
        if specs.len() == 0 {
            self
        } else {
            self.re_exports(specs.drop_last(), src).re_export(specs.last(), src)
        }
    }

    /// The collector after `export * as name from 'src'`.
    pub open spec fn namespace_re_export(self, name: ModuleExportNameView, src: Seq<char>) -> Self {
        match name {
            ModuleExportNameView::Ident(name) => {
                let ident = self.fresh("__re_export"@);
                self.import(ImportModuleView::namespace(ident, None, src).re_exported()).export(
                    ExportModuleView::named(ident, Some(name)),
                )
            },
            _ => self,
        }
    }

    /// The collector after a named export.
    pub open spec fn named_export(self, n: NamedExportView) -> Self {
        match n.src {
            None => self.local_exports(n.specifiers),
            Some(src) => if is_namespace_re_export(n) {
                self.namespace_re_export(n.specifiers[0]->Namespace_name, src)
            } else {
                self.re_exports(n.specifiers, src)
            },
        }
    }

    /// The collector after `export * from 'src'`.
    pub open spec fn export_all(self, a: ExportAllView) -> Self {
        let ident = self.fresh("__re_export_all"@);
        self.import(ImportModuleView::namespace(ident, None, a.src).re_exported()).export(
            ExportModuleView::all(ident, None),
        )
    }

    /// The identifier under which `export default expr` binds its value.
    pub open spec fn default_expr_ident(self) -> IdentView {
        self.fresh("__export_default"@)
    }

    /// The collector after `export default expr`.
    pub open spec fn default_expr(self) -> Self {
        self.export(ExportModuleView::default(self.default_expr_ident()))
    }

    /// The name of a default declaration: its own where it has one, otherwise
    /// the private one spelled `sym`.
    pub open spec fn name_or_fresh(self, ident: Option<IdentView>, sym: Seq<char>) -> IdentView {
        match ident {
            Some(i) => i,
            None => self.fresh(sym),
        }
    }

    /// The collector after `export default` with a declaration.
    pub open spec fn default_decl(self, d: DefaultDeclView) -> Self {
        match d {
            DefaultDeclView::Class { ident, .. } => self.export(
                ExportModuleView::default(self.name_or_fresh(ident, "__Class"@)),
            ),
            DefaultDeclView::Fn { ident, .. } => self.export(
                ExportModuleView::default(self.name_or_fresh(ident, "__fn"@)),
            ),
            DefaultDeclView::Other(_) => self,
        }
    }

    /// The default declaration once the collector has gone over it: a
    /// declaration without a name has got its private name.
    pub open spec fn named_default_decl(self, d: DefaultDeclView) -> DefaultDeclView {
        match d {
            DefaultDeclView::Class { ident, class } => DefaultDeclView::Class {
                ident: Some(self.name_or_fresh(ident, "__Class"@)),
                class,
            },
            DefaultDeclView::Fn { ident, function } => DefaultDeclView::Fn {
                ident: Some(self.name_or_fresh(ident, "__fn"@)),
                function,
            },
            DefaultDeclView::Other(_) => d,
        }
    }

    /// The plain declaration that takes the place of a default declaration
    /// where exports are stripped.
    pub open spec fn default_decl_stmt(self, d: DefaultDeclView) -> Option<StmtView> {
        if self.runtime_module {
            match d {
                DefaultDeclView::Class { ident, class } => Some(
                    StmtView::Decl(
                        DeclView::Class {
                            ident: self.name_or_fresh(ident, "__Class"@),
                            declare: false,
                            class,
                        },
                    ),
                ),
                DefaultDeclView::Fn { ident, function } => Some(
                    StmtView::Decl(
                        DeclView::Fn {
                            ident: self.name_or_fresh(ident, "__fn"@),
                            declare: false,
                            function,
                        },
                    ),
                ),
                DefaultDeclView::Other(_) => None,
            }
        } else {
            None
        }
    }

    /// The collector after one declarator of an exported variable.
    pub open spec fn declarator(self, d: VarDeclaratorView) -> Self {
        match d.name {
            PatView::Ident(i) => self.export(ExportModuleView::named(i, None)),
            _ => self,
        }
    }

    /// The collector after the declarators of an exported variable, taken in
    /// order.
    pub open spec fn declarators(self, ds: Seq<VarDeclaratorView>) -> Self
        decreases ds.len(),
    {
        if ds.len() == 0 {
            self
        } else {
            self.declarators(ds.drop_last()).declarator(ds.last())
        }
    }

    /// The collector after an exported declaration.
    pub open spec fn export_decl(self, d: DeclView) -> Self {
        match d {
            DeclView::Var { decls, .. } => self.declarators(decls),
            DeclView::Fn { ident, .. } => self.export(ExportModuleView::named(ident, None)),
            DeclView::Class { ident, .. } => self.export(ExportModuleView::named(ident, None)),
            DeclView::Other(_) => self,
        }
    }

    /// The plain declaration that takes the place of an exported declaration
    /// where exports are stripped.
    pub open spec fn export_decl_stmt(self, d: DeclView) -> Option<StmtView> {
        if self.runtime_module && !(d is Other) {
            Some(StmtView::Decl(d))
        } else {
            None
        }
    }

    /// The collector after one item.
    pub open spec fn item(self, item: ModuleItemView) -> Self {
        match item {
            ModuleItemView::ModuleDecl(decl) => match decl {
                ModuleDeclView::Import(d) => self.import_decl(d),
                ModuleDeclView::ExportDecl(d) => self.export_decl(d),
                ModuleDeclView::ExportNamed(n) => self.named_export(n),
                ModuleDeclView::ExportDefaultDecl(d) => self.default_decl(d),
                ModuleDeclView::ExportDefaultExpr(_) => self.default_expr(),
                ModuleDeclView::ExportAll(a) => self.export_all(a),
                ModuleDeclView::Other(_) => self,
            },
            ModuleItemView::Stmt(_) => self,
        }
    }

    /// What takes the place of an item, if anything does. A statement stays.
    /// `export default expr` becomes the declaration of a private constant. A
    /// declaration behind `export` loses the `export` where exports are
    /// stripped. Every other module declaration goes where exports are
    /// stripped, and stays otherwise.
    pub open spec fn replacement(self, item: ModuleItemView) -> Option<ModuleItemView> {
        match item {
            ModuleItemView::Stmt(_) => Some(item),
            ModuleItemView::ModuleDecl(decl) => match decl {
                ModuleDeclView::ExportDefaultExpr(e) => Some(
                    ModuleItemView::Stmt(
                        StmtView::Decl(
                            var_decl_of(
                                VarDeclKind::Const,
                                PatView::Ident(self.default_expr_ident()),
                                e,
                            ),
                        ),
                    ),
                ),
                ModuleDeclView::ExportDefaultDecl(d) => match self.default_decl_stmt(d) {
                    Some(stmt) => Some(ModuleItemView::Stmt(stmt)),
                    None => if self.runtime_module {
                        None
                    } else {
                        Some(
                            ModuleItemView::ModuleDecl(
                                ModuleDeclView::ExportDefaultDecl(self.named_default_decl(d)),
                            ),
                        )
                    },
                },
                ModuleDeclView::ExportDecl(d) => match self.export_decl_stmt(d) {
                    Some(stmt) => Some(ModuleItemView::Stmt(stmt)),
                    None => if self.runtime_module {
                        None
                    } else {
                        Some(item)
                    },
                },
                _ => if self.runtime_module {
                    None
                } else {
                    Some(item)
                },
            },
        }
    }

    /// The collector after a list of items, taken in order.
    pub open spec fn items(self, items: Seq<ModuleItemView>) -> Self
        decreases items.len(),
    {
        if items.len() == 0 {
            self
        } else {
            self.items(items.drop_last()).item(items.last())
        }
    }

    /// The list of items that the collector leaves behind: what takes the
    /// place of each item, in the order of the items, without what is not
    /// kept.
    pub open spec fn output(self, items: Seq<ModuleItemView>) -> Seq<ModuleItemView>
        decreases items.len(),
    {
        if items.len() == 0 {
            Seq::empty()
        } else {
            let before = self.output(items.drop_last());
            match self.items(items.drop_last()).replacement(items.last()) {
                Some(item) => if kept(item) {
                    before.push(item)
                } else {
                    before
                },
                None => before,
            }
        }
    }
}

/// The value of an optional statement.
pub open spec fn opt_stmt_view(o: Option<Stmt>) -> Option<StmtView> {
    match o {
        Some(s) => Some(s@),
        None => None,
    }
}

/// The value of an optional item.
pub open spec fn opt_item_view(o: Option<ModuleItem>) -> Option<ModuleItemView> {
    match o {
        Some(i) => Some(i@),
        None => None,
    }
}

/// The first construct of an import declaration that is not lowered.
pub fn unsupported_in_import(import_decl: &ImportDecl) -> (r: Option<Unsupported>)
    ensures
        r == import_specifiers_unsupported(import_decl@.specifiers),
{
    let ghost specs = import_decl@.specifiers;
    let mut i: usize = 0;
    while i < import_decl.specifiers.len()
        invariant
            i <= import_decl.specifiers.len(),
            specs == import_decl@.specifiers,
            import_specifiers_unsupported(specs) == import_specifiers_unsupported_from(
                specs,
                i as int,
            ),
        decreases import_decl.specifiers.len() - i,
    {
        assert(specs[i as int] == import_decl.specifiers[i as int]@);
        match &import_decl.specifiers[i] {
            ImportSpecifier::Named { imported: Some(ModuleExportName::Str(_)), .. } => {
                return Some(Unsupported::StringName);
            },
            _ => {},
        }
        i += 1;
    }
    None
}

/// Whether a name is a string.
fn is_str_name(name: &ModuleExportName) -> (b: bool)
    ensures
        b == (name@ is Str),
{
    match name {
        ModuleExportName::Str(_) => true,
        ModuleExportName::Ident(_) => false,
    }
}

/// Whether a name is there and is a string.
fn is_opt_str_name(name: &Option<ModuleExportName>) -> (b: bool)
    ensures
        b == (opt_name_view(*name) matches Some(ModuleExportNameView::Str(_))),
{
    match name {
        Some(n) => is_str_name(n),
        None => false,
    }
}

/// The construct of a clause of an export without a source that is not
/// lowered, if there is one.
fn unsupported_in_local_export(s: &ExportSpecifier) -> (r: Option<Unsupported>)
    ensures
        r == local_export_unsupported(s@),
{
    match s {
        ExportSpecifier::Named { orig, exported, is_type_only } => {
            if *is_type_only {
                None
            } else if is_str_name(orig) || is_opt_str_name(exported) {
                Some(Unsupported::StringName)
            } else {
                None
            }
        },
        _ => Some(Unsupported::ExportClause),
    }
}

/// The construct of a clause of a re-export that is not lowered, if there is
/// one.
fn unsupported_in_re_export(s: &ExportSpecifier) -> (r: Option<Unsupported>)
    ensures
        r == re_export_unsupported(s@),
{
    match s {
        ExportSpecifier::Named { orig, exported, .. } => {
            if is_str_name(orig) || is_opt_str_name(exported) {
                Some(Unsupported::StringName)
            } else {
                None
            }
        },
        _ => Some(Unsupported::ExportClause),
    }
}

/// Whether a named export is of the form `export * as name from`.
fn namespace_re_export_of(named_export: &NamedExport) -> (b: bool)
    ensures
        b == is_namespace_re_export(named_export@),
{
    if named_export.src.is_some() && named_export.specifiers.len() > 0 {
        assert(named_export@.specifiers[0] == named_export.specifiers[0]@);
        match &named_export.specifiers[0] {
            ExportSpecifier::Namespace { .. } => true,
            _ => false,
        }
    } else {
        false
    }
}

/// The first construct of a named export that is not lowered.
pub fn unsupported_in_named_export(named_export: &NamedExport) -> (r: Option<Unsupported>)
    ensures
        r == named_export_unsupported(named_export@),
{
    let ghost specs = named_export@.specifiers;
    if named_export.src.is_none() {
        let mut i: usize = 0;
        while i < named_export.specifiers.len()
            invariant
                i <= named_export.specifiers.len(),
                specs == named_export@.specifiers,
                named_export@.src is None,
                local_exports_unsupported(specs) == local_exports_unsupported_from(specs, i as int),
            decreases named_export.specifiers.len() - i,
        {
            assert(specs[i as int] == named_export.specifiers[i as int]@);
            match unsupported_in_local_export(&named_export.specifiers[i]) {
                Some(e) => {
                    return Some(e);
                },
                None => {},
            }
            i += 1;
        }
        None
    } else if namespace_re_export_of(named_export) {
        assert(specs[0] == named_export.specifiers[0]@);
        match &named_export.specifiers[0] {
            ExportSpecifier::Namespace { name } => {
                if is_str_name(name) {
                    Some(Unsupported::StringName)
                } else {
                    None
                }
            },
            _ => None,
        }
    } else {
        let mut i: usize = 0;
        while i < named_export.specifiers.len()
            invariant
                i <= named_export.specifiers.len(),
                specs == named_export@.specifiers,
                named_export@.src is Some,
                !is_namespace_re_export(named_export@),
                re_exports_unsupported(specs) == re_exports_unsupported_from(specs, i as int),
            decreases named_export.specifiers.len() - i,
        {
            assert(specs[i as int] == named_export.specifiers[i as int]@);
            match unsupported_in_re_export(&named_export.specifiers[i]) {
                Some(e) => {
                    return Some(e);
                },
                None => {},
            }
            i += 1;
        }
        None
    }
}

/// The first construct of an exported declaration that is not lowered.
pub fn unsupported_in_export_decl(export_decl: &Decl) -> (r: Option<Unsupported>)
    ensures
        r == export_decl_unsupported(export_decl@),
{
    match export_decl {
        Decl::Var { decls, .. } => {
            let ghost ds = export_decl@->Var_decls;
            let mut i: usize = 0;
            while i < decls.len()
                invariant
                    i <= decls.len(),
                    ds == declarators_view(*decls),
                    export_decl_unsupported(export_decl@) == declarators_unsupported(ds),
                    declarators_unsupported(ds) == declarators_unsupported_from(ds, i as int),
                decreases decls.len() - i,
            {
                match &decls[i].name {
                    Pat::Ident(_) => {},
                    Pat::Other(_) => {
                        return Some(Unsupported::PatternBinding);
                    },
                }
                i += 1;
            }
            None
        },
        _ => None,
    }
}

/// The first construct of an item that is not lowered.
pub fn unsupported_in_item(item: &ModuleItem) -> (r: Option<Unsupported>)
    ensures
        r == item_unsupported(item@),
{
    match item {
        ModuleItem::ModuleDecl(ModuleDecl::Import(d)) => unsupported_in_import(d),
        ModuleItem::ModuleDecl(ModuleDecl::ExportDecl(d)) => unsupported_in_export_decl(d),
        ModuleItem::ModuleDecl(ModuleDecl::ExportNamed(n)) => unsupported_in_named_export(n),
        _ => None,
    }
}

/// The first construct of a list of items that is not lowered.
pub fn unsupported_in_items(items: &Vec<ModuleItem>) -> (r: Option<Unsupported>)
    ensures
        r == items_unsupported(seq_view(*items)),
{
    let ghost views = seq_view(*items);
    let mut i: usize = 0;
    while i < items.len()
        invariant
            i <= items.len(),
            views == seq_view(*items),
            items_unsupported(views) == items_unsupported_from(views, i as int),
        decreases items.len() - i,
    {
        assert(views[i as int] == items[i as int]@);
        match unsupported_in_item(&items[i]) {
            Some(e) => {
                return Some(e);
            },
            None => {},
        }
        i += 1;
    }
    None
}

/// Collects the imports and the exports of one module.
pub struct EsModuleCollector {
    /// Whether `import` and `export` are stripped from the module.
    pub runtime_module: bool,
    /// The imports, in the order in which they were met.
    pub imports: Vec<ImportModule>,
    /// The exports, in the order in which they were met.
    pub exports: Vec<ExportModule>,
}

impl View for EsModuleCollector {
    type V = CollectorView;

    open spec fn view(&self) -> CollectorView {
        CollectorView {
            runtime_module: self.runtime_module,
            imports: seq_view(self.imports),
            exports: seq_view(self.exports),
        }
    }
}

impl EsModuleCollector {
    /// A collector that has met nothing yet.
    pub fn new(runtime_module: bool) -> (r: Self)
        ensures
            r@ == (CollectorView { runtime_module, imports: Seq::empty(), exports: Seq::empty() }),
    {
        let r = EsModuleCollector { runtime_module, imports: Vec::new(), exports: Vec::new() };
        assert(r@.imports =~= Seq::empty());
        assert(r@.exports =~= Seq::empty());
        r
    }

    /// The private identifier spelled `sym` that is introduced with the next
    /// export record.
    fn fresh(&self, sym: &str) -> (r: Ident)
        ensures
            r@ == self@.fresh(sym@),
    {
        private_ident(sym, Mark::Export(self.exports.len()))
    }

    /// Records an import.
    fn push_import(&mut self, record: ImportModule)
        ensures
            final(self)@ == old(self)@.import(record@),
    {
        self.imports.push(record);
        assert(self@.imports =~= old(self)@.imports.push(record@));
    }

    /// Records an export.
    fn push_export(&mut self, record: ExportModule)
        ensures
            final(self)@ == old(self)@.export(record@),
    {
        self.exports.push(record);
        assert(self@.exports =~= old(self)@.exports.push(record@));
    }

    /// Collects the export of `export default expr` and returns the
    /// declaration that takes its place: `const __export_default = expr`.
    pub fn collect_and_convert_export_default_expr(&mut self, export_default_expr: &Expr) -> (r:
        Stmt)
        ensures
            final(self)@ == old(self)@.default_expr(),
            r@ == StmtView::Decl(
                var_decl_of(
                    VarDeclKind::Const,
                    PatView::Ident(old(self)@.default_expr_ident()),
                    export_default_expr@,
                ),
            ),
    {
        let ident = self.fresh("__export_default");
        self.push_export(ExportModule::default(ident.clone()));
        Stmt::Decl(
            clone_expr(export_default_expr).into_var_decl(VarDeclKind::Const, Pat::Ident(ident)),
        )
    }

    /// Collects the export of `export default` with a function or a class.
    /// A declaration without a name gets a private one. Where exports are
    /// stripped, the plain declaration that takes its place is returned.
    pub fn collect_and_convert_export_default_decl(
        &mut self,
        export_default_decl: &mut DefaultDecl,
    ) -> (r: Option<Stmt>)
        ensures
            final(self)@ == old(self)@.default_decl(old(export_default_decl)@),
            final(export_default_decl)@ == old(self)@.named_default_decl(old(export_default_decl)@),
            opt_stmt_view(r) == old(self)@.default_decl_stmt(old(export_default_decl)@),
    {
        match export_default_decl {
            DefaultDecl::Class { ident, class } => {
                let name = match ident {
                    Some(class_ident) => class_ident.clone(),
                    None => self.fresh("__Class"),
                };
                self.push_export(ExportModule::default(name.clone()));
                let stmt = if self.runtime_module {
                    Some(
                        Stmt::Decl(
                            Decl::Class {
                                ident: name.clone(),
                                declare: false,
                                class: clone_opaque(class),
                            },
                        ),
                    )
                } else {
                    None
                };
                *ident = Some(name);
                stmt
            },
            DefaultDecl::Fn { ident, function } => {
                let name = match ident {
                    Some(fn_ident) => fn_ident.clone(),
                    None => self.fresh("__fn"),
                };
                self.push_export(ExportModule::default(name.clone()));
                let stmt = if self.runtime_module {
                    Some(
                        Stmt::Decl(
                            Decl::Fn {
                                ident: name.clone(),
                                declare: false,
                                function: clone_opaque(function),
                            },
                        ),
                    )
                } else {
                    None
                };
                *ident = Some(name);
                stmt
            },
            DefaultDecl::Other(_) => None,
        }
    }

    /// Collects the exports of a declaration behind `export`, whatever it
    /// holds.
    fn collect_export_decl(&mut self, export_decl: &Decl) -> (r: Option<Stmt>)
        ensures
            final(self)@ == old(self)@.export_decl(export_decl@),
            final(self).runtime_module == old(self).runtime_module,
            opt_stmt_view(r) == old(self)@.export_decl_stmt(export_decl@),
    {
        match export_decl {
            Decl::Var { decls, .. } => {
                let ghost ds = export_decl@->Var_decls;
                let mut i: usize = 0;
                while i < decls.len()
                    invariant
                        i <= decls.len(),
                        ds == declarators_view(*decls),
                        self.runtime_module == old(self).runtime_module,
                        self@ == old(self)@.declarators(ds.take(i as int)),
                    decreases decls.len() - i,
                {
                    assert(ds.take(i + 1).drop_last() =~= ds.take(i as int));
                    match &decls[i].name {
                        Pat::Ident(var_ident) => {
                            self.push_export(ExportModule::named(var_ident.clone(), None));
                        },
                        Pat::Other(_) => {},
                    }
                    i += 1;
                }
                assert(ds.take(decls.len() as int) =~= ds);
            },
            Decl::Fn { ident, .. } => {
                self.push_export(ExportModule::named(ident.clone(), None));
            },
            Decl::Class { ident, .. } => {
                self.push_export(ExportModule::named(ident.clone(), None));
            },
            Decl::Other(_) => {},
        }
        match export_decl {
            Decl::Other(_) => None,
            _ => if self.runtime_module {
                Some(Stmt::Decl(clone_decl(export_decl)))
            } else {
                None
            },
        }
    }

    /// Collects the exports of `export var`, `export function` and `export
    /// class`: every declared name is exported under itself. Where exports
    /// are stripped, the plain declaration that takes its place is returned.
    /// A variable declared by a destructuring pattern stops the pass, and
    /// nothing is collected.
    pub fn collect_and_convert_export_decl(&mut self, export_decl: &Decl) -> (r: Result<
        Option<Stmt>,
        Unsupported,
    >)
        ensures
            match export_decl_unsupported(export_decl@) {
                Some(e) => r matches Err(err) && err == e && final(self)@ == old(self)@,
                None => {
                    &&& r matches Ok(stmt) && opt_stmt_view(stmt) == old(self)@.export_decl_stmt(
                        export_decl@,
                    )
                    &&& final(self)@ == old(self)@.export_decl(export_decl@)
                },
            },
    {
        match unsupported_in_export_decl(export_decl) {
            Some(e) => Err(e),
            None => Ok(self.collect_export_decl(export_decl)),
        }
    }

    /// Collects the imports of an import declaration, whatever it holds.
    fn collect_import_decl(&mut self, import_decl: &ImportDecl)
        ensures
            final(self)@ == old(self)@.import_decl(import_decl@),
            final(self).runtime_module == old(self).runtime_module,
    {
        let ghost specs = import_decl@.specifiers;
        let mut i: usize = 0;
        while i < import_decl.specifiers.len()
            invariant
                i <= import_decl.specifiers.len(),
                specs == import_decl@.specifiers,
                self.runtime_module == old(self).runtime_module,
                self@ == old(self)@.import_specifiers(specs.take(i as int), import_decl@.src),
            decreases import_decl.specifiers.len() - i,
        {
            assert(specs.take(i + 1).drop_last() =~= specs.take(i as int));
            assert(specs[i as int] == import_decl.specifiers[i as int]@);
            let src = import_decl.src.clone();
            match &import_decl.specifiers[i] {
                ImportSpecifier::Default { local } => {
                    self.push_import(ImportModule::default(local.clone(), None, src));
                },
                ImportSpecifier::Named { local, imported, .. } => {
                    let imported = match imported {
                        Some(ModuleExportName::Ident(imported_ident)) => Some(
                            imported_ident.clone(),
                        ),
                        _ => None,
                    };
                    self.push_import(ImportModule::named(local.clone(), imported, src));
                },
                ImportSpecifier::Namespace { local } => {
                    self.push_import(ImportModule::namespace(local.clone(), None, src));
                },
            }
            i += 1;
        }
        assert(specs.take(import_decl.specifiers.len() as int) =~= specs);
    }

    /// Collects the imports of an import declaration: one for each clause, in
    /// order. A string in the place of an imported name stops the pass, and
    /// nothing is collected.
    pub fn visit_mut_import_decl(&mut self, import_decl: &ImportDecl) -> (r: Result<
        (),
        Unsupported,
    >)
        ensures
            match import_specifiers_unsupported(import_decl@.specifiers) {
                Some(e) => r == Err::<(), Unsupported>(e) && final(self)@ == old(self)@,
                None => r is Ok && final(self)@ == old(self)@.import_decl(import_decl@),
            },
    {
        match unsupported_in_import(import_decl) {
            Some(e) => Err(e),
            None => {
                self.collect_import_decl(import_decl);
                Ok(())
            },
        }
    }

    /// Collects one clause of an export without a source.
    fn collect_local_export(&mut self, s: &ExportSpecifier)
        ensures
            final(self)@ == old(self)@.local_export(s@),
    {
        match s {
            ExportSpecifier::Named {
                orig: ModuleExportName::Ident(orig_ident),
                exported,
                is_type_only: false,
            } => {
                let as_ident = match exported {
                    Some(ModuleExportName::Ident(as_ident)) => Some(as_ident.clone()),
                    _ => None,
                };
                self.push_export(ExportModule::named(orig_ident.clone(), as_ident));
            },
            _ => {},
        }
    }

    /// Collects one clause of a re-export from `src`.
    fn collect_re_export(&mut self, s: &ExportSpecifier, src: &String)
        ensures
            final(self)@ == old(self)@.re_export(s@, src@),
    {
        match s {
            ExportSpecifier::Named { orig: ModuleExportName::Ident(orig_ident), exported, .. } => {
                let is_default = orig_ident.is_named("default");
                let ident = self.fresh("__re_export");
                self.push_import(
                    ImportModule {
                        ident: ident.clone(),
                        imported: Some(orig_ident.clone()),
                        module_src: src.clone(),
                        module_type: if is_default {
                            ModuleType::DefaultAsNamed
                        } else {
                            ModuleType::Named
                        },
                        as_export: true,
                    },
                );
                let as_ident = match exported {
                    Some(ModuleExportName::Ident(as_ident)) => as_ident.clone(),
                    _ => orig_ident.clone(),
                };
                self.push_export(ExportModule::named(ident, Some(as_ident)));
            },
            _ => {},
        }
    }

    /// Collects the imports and the exports of a named export, whatever it
    /// holds.
    fn collect_named_export(&mut self, named_export: &NamedExport)
        ensures
            final(self)@ == old(self)@.named_export(named_export@),
            final(self).runtime_module == old(self).runtime_module,
    {
        let ghost specs = named_export@.specifiers;
        match &named_export.src {
            None => {
                let mut i: usize = 0;
                while i < named_export.specifiers.len()
                    invariant
                        i <= named_export.specifiers.len(),
                        specs == named_export@.specifiers,
                        self.runtime_module == old(self).runtime_module,
                        self@ == old(self)@.local_exports(specs.take(i as int)),
                    decreases named_export.specifiers.len() - i,
                {
                    assert(specs.take(i + 1).drop_last() =~= specs.take(i as int));
                    assert(specs[i as int] == named_export.specifiers[i as int]@);
                    self.collect_local_export(&named_export.specifiers[i]);
                    i += 1;
                }
                assert(specs.take(named_export.specifiers.len() as int) =~= specs);
            },
            Some(module_src) => {
                if namespace_re_export_of(named_export) {
                    assert(specs[0] == named_export.specifiers[0]@);
                    match &named_export.specifiers[0] {
                        ExportSpecifier::Namespace {
                            name: ModuleExportName::Ident(module_ident),
                        } => {
                            let export_ident = self.fresh("__re_export");
                            self.push_import(
                                ImportModule::namespace(
                                    export_ident.clone(),
                                    None,
                                    module_src.clone(),
                                ).re_exported(),
                            );
                            self.push_export(
                                ExportModule::named(export_ident, Some(module_ident.clone())),
                            );
                        },
                        _ => {},
                    }
                } else {
                    let mut i: usize = 0;
                    while i < named_export.specifiers.len()
                        invariant
                            i <= named_export.specifiers.len(),
                            specs == named_export@.specifiers,
                            self.runtime_module == old(self).runtime_module,
                            self@ == old(self)@.re_exports(specs.take(i as int), module_src@),
                        decreases named_export.specifiers.len() - i,
                    {
                        assert(specs.take(i + 1).drop_last() =~= specs.take(i as int));
                        assert(specs[i as int] == named_export.specifiers[i as int]@);
                        self.collect_re_export(&named_export.specifiers[i], module_src);
                        i += 1;
                    }
                    assert(specs.take(named_export.specifiers.len() as int) =~= specs);
                }
            },
        }
    }

    /// Collects the exports of a named export.
    ///
    /// - `export { a, b as c }`: every clause exports its binding, under its
    ///   new name where it has one.
    /// - `export * as name from 'src'`: the namespace of the source is
    ///   imported under a private identifier, which is exported as `name`.
    /// - `export { a, default as b } from 'src'`: every clause imports its
    ///   binding under a private identifier, which is exported under the name
    ///   of the clause.
    ///
    /// A string in the place of a name, or a clause of another form, stops
    /// the pass, and nothing is collected.
    pub fn visit_mut_named_export(&mut self, named_export: &NamedExport) -> (r: Result<
        (),
        Unsupported,
    >)
        ensures
            match named_export_unsupported(named_export@) {
                Some(e) => r == Err::<(), Unsupported>(e) && final(self)@ == old(self)@,
                None => r is Ok && final(self)@ == old(self)@.named_export(named_export@),
            },
    {
        match unsupported_in_named_export(named_export) {
            Some(e) => Err(e),
            None => {
                self.collect_named_export(named_export);
                Ok(())
            },
        }
    }

    /// Collects `export * from 'src'`: the namespace of the source is imported
    /// under a private identifier, and everything in it is exported.
    pub fn visit_mut_export_all(&mut self, export_all: &ExportAll)
        ensures
            final(self)@ == old(self)@.export_all(export_all@),
    {
        let export_all_ident = self.fresh("__re_export_all");
        self.push_import(
            ImportModule::namespace(
                export_all_ident.clone(),
                None,
                export_all.src.clone(),
            ).re_exported(),
        );
        self.push_export(ExportModule::all(export_all_ident, None));
    }

    /// Collects what one item imports and exports, and returns what takes the
    /// place of the item, if anything does.
    fn collect_item(&mut self, item: &ModuleItem) -> (r: Option<ModuleItem>)
        ensures
            final(self)@ == old(self)@.item(item@),
            final(self).runtime_module == old(self).runtime_module,
            opt_item_view(r) == old(self)@.replacement(item@),
    {
        match item {
            ModuleItem::Stmt(_) => Some(item.clone()),
            ModuleItem::ModuleDecl(module_decl) => {
                match module_decl {
                    ModuleDecl::Import(import_decl) => {
                        self.collect_import_decl(import_decl);
                    },
                    ModuleDecl::ExportDefaultExpr(export_default_expr) => {
                        let stmt = self.collect_and_convert_export_default_expr(
                            export_default_expr,
                        );
                        return Some(ModuleItem::Stmt(stmt));
                    },
                    ModuleDecl::ExportDefaultDecl(export_default_decl) => {
                        let mut named = export_default_decl.clone();
                        match self.collect_and_convert_export_default_decl(&mut named) {
                            Some(stmt) => {
                                return Some(ModuleItem::Stmt(stmt));
                            },
                            None => {
                                if !self.runtime_module {
                                    return Some(
                                        ModuleItem::ModuleDecl(
                                            ModuleDecl::ExportDefaultDecl(named),
                                        ),
                                    );
                                }
                            },
                        }
                    },
                    ModuleDecl::ExportDecl(export_decl) => {
                        match self.collect_export_decl(export_decl) {
                            Some(stmt) => {
                                return Some(ModuleItem::Stmt(stmt));
                            },
                            None => {},
                        }
                    },
                    ModuleDecl::ExportNamed(named_export) => {
                        self.collect_named_export(named_export);
                    },
                    ModuleDecl::ExportAll(export_all) => {
                        self.visit_mut_export_all(export_all);
                    },
                    ModuleDecl::Other(_) => {},
                }
                if self.runtime_module {
                    None
                } else {
                    Some(item.clone())
                }
            },
        }
    }

    /// Whether an item stays in the list of items.
    fn keeps(item: &ModuleItem) -> (b: bool)
        ensures
            b == kept(item@),
    {
        match item {
            ModuleItem::ModuleDecl(module_decl) => !is_invalid_module_decl(module_decl),
            ModuleItem::Stmt(Stmt::Empty) => false,
            ModuleItem::Stmt(_) => true,
        }
    }

    /// Goes over the items of a module in order: collects what they import
    /// and export, and puts in the place of each item what stands for it from
    /// now on. Where exports are stripped, no `import` or `export`
    /// declaration is left. Empty statements, and imports without specifiers
    /// and without a source, are taken out.
    ///
    /// A construct that is not lowered stops the pass before anything is
    /// changed; the first one in the order of the items is reported.
    pub fn visit_mut_module_items(&mut self, stmts: &mut Vec<ModuleItem>) -> (r: Result<
        (),
        Unsupported,
    >)
        ensures
            match items_unsupported(seq_view(*old(stmts))) {
                Some(e) => {
                    &&& r == Err::<(), Unsupported>(e)
                    &&& final(self)@ == old(self)@
                    &&& seq_view(*final(stmts)) == seq_view(*old(stmts))
                },
                None => {
                    &&& r is Ok
                    &&& final(self)@ == old(self)@.items(seq_view(*old(stmts)))
                    &&& seq_view(*final(stmts)) == old(self)@.output(seq_view(*old(stmts)))
                },
            },
    {
        match unsupported_in_items(stmts) {
            Some(e) => {
                return Err(e);
            },
            None => {},
        }
        let ghost items = seq_view(*stmts);
        let ghost start = self@;
        let mut out: Vec<ModuleItem> = Vec::new();
        assert(seq_view(out) =~= Seq::empty());
        let mut i: usize = 0;
        while i < stmts.len()
            invariant
                i <= stmts.len(),
                items == seq_view(*stmts),
                self.runtime_module == start.runtime_module,
                self@ == start.items(items.take(i as int)),
                seq_view(out) == start.output(items.take(i as int)),
            decreases stmts.len() - i,
        {
            assert(items.take(i + 1).drop_last() =~= items.take(i as int));
            assert(items[i as int] == stmts[i as int]@);
            match self.collect_item(&stmts[i]) {
                Some(item) => {
                    if Self::keeps(&item) {
                        push_item(&mut out, item);
                    }
                },
                None => {},
            }
            i += 1;
        }
        assert(items.take(stmts.len() as int) =~= items);
        *stmts = out;
        Ok(())
    }

    /// Goes over the items of a module, as [`Self::visit_mut_module_items`]
    /// does.
    pub fn visit_mut_module(&mut self, module: &mut Module) -> (r: Result<(), Unsupported>)
        ensures
            match items_unsupported(old(module)@.body) {
                Some(e) => {
                    &&& r == Err::<(), Unsupported>(e)
                    &&& final(self)@ == old(self)@
                    &&& final(module)@ == old(module)@
                },
                None => {
                    &&& r is Ok
                    &&& final(self)@ == old(self)@.items(old(module)@.body)
                    &&& final(module)@.body == old(self)@.output(old(module)@.body)
                },
            },
    {
        self.visit_mut_module_items(&mut module.body)
    }
}

/// Whether the bindings that an item exports under their own identifiers are
/// bindings of the input tree.
pub open spec fn exports_source_bindings(item: ModuleItemView) -> bool {
    match item {
        ModuleItemView::ModuleDecl(ModuleDeclView::ExportDecl(d)) => match d {
            DeclView::Var { decls, .. } => forall|i: int|
                0 <= i < decls.len() ==> ((#[trigger] decls[i]).name matches PatView::Ident(id)
                    ==> id.mark.is_source()),
            DeclView::Fn { ident, .. } => ident.mark.is_source(),
            DeclView::Class { ident, .. } => ident.mark.is_source(),
            DeclView::Other(_) => true,
        },
        ModuleItemView::ModuleDecl(ModuleDeclView::ExportNamed(n)) => n.src is None ==> forall|
            i: int,
        |
            0 <= i < n.specifiers.len() ==> ((
            #[trigger] n.specifiers[i]) matches ExportSpecifierView::Named {
                orig: ModuleExportNameView::Ident(orig),
                ..
            } ==> orig.mark.is_source()),
        ModuleItemView::ModuleDecl(
            ModuleDeclView::ExportDefaultDecl(DefaultDeclView::Class { ident: Some(id), .. }),
        ) => id.mark.is_source(),
        ModuleItemView::ModuleDecl(
            ModuleDeclView::ExportDefaultDecl(DefaultDeclView::Fn { ident: Some(id), .. }),
        ) => id.mark.is_source(),
        _ => true,
    }
}

impl CollectorView {
    /// Whether every export record that holds a private binding holds the one
    /// that was introduced with it.
    pub open spec fn marked(self) -> bool {
        forall|k: int|
            0 <= k < self.exports.len() ==> (#[trigger] self.exports[k]).ident.mark.is_source()
                || self.exports[k].ident.mark == Mark::Export(k as usize)
    }

    /// An export of a binding of the input tree, or of the private binding
    /// that is introduced with it, keeps the records marked.
    pub proof fn lemma_export_marked(self, r: ExportModuleView)
        requires
            self.marked(),
            r.ident.mark.is_source() || r.ident.mark == Mark::Export(self.exports.len() as usize),
        ensures
            self.export(r).marked(),
    {
        let after = self.export(r);
        assert forall|k: int| 0 <= k < after.exports.len() implies (
        #[trigger] after.exports[k]).ident.mark.is_source() || after.exports[k].ident.mark
            == Mark::Export(k as usize) by {
            if k < self.exports.len() {
                assert(after.exports[k] == self.exports[k]);
            }
        }
    }

    /// The clauses of an import leave the export records as they are.
    pub proof fn lemma_import_specifiers_keep_exports(
        self,
        specs: Seq<ImportSpecifierView>,
        src: Seq<char>,
    )
        ensures
            self.import_specifiers(specs, src).exports == self.exports,
        decreases specs.len(),
    {
        if specs.len() > 0 {
            self.lemma_import_specifiers_keep_exports(specs.drop_last(), src);
        }
    }

    /// The clauses of an export without a source keep the records marked,
    /// where they export bindings of the input tree.
    pub proof fn lemma_local_exports_marked(self, specs: Seq<ExportSpecifierView>)
        requires
            self.marked(),
            forall|i: int|
                0 <= i < specs.len() ==> ((#[trigger] specs[i]) matches ExportSpecifierView::Named {
                    orig: ModuleExportNameView::Ident(orig),
                    ..
                } ==> orig.mark.is_source()),
        ensures
            self.local_exports(specs).marked(),
        decreases specs.len(),
    {
        if specs.len() > 0 {
            let before = self.local_exports(specs.drop_last());
            assert forall|i: int| 0 <= i < specs.drop_last().len() implies ((
            #[trigger] specs.drop_last()[i]) matches ExportSpecifierView::Named {
                orig: ModuleExportNameView::Ident(orig),
                ..
            } ==> orig.mark.is_source()) by {
                assert(specs.drop_last()[i] == specs[i]);
            }
            self.lemma_local_exports_marked(specs.drop_last());
            match specs.last() {
                ExportSpecifierView::Named {
                    orig: ModuleExportNameView::Ident(orig),
                    exported,
                    is_type_only: false,
                } => {
                    assert(specs[specs.len() - 1] == specs.last());
                    before.lemma_export_marked(ExportModuleView::named(orig, name_ident(exported)));
                },
                _ => {},
            }
        }
    }

    /// The clauses of a re-export keep the records marked.
    pub proof fn lemma_re_exports_marked(self, specs: Seq<ExportSpecifierView>, src: Seq<char>)
        requires
            self.marked(),
        ensures
            self.re_exports(specs, src).marked(),
        decreases specs.len(),
    {
        if specs.len() > 0 {
            let before = self.re_exports(specs.drop_last(), src);
            self.lemma_re_exports_marked(specs.drop_last(), src);
            match specs.last() {
                ExportSpecifierView::Named {
                    orig: ModuleExportNameView::Ident(orig),
                    exported,
                    ..
                } => {
                    let ident = before.fresh("__re_export"@);
                    let imported = before.import(
                        ImportModuleView {
                            ident,
                            imported: Some(orig),
                            module_src: src,
                            module_type: if orig.sym == "default"@ {
                                ModuleType::DefaultAsNamed
                            } else {
                                ModuleType::Named
                            },
                            as_export: true,
                        },
                    );
                    assert(imported.marked());
                    imported.lemma_export_marked(
                        ExportModuleView::named(
                            ident,
                            Some(
                                match name_ident(exported) {
                                    Some(name) => name,
                                    None => orig,
                                },
                            ),
                        ),
                    );
                },
                _ => {},
            }
        }
    }

    /// The declarators of an exported variable keep the records marked, where
    /// they declare bindings of the input tree.
    pub proof fn lemma_declarators_marked(self, ds: Seq<VarDeclaratorView>)
        requires
            self.marked(),
            forall|i: int|
                0 <= i < ds.len() ==> ((#[trigger] ds[i]).name matches PatView::Ident(id)
                    ==> id.mark.is_source()),
        ensures
            self.declarators(ds).marked(),
        decreases ds.len(),
    {
        if ds.len() > 0 {
            let before = self.declarators(ds.drop_last());
            assert forall|i: int| 0 <= i < ds.drop_last().len() implies ((
            #[trigger] ds.drop_last()[i]).name matches PatView::Ident(id)
                ==> id.mark.is_source()) by {
                assert(ds.drop_last()[i] == ds[i]);
            }
            self.lemma_declarators_marked(ds.drop_last());
            match ds.last().name {
                PatView::Ident(i) => {
                    assert(ds[ds.len() - 1] == ds.last());
                    before.lemma_export_marked(ExportModuleView::named(i, None));
                },
                _ => {},
            }
        }
    }

    /// An item keeps the records marked, where it exports bindings of the
    /// input tree.
    pub proof fn lemma_item_marked(self, item: ModuleItemView)
        requires
            self.marked(),
            exports_source_bindings(item),
        ensures
            self.item(item).marked(),
    {
        match item {
            ModuleItemView::ModuleDecl(decl) => match decl {
                ModuleDeclView::Import(d) => {
                    self.lemma_import_specifiers_keep_exports(d.specifiers, d.src);
                },
                ModuleDeclView::ExportDecl(d) => match d {
                    DeclView::Var { decls, .. } => {
                        self.lemma_declarators_marked(decls);
                    },
                    DeclView::Fn { ident, .. } => {
                        self.lemma_export_marked(ExportModuleView::named(ident, None));
                    },
                    DeclView::Class { ident, .. } => {
                        self.lemma_export_marked(ExportModuleView::named(ident, None));
                    },
                    DeclView::Other(_) => {},
                },
                ModuleDeclView::ExportNamed(n) => match n.src {
                    None => {
                        self.lemma_local_exports_marked(n.specifiers);
                    },
                    Some(src) => {
                        if is_namespace_re_export(n) {
                            match n.specifiers[0]->Namespace_name {
                                ModuleExportNameView::Ident(name) => {
                                    let ident = self.fresh("__re_export"@);
                                    let imported = self.import(
                                        ImportModuleView::namespace(ident, None, src).re_exported(),
                                    );
                                    assert(imported.marked());
                                    imported.lemma_export_marked(
                                        ExportModuleView::named(ident, Some(name)),
                                    );
                                },
                                _ => {},
                            }
                        } else {
                            self.lemma_re_exports_marked(n.specifiers, src);
                        }
                    },
                },
                ModuleDeclView::ExportDefaultDecl(d) => match d {
                    DefaultDeclView::Class { ident, .. } => {
                        self.lemma_export_marked(
                            ExportModuleView::default(self.name_or_fresh(ident, "__Class"@)),
                        );
                    },
                    DefaultDeclView::Fn { ident, .. } => {
                        self.lemma_export_marked(
                            ExportModuleView::default(self.name_or_fresh(ident, "__fn"@)),
                        );
                    },
                    DefaultDeclView::Other(_) => {},
                },
                ModuleDeclView::ExportDefaultExpr(_) => {
                    self.lemma_export_marked(ExportModuleView::default(self.default_expr_ident()));
                },
                ModuleDeclView::ExportAll(a) => {
                    let ident = self.fresh("__re_export_all"@);
                    let imported = self.import(
                        ImportModuleView::namespace(ident, None, a.src).re_exported(),
                    );
                    assert(imported.marked());
                    imported.lemma_export_marked(ExportModuleView::all(ident, None));
                },
                ModuleDeclView::Other(_) => {},
            },
            ModuleItemView::Stmt(_) => {},
        }
    }

    /// A list of items keeps the records marked, where the items export
    /// bindings of the input tree.
    pub proof fn lemma_items_marked(self, items: Seq<ModuleItemView>)
        requires
            self.marked(),
            forall|i: int| 0 <= i < items.len() ==> exports_source_bindings(#[trigger] items[i]),
        ensures
            self.items(items).marked(),
        decreases items.len(),
    {
        if items.len() > 0 {
            assert forall|i: int| 0 <= i < items.drop_last().len() implies exports_source_bindings(
                #[trigger] items.drop_last()[i],
            ) by {
                assert(items.drop_last()[i] == items[i]);
            }
            self.lemma_items_marked(items.drop_last());
            assert(items[items.len() - 1] == items.last());
            self.items(items.drop_last()).lemma_item_marked(items.last());
        }
    }

    /// Every export record carries an identifier, and the private
    /// identifiers are unique: where the items of a module export bindings
    /// of the input tree, an export record that holds a private binding
    /// holds another binding than every other export record.
    pub proof fn lemma_private_identifiers_are_unique(
        self,
        items: Seq<ModuleItemView>,
        j: int,
        k: int,
    )
        requires
            self.marked(),
            forall|i: int| 0 <= i < items.len() ==> exports_source_bindings(#[trigger] items[i]),
            self.items(items).exports.len() <= usize::MAX,
            0 <= j < self.items(items).exports.len(),
            0 <= k < self.items(items).exports.len(),
            j != k,
            self.items(items).exports[j].ident.mark.is_private(),
        ensures
            self.items(items).exports[j].ident != self.items(items).exports[k].ident,
            self.items(items).exports[j].ident.mark == Mark::Export(j as usize),
    {
        self.lemma_items_marked(items);
    }

    /// The collector keeps its mode over the clauses of an import.
    pub proof fn lemma_import_specifiers_keep_mode(
        self,
        specs: Seq<ImportSpecifierView>,
        src: Seq<char>,
    )
        ensures
            self.import_specifiers(specs, src).runtime_module == self.runtime_module,
        decreases specs.len(),
    {
        if specs.len() > 0 {
            self.lemma_import_specifiers_keep_mode(specs.drop_last(), src);
        }
    }

    /// The collector keeps its mode over the clauses of an export without a
    /// source.
    pub proof fn lemma_local_exports_keep_mode(self, specs: Seq<ExportSpecifierView>)
        ensures
            self.local_exports(specs).runtime_module == self.runtime_module,
        decreases specs.len(),
    {
        if specs.len() > 0 {
            self.lemma_local_exports_keep_mode(specs.drop_last());
        }
    }

    /// The collector keeps its mode over the clauses of a re-export.
    pub proof fn lemma_re_exports_keep_mode(self, specs: Seq<ExportSpecifierView>, src: Seq<char>)
        ensures
            self.re_exports(specs, src).runtime_module == self.runtime_module,
        decreases specs.len(),
    {
        if specs.len() > 0 {
            self.lemma_re_exports_keep_mode(specs.drop_last(), src);
        }
    }

    /// The collector keeps its mode over the declarators of an exported
    /// variable.
    pub proof fn lemma_declarators_keep_mode(self, ds: Seq<VarDeclaratorView>)
        ensures
            self.declarators(ds).runtime_module == self.runtime_module,
        decreases ds.len(),
    {
        if ds.len() > 0 {
            self.lemma_declarators_keep_mode(ds.drop_last());
        }
    }

    /// The collector keeps its mode over an item.
    pub proof fn lemma_item_keeps_mode(self, item: ModuleItemView)
        ensures
            self.item(item).runtime_module == self.runtime_module,
    {
        match item {
            ModuleItemView::ModuleDecl(ModuleDeclView::Import(d)) => {
                self.lemma_import_specifiers_keep_mode(d.specifiers, d.src);
            },
            ModuleItemView::ModuleDecl(ModuleDeclView::ExportDecl(DeclView::Var { decls, .. })) => {
                self.lemma_declarators_keep_mode(decls);
            },
            ModuleItemView::ModuleDecl(ModuleDeclView::ExportNamed(n)) => match n.src {
                None => {
                    self.lemma_local_exports_keep_mode(n.specifiers);
                },
                Some(src) => {
                    self.lemma_re_exports_keep_mode(n.specifiers, src);
                },
            },
            _ => {},
        }
    }

    /// The collector keeps its mode over a list of items.
    pub proof fn lemma_items_keep_mode(self, items: Seq<ModuleItemView>)
        ensures
            self.items(items).runtime_module == self.runtime_module,
        decreases items.len(),
    {
        if items.len() > 0 {
            self.lemma_items_keep_mode(items.drop_last());
            self.items(items.drop_last()).lemma_item_keeps_mode(items.last());
        }
    }

    /// Where exports are stripped, the collector leaves no `import` and no
    /// `export` declaration behind: every item that it leaves is a statement.
    pub proof fn lemma_stripped_output_holds_statements(self, items: Seq<ModuleItemView>)
        requires
            self.runtime_module,
        ensures
            forall|k: int|
                0 <= k < self.output(items).len() ==> (#[trigger] self.output(items)[k]) is Stmt,
        decreases items.len(),
    {
        if items.len() > 0 {
            self.lemma_stripped_output_holds_statements(items.drop_last());
            self.lemma_items_keep_mode(items.drop_last());
        }
    }

    /// An anonymous default function is named: `export default function ()
    /// {}` yields exactly one export record, a default export of a private
    /// identifier with a name that is not empty, and where exports are
    /// stripped the function declaration that takes its place carries the
    /// same identifier.
    pub proof fn lemma_anonymous_default_function_is_named(self, function: OpaqueView)
        ensures
            ({
                let decl = DefaultDeclView::Fn { ident: None, function };
                let ident = self.fresh("__fn"@);
                &&& self.default_decl(decl).exports == self.exports.push(
                    ExportModuleView::default(ident),
                )
                &&& self.default_decl(decl).imports == self.imports
                &&& ident.mark.is_private()
                &&& ident.sym.len() > 0
                &&& self.runtime_module ==> self.replacement(
                    ModuleItemView::ModuleDecl(ModuleDeclView::ExportDefaultDecl(decl)),
                ) == Some(
                    ModuleItemView::Stmt(
                        StmtView::Decl(DeclView::Fn { ident, declare: false, function }),
                    ),
                )
            }),
    {
        Self::lemma_private_names_are_not_empty();
    }

    /// The names that the collector gives to what has none are not empty.
    pub proof fn lemma_private_names_are_not_empty()
        ensures
            "__export_default"@.len() > 0,
            "__Class"@.len() > 0,
            "__fn"@.len() > 0,
            "__re_export"@.len() > 0,
            "__re_export_all"@.len() > 0,
    {
        reveal_strlit("__export_default");
        reveal_strlit("__Class");
        reveal_strlit("__fn");
        reveal_strlit("__re_export");
        reveal_strlit("__re_export_all");
    }
}

} // verus!
