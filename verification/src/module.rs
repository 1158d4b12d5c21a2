//! The top level of a module: its items and its `import`/`export`
//! declarations.

use vstd::prelude::*;
use crate::ast::{
    clone_decl, clone_expr, clone_opaque, clone_stmt, Decl, DeclView, Expr, ExprView, Opaque,
    OpaqueView, Stmt, StmtView,
};
use crate::ident::{
    clone_opt_ident, clone_opt_string, opt_ident_view, opt_string_view, Ident, IdentView,
};

verus! {

/// The values of a list, in order.
pub open spec fn seq_view<T: View>(v: Vec<T>) -> Seq<T::V> {
    Seq::new(v.len() as nat, |i: int| v[i]@)
}

/// When an import is evaluated.
#[derive(Clone, Copy, Debug, PartialEq, Eq, Hash, Structural)]
pub enum ImportPhase {
    Evaluation,
    Source,
    Defer,
}

/// The name under which a module exports a binding.
#[derive(Debug, PartialEq, Eq)]
pub enum ModuleExportName {
    Ident(Ident),
    Str(String),
}

/// One clause of an import declaration.
#[derive(Debug, PartialEq, Eq)]
pub enum ImportSpecifier {
    /// `import { imported as local }`, or `import { local }`.
    Named { local: Ident, imported: Option<ModuleExportName>, is_type_only: bool },
    /// `import local from`.
    Default { local: Ident },
    /// `import * as local from`.
    Namespace { local: Ident },
}

/// `import specifiers from 'src'`.
#[derive(Debug, PartialEq, Eq)]
pub struct ImportDecl {
    pub specifiers: Vec<ImportSpecifier>,
    pub src: String,
    pub type_only: bool,
    /// The number under which the import attributes are filed, if there are
    /// any.
    pub attributes: Option<u64>,
    pub phase: ImportPhase,
}

/// One clause of a named export.
#[derive(Debug, PartialEq, Eq)]
pub enum ExportSpecifier {
    /// `export * as name from`.
    Namespace { name: ModuleExportName },
    /// `export binding from`.
    Default { binding: Ident },
    /// `export { orig as exported }`, or `export { orig }`.
    Named { orig: ModuleExportName, exported: Option<ModuleExportName>, is_type_only: bool },
}

/// `export { specifiers }`, with or without `from 'src'`.
#[derive(Debug, PartialEq, Eq)]
pub struct NamedExport {
    pub specifiers: Vec<ExportSpecifier>,
    pub src: Option<String>,
    pub type_only: bool,
    pub attributes: Option<u64>,
}

/// `export * from 'src'`.
#[derive(Debug, PartialEq, Eq)]
pub struct ExportAll {
    pub src: String,
    pub type_only: bool,
    pub attributes: Option<u64>,
}

/// What follows `export default` when it is a declaration.
#[derive(Debug, PartialEq, Eq)]
pub enum DefaultDecl {
    Class { ident: Option<Ident>, class: Opaque },
    Fn { ident: Option<Ident>, function: Opaque },
    /// A declaration that binds no value, such as an interface.
    Other(Opaque),
}

/// An `import` or `export` declaration.
#[derive(Debug, PartialEq, Eq)]
pub enum ModuleDecl {
    Import(ImportDecl),
    /// `export var`, `export function`, `export class`.
    ExportDecl(Decl),
    ExportNamed(NamedExport),
    ExportDefaultDecl(DefaultDecl),
    ExportDefaultExpr(Expr),
    ExportAll(ExportAll),
    /// Any other module declaration.
    Other(Opaque),
}

/// One item of the top level of a module.
#[derive(Debug, PartialEq, Eq)]
pub enum ModuleItem {
    ModuleDecl(ModuleDecl),
    Stmt(Stmt),
}

/// A module.
#[derive(Debug, PartialEq, Eq)]
pub struct Module {
    pub body: Vec<ModuleItem>,
}

/// The mathematical value of a [`ModuleExportName`].
pub enum ModuleExportNameView {
    Ident(IdentView),
    Str(Seq<char>),
}

/// The mathematical value of an [`ImportSpecifier`].
pub enum ImportSpecifierView {
    Named { local: IdentView, imported: Option<ModuleExportNameView>, is_type_only: bool },
    Default { local: IdentView },
    Namespace { local: IdentView },
}

/// The mathematical value of an [`ImportDecl`].
pub struct ImportDeclView {
    pub specifiers: Seq<ImportSpecifierView>,
    pub src: Seq<char>,
    pub type_only: bool,
    pub attributes: Option<u64>,
    pub phase: ImportPhase,
}

/// The mathematical value of an [`ExportSpecifier`].
pub enum ExportSpecifierView {
    Namespace { name: ModuleExportNameView },
    Default { binding: IdentView },
    Named {
        orig: ModuleExportNameView,
        exported: Option<ModuleExportNameView>,
        is_type_only: bool,
    },
}

/// The mathematical value of a [`NamedExport`].
pub struct NamedExportView {
    pub specifiers: Seq<ExportSpecifierView>,
    pub src: Option<Seq<char>>,
    pub type_only: bool,
    pub attributes: Option<u64>,
}

/// The mathematical value of an [`ExportAll`].
pub struct ExportAllView {
    pub src: Seq<char>,
    pub type_only: bool,
    pub attributes: Option<u64>,
}

/// The mathematical value of a [`DefaultDecl`].
pub enum DefaultDeclView {
    Class { ident: Option<IdentView>, class: OpaqueView },
    Fn { ident: Option<IdentView>, function: OpaqueView },
    Other(OpaqueView),
}

/// The mathematical value of a [`ModuleDecl`].
pub enum ModuleDeclView {
    Import(ImportDeclView),
    ExportDecl(DeclView),
    ExportNamed(NamedExportView),
    ExportDefaultDecl(DefaultDeclView),
    ExportDefaultExpr(ExprView),
    ExportAll(ExportAllView),
    Other(OpaqueView),
}

/// The mathematical value of a [`ModuleItem`].
pub enum ModuleItemView {
    ModuleDecl(ModuleDeclView),
    Stmt(StmtView),
}

/// The mathematical value of a [`Module`].
pub struct ModuleView {
    pub body: Seq<ModuleItemView>,
}

impl View for ModuleExportName {
    type V = ModuleExportNameView;

    open spec fn view(&self) -> ModuleExportNameView {
        match self {
            ModuleExportName::Ident(i) => ModuleExportNameView::Ident(i@),
            ModuleExportName::Str(s) => ModuleExportNameView::Str(s@),
        }
    }
}

/// The value of an optional export name.
pub open spec fn opt_name_view(o: Option<ModuleExportName>) -> Option<ModuleExportNameView> {
    match o {
        Some(n) => Some(n@),
        None => None,
    }
}

impl View for ImportSpecifier {
    type V = ImportSpecifierView;

    open spec fn view(&self) -> ImportSpecifierView {
        match self {
            ImportSpecifier::Named { local, imported, is_type_only } => ImportSpecifierView::Named {
                local: local@,
                imported: opt_name_view(*imported),
                is_type_only: *is_type_only,
            },
            ImportSpecifier::Default { local } => ImportSpecifierView::Default { local: local@ },
            ImportSpecifier::Namespace { local } => ImportSpecifierView::Namespace {
                local: local@,
            },
        }
    }
}

impl View for ImportDecl {
    type V = ImportDeclView;

    open spec fn view(&self) -> ImportDeclView {
        ImportDeclView {
            specifiers: seq_view(self.specifiers),
            src: self.src@,
            type_only: self.type_only,
            attributes: self.attributes,
            phase: self.phase,
        }
    }
}

impl View for ExportSpecifier {
    type V = ExportSpecifierView;

    open spec fn view(&self) -> ExportSpecifierView {
        match self {
            ExportSpecifier::Namespace { name } => ExportSpecifierView::Namespace { name: name@ },
            ExportSpecifier::Default { binding } => ExportSpecifierView::Default {
                binding: binding@,
            },
            ExportSpecifier::Named { orig, exported, is_type_only } => ExportSpecifierView::Named {
                orig: orig@,
                exported: opt_name_view(*exported),
                is_type_only: *is_type_only,
            },
        }
    }
}

impl View for NamedExport {
    type V = NamedExportView;

    open spec fn view(&self) -> NamedExportView {
        NamedExportView {
            specifiers: seq_view(self.specifiers),
            src: opt_string_view(self.src),
            type_only: self.type_only,
            attributes: self.attributes,
        }
    }
}

impl View for ExportAll {
    type V = ExportAllView;

    open spec fn view(&self) -> ExportAllView {
        ExportAllView { src: self.src@, type_only: self.type_only, attributes: self.attributes }
    }
}

impl View for DefaultDecl {
    type V = DefaultDeclView;

    open spec fn view(&self) -> DefaultDeclView {
        match self {
            DefaultDecl::Class { ident, class } => DefaultDeclView::Class {
                ident: opt_ident_view(*ident),
                class: class@,
            },
            DefaultDecl::Fn { ident, function } => DefaultDeclView::Fn {
                ident: opt_ident_view(*ident),
                function: function@,
            },
            DefaultDecl::Other(o) => DefaultDeclView::Other(o@),
        }
    }
}

impl View for ModuleDecl {
    type V = ModuleDeclView;

    open spec fn view(&self) -> ModuleDeclView {
        match self {
            ModuleDecl::Import(d) => ModuleDeclView::Import(d@),
            ModuleDecl::ExportDecl(d) => ModuleDeclView::ExportDecl(d@),
            ModuleDecl::ExportNamed(d) => ModuleDeclView::ExportNamed(d@),
            ModuleDecl::ExportDefaultDecl(d) => ModuleDeclView::ExportDefaultDecl(d@),
            ModuleDecl::ExportDefaultExpr(e) => ModuleDeclView::ExportDefaultExpr(e@),
            ModuleDecl::ExportAll(d) => ModuleDeclView::ExportAll(d@),
            ModuleDecl::Other(o) => ModuleDeclView::Other(o@),
        }
    }
}

impl View for ModuleItem {
    type V = ModuleItemView;

    open spec fn view(&self) -> ModuleItemView {
        match self {
            ModuleItem::ModuleDecl(d) => ModuleItemView::ModuleDecl(d@),
            ModuleItem::Stmt(s) => ModuleItemView::Stmt(s@),
        }
    }
}

impl View for Module {
    type V = ModuleView;

    open spec fn view(&self) -> ModuleView {
        ModuleView { body: seq_view(self.body) }
    }
}

impl Clone for ModuleExportName {
    fn clone(&self) -> (r: Self)
        ensures
            r@ == self@,
    {
        match self {
            ModuleExportName::Ident(i) => ModuleExportName::Ident(i.clone()),
            ModuleExportName::Str(s) => ModuleExportName::Str(s.clone()),
        }
    }
}

/// A copy of an optional export name.
pub fn clone_opt_name(o: &Option<ModuleExportName>) -> (r: Option<ModuleExportName>)
    ensures
        opt_name_view(r) == opt_name_view(*o),
{
    match o {
        Some(n) => Some(n.clone()),
        None => None,
    }
}

impl Clone for ImportSpecifier {
    fn clone(&self) -> (r: Self)
        ensures
            r@ == self@,
    {
        match self {
            ImportSpecifier::Named { local, imported, is_type_only } => ImportSpecifier::Named {
                local: local.clone(),
                imported: clone_opt_name(imported),
                is_type_only: *is_type_only,
            },
            ImportSpecifier::Default { local } => ImportSpecifier::Default { local: local.clone() },
            ImportSpecifier::Namespace { local } => ImportSpecifier::Namespace {
                local: local.clone(),
            },
        }
    }
}

impl Clone for ImportDecl {
    fn clone(&self) -> (r: Self)
        ensures
            r@ == self@,
    {
        let mut specifiers: Vec<ImportSpecifier> = Vec::new();
        let mut i: usize = 0;
        while i < self.specifiers.len()
            invariant
                i <= self.specifiers.len(),
                specifiers.len() == i,
                forall|j: int| 0 <= j < i ==> (#[trigger] specifiers[j])@ == self.specifiers[j]@,
            decreases self.specifiers.len() - i,
        {
            specifiers.push(self.specifiers[i].clone());
            i += 1;
        }
        assert(seq_view(specifiers) =~= seq_view(self.specifiers));
        ImportDecl {
            specifiers,
            src: self.src.clone(),
            type_only: self.type_only,
            attributes: self.attributes,
            phase: self.phase,
        }
    }
}

impl Clone for ExportSpecifier {
    fn clone(&self) -> (r: Self)
        ensures
            r@ == self@,
    {
        match self {
            ExportSpecifier::Namespace { name } => ExportSpecifier::Namespace {
                name: name.clone(),
            },
            ExportSpecifier::Default { binding } => ExportSpecifier::Default {
                binding: binding.clone(),
            },
            ExportSpecifier::Named { orig, exported, is_type_only } => ExportSpecifier::Named {
                orig: orig.clone(),
                exported: clone_opt_name(exported),
                is_type_only: *is_type_only,
            },
        }
    }
}

impl Clone for NamedExport {
    fn clone(&self) -> (r: Self)
        ensures
            r@ == self@,
    {
        let mut specifiers: Vec<ExportSpecifier> = Vec::new();
        let mut i: usize = 0;
        while i < self.specifiers.len()
            invariant
                i <= self.specifiers.len(),
                specifiers.len() == i,
                forall|j: int| 0 <= j < i ==> (#[trigger] specifiers[j])@ == self.specifiers[j]@,
            decreases self.specifiers.len() - i,
        {
            specifiers.push(self.specifiers[i].clone());
            i += 1;
        }
        assert(seq_view(specifiers) =~= seq_view(self.specifiers));
        NamedExport {
            specifiers,
            src: clone_opt_string(&self.src),
            type_only: self.type_only,
            attributes: self.attributes,
        }
    }
}

impl Clone for ExportAll {
    fn clone(&self) -> (r: Self)
        ensures
            r@ == self@,
    {
        ExportAll {
            src: self.src.clone(),
            type_only: self.type_only,
            attributes: self.attributes,
        }
    }
}

impl Clone for DefaultDecl {
    fn clone(&self) -> (r: Self)
        ensures
            r@ == self@,
    {
        match self {
            DefaultDecl::Class { ident, class } => DefaultDecl::Class {
                ident: clone_opt_ident(ident),
                class: clone_opaque(class),
            },
            DefaultDecl::Fn { ident, function } => DefaultDecl::Fn {
                ident: clone_opt_ident(ident),
                function: clone_opaque(function),
            },
            DefaultDecl::Other(o) => DefaultDecl::Other(clone_opaque(o)),
        }
    }
}

impl Clone for ModuleDecl {
    fn clone(&self) -> (r: Self)
        ensures
            r@ == self@,
    {
        match self {
            ModuleDecl::Import(d) => ModuleDecl::Import(d.clone()),
            ModuleDecl::ExportDecl(d) => ModuleDecl::ExportDecl(clone_decl(d)),
            ModuleDecl::ExportNamed(d) => ModuleDecl::ExportNamed(d.clone()),
            ModuleDecl::ExportDefaultDecl(d) => ModuleDecl::ExportDefaultDecl(d.clone()),
            ModuleDecl::ExportDefaultExpr(e) => ModuleDecl::ExportDefaultExpr(clone_expr(e)),
            ModuleDecl::ExportAll(d) => ModuleDecl::ExportAll(d.clone()),
            ModuleDecl::Other(o) => ModuleDecl::Other(clone_opaque(o)),
        }
    }
}

impl Clone for ModuleItem {
    fn clone(&self) -> (r: Self)
        ensures
            r@ == self@,
    {
        match self {
            ModuleItem::ModuleDecl(d) => ModuleItem::ModuleDecl(d.clone()),
            ModuleItem::Stmt(s) => ModuleItem::Stmt(clone_stmt(s)),
        }
    }
}

/// A copy of a list of items.
pub fn clone_items(v: &Vec<ModuleItem>) -> (r: Vec<ModuleItem>)
    ensures
        seq_view(r) == seq_view(*v),
{
    let mut out: Vec<ModuleItem> = Vec::new();
    let mut i: usize = 0;
    while i < v.len()
        invariant
            i <= v.len(),
            out.len() == i,
            forall|j: int| 0 <= j < i ==> (#[trigger] out[j])@ == v[j]@,
        decreases v.len() - i,
    {
        out.push(v[i].clone());
        i += 1;
    }
    assert(seq_view(out) =~= seq_view(*v));
    out
}

/// Appends an item to a list.
pub fn push_item(out: &mut Vec<ModuleItem>, item: ModuleItem)
    ensures
        seq_view(*final(out)) == seq_view(*old(out)).push(item@),
{
    out.push(item);
    assert(seq_view(*out) =~= seq_view(*old(out)).push(item@));
}

impl Clone for Module {
    fn clone(&self) -> (r: Self)
        ensures
            r@ == self@,
    {
        Module { body: clone_items(&self.body) }
    }
}

} // verus!
