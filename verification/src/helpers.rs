//! Builders of the code that the pass emits.

use vstd::prelude::*;
use vstd::string::*;
use crate::ast::{
    arg_of, args_view, call_of, member_of, props_view, var_decl_of, Arg, ArgView, Expr, ExprView,
    Pat, PatView, Prop, PropView, Stmt, StmtView, VarDeclKind,
};
use crate::constants::{
    GLOBAL, HELPER_AS_WILDCARD_NAME, MODULE, MODULE_EXTERNAL_NAME, MODULE_HELPER_NAME,
    MODULE_IMPORT_NAME, MODULE_REQUIRE_NAME,
};
use crate::ident::{opt_ident_view, plain, quote_ident, Ident, IdentView};
use crate::module::{
    seq_view, ImportDecl, ImportDeclView, ImportPhase, ImportSpecifier, ImportSpecifierView,
    ModuleDecl, ModuleDeclView, ModuleExportName, ModuleExportNameView, ModuleItem,
    ModuleItemView,
};

verus! {

/// `const ident = init`.
pub open spec fn const_stmt(ident: IdentView, init: ExprView) -> StmtView {
    StmtView::Decl(var_decl_of(VarDeclKind::Const, PatView::Ident(ident), init))
}

/// `global.__modules.name`.
pub open spec fn registry_member(name: Seq<char>) -> ExprView {
    member_of(member_of(ExprView::Ident(plain(GLOBAL@)), plain(MODULE@)), plain(name))
}

/// `global.__modules.name(args)`.
pub open spec fn registry_call(name: Seq<char>, args: Seq<ArgView>) -> ExprView {
    call_of(registry_member(name), args)
}

/// `global.__modules.import('src')`.
pub open spec fn import_from_global(src: Seq<char>) -> ExprView {
    registry_call(MODULE_IMPORT_NAME@, seq![arg_of(ExprView::Str(src))])
}

/// `global.__modules.require('src')`.
pub open spec fn require_from_global(src: Seq<char>) -> ExprView {
    registry_call(MODULE_REQUIRE_NAME@, seq![arg_of(ExprView::Str(src))])
}

/// `global.__modules.external('src')`.
pub open spec fn external_from_global(src: Seq<char>) -> ExprView {
    registry_call(MODULE_EXTERNAL_NAME@, seq![arg_of(ExprView::Str(src))])
}

/// `global.__modules.helpers.asWildcard(module)`.
pub open spec fn as_wildcard(module: IdentView) -> ExprView {
    call_of(
        member_of(registry_member(MODULE_HELPER_NAME@), plain(HELPER_AS_WILDCARD_NAME@)),
        seq![arg_of(ExprView::Ident(module))],
    )
}

/// `import specifier from 'src'`, as an item.
pub open spec fn import_item(specifier: ImportSpecifierView, src: Seq<char>) -> ModuleItemView {
    ModuleItemView::ModuleDecl(
        ModuleDeclView::Import(
            ImportDeclView {
                specifiers: seq![specifier],
                src,
                type_only: false,
                attributes: None,
                phase: ImportPhase::Evaluation,
            },
        ),
    )
}

/// The statement that binds `ident` to the default export of a module: a read
/// of `default` off the module object where there is one, an import
/// declaration otherwise.
pub open spec fn default_import_stmt(
    module_src: Seq<char>,
    ident: IdentView,
    runtime_module_ident: Option<IdentView>,
) -> ModuleItemView {
    match runtime_module_ident {
        Some(module) => ModuleItemView::Stmt(
            const_stmt(ident, member_of(ExprView::Ident(module), plain("default"@))),
        ),
        None => import_item(ImportSpecifierView::Default { local: ident }, module_src),
    }
}

/// The name under which a named import is exported by its module.
pub open spec fn imported_name(ident: IdentView, imported: Option<IdentView>) -> Seq<char> {
    match imported {
        Some(name) => name.sym,
        None => ident.sym,
    }
}

/// The statement that binds `ident` to a named export of a module.
pub open spec fn named_import_stmt(
    module_src: Seq<char>,
    ident: IdentView,
    runtime_module_ident: Option<IdentView>,
    imported: Option<IdentView>,
) -> ModuleItemView {
    match runtime_module_ident {
        Some(module) => ModuleItemView::Stmt(
            const_stmt(
                ident,
                member_of(ExprView::Ident(module), plain(imported_name(ident, imported))),
            ),
        ),
        None => import_item(
            ImportSpecifierView::Named {
                local: ident,
                imported: match imported {
                    Some(name) => Some(ModuleExportNameView::Ident(name)),
                    None => None,
                },
                is_type_only: false,
            },
            module_src,
        ),
    }
}

/// The statement that binds `ident` to the namespace of a module.
pub open spec fn namespace_import_stmt(
    module_src: Seq<char>,
    ident: IdentView,
    runtime_module_ident: Option<IdentView>,
) -> ModuleItemView {
    match runtime_module_ident {
        Some(module) => ModuleItemView::Stmt(const_stmt(ident, as_wildcard(module))),
        None => import_item(ImportSpecifierView::Namespace { local: ident }, module_src),
    }
}

/// Whether a module declaration is an import without specifiers and without a
/// source.
pub open spec fn invalid_module_decl(decl: ModuleDeclView) -> bool {
    decl matches ModuleDeclView::Import(import) && import.src.len() == 0
        && import.specifiers.len() == 0
}

/// The value of an optional borrowed identifier.
pub open spec fn opt_ref_view(o: Option<&Ident>) -> Option<IdentView> {
    match o {
        Some(i) => Some(i@),
        None => None,
    }
}

/// Returns an object member expression: `obj.prop`.
pub fn obj_member_expr(obj: Expr, prop: Ident) -> (r: Expr)
    ensures
        r@ == member_of(obj@, prop@),
{
    Expr::Member { obj: Box::new(obj), prop }
}

/// Returns the statement `const ident = init`.
pub fn decl_var_and_assign_stmt(ident: &Ident, init: Expr) -> (r: Stmt)
    ensures
        r@ == const_stmt(ident@, init@),
{
    Stmt::Decl(init.into_var_decl(VarDeclKind::Const, Pat::Ident(ident.clone())))
}

/// Returns an object literal: `{ props }`; without properties, `{}`.
pub fn obj_lit(props: Option<Vec<Prop>>) -> (r: Expr)
    ensures
        r@ == ExprView::Object(
            match props {
                Some(p) => props_view(p),
                None => Seq::<PropView>::empty(),
            },
        ),
{
    match props {
        Some(p) => Expr::Object(p),
        None => {
            let p: Vec<Prop> = Vec::new();
            assert(props_view(p) =~= Seq::<PropView>::empty());
            Expr::Object(p)
        },
    }
}

/// Returns `global.__modules.name`.
pub fn registry_member_expr(name: &str) -> (r: Expr)
    ensures
        r@ == registry_member(name@),
{
    obj_member_expr(
        obj_member_expr(Expr::Ident(quote_ident(GLOBAL)), quote_ident(MODULE)),
        quote_ident(name),
    )
}

/// Returns `global.__modules.name('src')`.
fn registry_call_with_str(name: &str, src: &String) -> (r: Expr)
    ensures
        r@ == registry_call(name@, seq![arg_of(ExprView::Str(src@))]),
{
    let mut args: Vec<Arg> = Vec::new();
    args.push(Expr::Str(src.clone()).as_arg());
    assert(args_view(args) =~= seq![arg_of(ExprView::Str(src@))]);
    registry_member_expr(name).as_call(args)
}

/// Returns the expression that imports a module from the registry:
/// `global.__modules.import('src')`.
pub fn import_module_from_global(src: &String) -> (r: Expr)
    ensures
        r@ == import_from_global(src@),
{
    registry_call_with_str(MODULE_IMPORT_NAME, src)
}

/// Returns the expression that requires a module from the registry:
/// `global.__modules.require('src')`.
pub fn require_module_from_global(src: &String) -> (r: Expr)
    ensures
        r@ == require_from_global(src@),
{
    registry_call_with_str(MODULE_REQUIRE_NAME, src)
}

/// Returns the expression that fetches an external module from the registry:
/// `global.__modules.external('module_src')`.
pub fn external_module_from_global(module_src: &String) -> (r: Expr)
    ensures
        r@ == external_from_global(module_src@),
{
    registry_call_with_str(MODULE_EXTERNAL_NAME, module_src)
}

/// Returns the import declaration of one specifier from `module_src`.
fn import_decl_item(specifier: ImportSpecifier, module_src: &String) -> (r: ModuleItem)
    ensures
        r@ == import_item(specifier@, module_src@),
{
    let mut specifiers: Vec<ImportSpecifier> = Vec::new();
    specifiers.push(specifier);
    assert(seq_view(specifiers) =~= seq![specifier@]);
    ModuleItem::ModuleDecl(
        ModuleDecl::Import(
            ImportDecl {
                specifiers,
                src: module_src.clone(),
                type_only: false,
                attributes: None,
                phase: ImportPhase::Evaluation,
            },
        ),
    )
}

/// Returns the statement that binds `ident` to the default export of a
/// module: `const ident = module.default` where the module object is given,
/// `import ident from 'module_src'` otherwise.
pub fn create_default_import_stmt(
    module_src: &String,
    ident: &Ident,
    runtime_module_ident: Option<&Ident>,
) -> (r: ModuleItem)
    ensures
        r@ == default_import_stmt(module_src@, ident@, opt_ref_view(runtime_module_ident)),
{
    match runtime_module_ident {
        Some(module) => ModuleItem::Stmt(
            decl_var_and_assign_stmt(
                ident,
                obj_member_expr(Expr::Ident(module.clone()), quote_ident("default")),
            ),
        ),
        None => import_decl_item(ImportSpecifier::Default { local: ident.clone() }, module_src),
    }
}

/// Returns the statement that binds `ident` to a named export of a module:
/// `const ident = module.name` where the module object is given,
/// `import { name as ident } from 'module_src'` otherwise.
pub fn create_named_import_stmt(
    module_src: &String,
    ident: &Ident,
    runtime_module_ident: Option<&Ident>,
    imported: &Option<Ident>,
) -> (r: ModuleItem)
    ensures
        r@ == named_import_stmt(
            module_src@,
            ident@,
            opt_ref_view(runtime_module_ident),
            opt_ident_view(*imported),
        ),
{
    match runtime_module_ident {
        Some(module) => {
            let name = match imported {
                Some(name) => quote_ident(name.sym.as_str()),
                None => quote_ident(ident.sym.as_str()),
            };
            ModuleItem::Stmt(
                decl_var_and_assign_stmt(ident, obj_member_expr(Expr::Ident(module.clone()), name)),
            )
        },
        None => {
            let imported = match imported {
                Some(name) => Some(ModuleExportName::Ident(name.clone())),
                None => None,
            };
            import_decl_item(
                ImportSpecifier::Named { local: ident.clone(), imported, is_type_only: false },
                module_src,
            )
        },
    }
}

/// Returns the statement that binds `ident` to the namespace of a module:
/// `const ident = global.__modules.helpers.asWildcard(module)` where the
/// module object is given, `import * as ident from 'module_src'` otherwise.
pub fn create_namespace_import_stmt(
    module_src: &String,
    ident: &Ident,
    runtime_module_ident: Option<&Ident>,
) -> (r: ModuleItem)
    ensures
        r@ == namespace_import_stmt(module_src@, ident@, opt_ref_view(runtime_module_ident)),
{
    match runtime_module_ident {
        Some(module) => {
            let mut args: Vec<Arg> = Vec::new();
            args.push(Expr::Ident(module.clone()).as_arg());
            assert(args_view(args) =~= seq![arg_of(ExprView::Ident(module@))]);
            let callee = obj_member_expr(
                registry_member_expr(MODULE_HELPER_NAME),
                quote_ident(HELPER_AS_WILDCARD_NAME),
            );
            ModuleItem::Stmt(decl_var_and_assign_stmt(ident, callee.as_call(args)))
        },
        None => import_decl_item(ImportSpecifier::Namespace { local: ident.clone() }, module_src),
    }
}

/// Checks whether a module declaration is an import without specifiers and
/// without a source.
pub fn is_invalid_module_decl(module_decl: &ModuleDecl) -> (b: bool)
    ensures
        b == invalid_module_decl(module_decl@),
{
    match module_decl {
        ModuleDecl::Import(import) => {
            import.src.as_str().is_empty() && import.specifiers.len() == 0
        },
        _ => false,
    }
}

} // verus!
