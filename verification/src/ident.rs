//! Identifiers and the marks that keep synthesized bindings apart.

use vstd::prelude::*;
use vstd::string::*;

verus! {

/// What tells two bindings of the same spelling apart.
///
/// A binding that the pass synthesizes is marked with the place where it is
/// introduced, so two synthesized bindings are the same binding exactly when
/// their marks are equal, however they are spelled.
#[derive(Clone, Copy, Debug, PartialEq, Eq, Hash, Structural)]
pub enum Mark {
    /// A name that is resolved by its spelling alone, such as `global` or a
    /// property name.
    Plain,
    /// A binding of the input tree, numbered by whoever built the tree.
    Source(u32),
    /// The private binding introduced together with the export record of this
    /// index.
    Export(usize),
    /// The private binding that holds the registered module of this index.
    Module(usize),
    /// The private binding that receives the namespace of the external source
    /// of this index.
    External(usize),
    /// The private binding of the CommonJS export boundary.
    Boundary,
}

impl Mark {
    /// Whether the mark is one that an input tree may carry.
    pub open spec fn is_source(self) -> bool {
        self is Plain || self is Source
    }

    /// Whether the mark belongs to a binding that the pass synthesized.
    pub open spec fn is_private(self) -> bool {
        !self.is_source()
    }
}

/// An identifier: a spelling and the mark of the binding it refers to.
#[derive(Debug, PartialEq, Eq, Hash)]
pub struct Ident {
    pub sym: String,
    pub mark: Mark,
}

/// The mathematical value of an [`Ident`].
pub struct IdentView {
    pub sym: Seq<char>,
    pub mark: Mark,
}

impl View for Ident {
    type V = IdentView;

    open spec fn view(&self) -> IdentView {
        IdentView { sym: self.sym@, mark: self.mark }
    }
}

impl Clone for Ident {
    fn clone(&self) -> (r: Self)
        ensures
            r@ == self@,
    {
        Ident { sym: self.sym.clone(), mark: self.mark }
    }
}

impl Ident {
    /// Whether the identifier is spelled `name`, whatever its mark.
    pub fn is_named(&self, name: &str) -> (b: bool)
        ensures
            b == (self@.sym == name@),
    {
        spelled(&self.sym, name)
    }
}

/// The value of an optional identifier.
pub open spec fn opt_ident_view(o: Option<Ident>) -> Option<IdentView> {
    match o {
        Some(i) => Some(i@),
        None => None,
    }
}

/// The value of an optional string.
pub open spec fn opt_string_view(o: Option<String>) -> Option<Seq<char>> {
    match o {
        Some(s) => Some(s@),
        None => None,
    }
}

/// The plain identifier spelled `sym`.
pub open spec fn plain(sym: Seq<char>) -> IdentView {
    IdentView { sym, mark: Mark::Plain }
}

/// Whether `s` holds exactly the characters of `name`.
pub fn spelled(s: &String, name: &str) -> (b: bool)
    ensures
        b == (s@ == name@),
{
    let other = String::from_str(name);
    *s == other
}

/// An identifier that is resolved by its spelling alone.
pub fn quote_ident(sym: &str) -> (r: Ident)
    ensures
        r@ == plain(sym@),
{
    Ident { sym: String::from_str(sym), mark: Mark::Plain }
}

/// An identifier spelled `sym` for the private binding `mark`.
pub fn private_ident(sym: &str, mark: Mark) -> (r: Ident)
    ensures
        r@ == (IdentView { sym: sym@, mark }),
{
    Ident { sym: String::from_str(sym), mark }
}

/// A copy of an optional identifier.
pub fn clone_opt_ident(o: &Option<Ident>) -> (r: Option<Ident>)
    ensures
        opt_ident_view(r) == opt_ident_view(*o),
{
    match o {
        Some(i) => Some(i.clone()),
        None => None,
    }
}

/// A copy of an optional string.
pub fn clone_opt_string(o: &Option<String>) -> (r: Option<String>)
    ensures
        opt_string_view(r) == opt_string_view(*o),
{
    match o {
        Some(s) => Some(s.clone()),
        None => None,
    }
}

} // verus!
