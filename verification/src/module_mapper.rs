//! Assigns each module specifier its identifier, where no specifier is
//! external.

use vstd::prelude::*;
use crate::ident::{opt_string_view, Ident};
use crate::module::seq_view;
use crate::module_resolver::{opt_ids_view, refusal, ConfigError, ModuleResolver, ResolverView};

verus! {

/// The explicit remapping of specifiers: pairs of a specifier and the path
/// that stands for it. Where a specifier occurs more than once, its first
/// pair counts.
pub type ImportPaths = Vec<(String, String)>;

/// Maps module specifiers to identifiers. It is a resolver without a pattern
/// of external specifiers.
pub struct ModuleMapper {
    resolver: ModuleResolver,
}

impl View for ModuleMapper {
    type V = ResolverView;

    closed spec fn view(&self) -> ResolverView {
        self.resolver@
    }
}

impl ModuleMapper {
    /// Whether the mapper is one that [`ModuleMapper::new`] made and its
    /// methods kept.
    pub closed spec fn wf(&self) -> bool {
        self.resolver.wf() && self.resolver@.external_pattern is None
    }

    /// A mapper without registered modules. It is refused where the pattern
    /// of the characters that cannot stand in an identifier does not compile.
    pub fn new(import_paths: Option<ImportPaths>) -> (r: Result<Self, ConfigError>)
        ensures
            match refusal(None) {
                Some(e) => r matches Err(err) && err == e,
                None => {
                    &&& r matches Ok(mapper)
                    &&& mapper.wf()
                    &&& mapper@ == (ResolverView {
                        registered: Seq::empty(),
                        external_pattern: None,
                        module_ids: opt_ids_view(import_paths),
                    })
                },
            },
    {
        match ModuleResolver::new(None, import_paths) {
            Ok(resolver) => Ok(ModuleMapper { resolver }),
            Err(e) => Err(e),
        }
    }

    /// The registered module paths with their identifiers, in the order of
    /// their registration.
    pub fn registered_idents(&self) -> (r: &Vec<(String, Ident)>)
        ensures
            seq_view(*r) == self@.registered,
    {
        self.resolver.registered_idents()
    }

    /// The identifier of the module that `src` names. It is made and
    /// recorded at the first request for the module's path, and the same at
    /// every later request.
    pub fn register_ident_by_src(&mut self, src: &String) -> (r: Ident)
        requires
            old(self).wf(),
        ensures
            final(self).wf(),
            final(self)@ == old(self)@.after_request(src@, false),
            r@ == old(self)@.ident_by_src(src@, false),
    {
        proof {
            self.resolver.lemma_wf();
            self.resolver@.lemma_after_request(src@, false);
        }
        self.resolver.get_ident_by_src(src, false)
    }

    /// The path that the remapping gives to `src`: none without a remapping,
    /// none where the remapping does not hold `src`.
    pub fn to_actual_path(&self, src: &String) -> (r: Option<String>)
        ensures
            opt_string_view(r) == self@.actual_path(src@, false),
    {
        self.resolver.to_actual_path(src, false)
    }
}

} // verus!
