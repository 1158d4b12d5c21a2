//! The options of the pass, as the host hands them over.

use vstd::prelude::*;
use crate::ident::opt_string_view;
use crate::module_resolver::{opt_ids_view, refusal, ConfigError, ModuleIds};
use crate::{global_module, GlobalModuleTransformer, TransformerView};

verus! {

/// The options of the pass. All of them may be missing.
#[derive(Debug, PartialEq, Eq)]
pub struct GlobalModuleOptions {
    /// The name under which the module is registered.
    pub module_id: Option<String>,
    /// Whether `import` and `export` are replaced by calls against the
    /// registry.
    pub runtime_module: Option<bool>,
    /// The pattern of the specifiers that are left to the host's own loader.
    pub external_pattern: Option<String>,
    /// The explicit remapping of specifiers.
    pub import_paths: Option<ModuleIds>,
}

/// The name under which a module is registered: the one that the options give
/// it, or else the name of its file.
pub open spec fn module_id_of(module_id: Option<String>, filename: Option<String>) -> Option<
    Seq<char>,
> {
    match module_id {
        Some(id) => Some(id@),
        None => opt_string_view(filename),
    }
}

impl GlobalModuleOptions {
    /// The transformer that the options ask for, for the module of the file
    /// `filename`. The module is registered under the name that the options
    /// give it, or else under the name of its file; where there is neither,
    /// the options are refused. Imports and exports stay unless the options
    /// say otherwise. The options are also refused where a pattern does not
    /// compile, as [`refusal`] says.
    pub fn transformer(self, filename: Option<String>) -> (r: Result<
        GlobalModuleTransformer,
        ConfigError,
    >)
        ensures
            match module_id_of(self.module_id, filename) {
                None => r matches Err(err) && err == ConfigError::MissingModuleId,
                Some(module_id) => match refusal(opt_string_view(self.external_pattern)) {
                    Some(e) => r matches Err(err) && err == e,
                    None => {
                        &&& r matches Ok(transformer)
                        &&& transformer.wf()
                        &&& transformer@ == TransformerView::fresh(
                            module_id,
                            self.runtime_module == Some(true),
                            opt_string_view(self.external_pattern),
                            opt_ids_view(self.import_paths),
                        )
                    },
                },
            },
    {
        let module_id = match self.module_id {
            Some(id) => id,
            None => match filename {
                Some(name) => name,
                None => {
                    return Err(ConfigError::MissingModuleId);
                },
            },
        };
        let runtime_module = match self.runtime_module {
            Some(b) => b,
            None => false,
        };
        global_module(module_id, runtime_module, self.external_pattern, self.import_paths)
    }
}

} // verus!
