//! The names under which the generated code addresses the global registry.

use vstd::prelude::*;

verus! {

/// The global object.
pub const GLOBAL: &'static str = "global";

/// The property of the global object that holds the registry.
pub const MODULE: &'static str = "__modules";

/// The registry's table of modules.
pub const MODULE_REGISTRY_NAME: &'static str = "registry";

/// Fetches the exports of a registered module.
pub const MODULE_IMPORT_NAME: &'static str = "import";

/// Fetches a registered module the CommonJS way.
pub const MODULE_REQUIRE_NAME: &'static str = "require";

/// Registers, or fetches, a module that the host's own loader supplies.
pub const MODULE_EXTERNAL_NAME: &'static str = "external";

/// The registry's helpers.
pub const MODULE_HELPER_NAME: &'static str = "helpers";

/// The helper that adapts a module object into a namespace object.
pub const HELPER_AS_WILDCARD_NAME: &'static str = "asWildcard";

/// Publishes the export table of an ECMAScript module.
pub const ESM_API_NAME: &'static str = "esm";

/// Opens the export boundary of a CommonJS module.
pub const CJS_API_NAME: &'static str = "cjs";

} // verus!
