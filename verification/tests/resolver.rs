use swc_global_module::config::GlobalModuleOptions;
use swc_global_module::global_module;
use swc_global_module::ident::{Ident, Mark};
use swc_global_module::module_mapper::ModuleMapper;
use swc_global_module::module_resolver::{ConfigError, ModuleResolver};

fn text(s: &str) -> String {
    s.to_string()
}

fn resolver(external: Option<&str>, ids: Option<Vec<(&str, &str)>>) -> ModuleResolver {
    ModuleResolver::new(
        external.map(text),
        ids.map(|pairs| pairs.into_iter().map(|(k, v)| (text(k), text(v))).collect()),
    )
    .ok()
    .unwrap()
}

#[test]
fn nothing_is_external_without_a_pattern() {
    let r = resolver(None, None);
    assert!(!r.is_external(&text("react")));
    assert!(!r.is_external(&text("")));
}

#[test]
fn external_pattern_is_matched_against_the_specifier() {
    let r = resolver(Some("^(react|react-native)"), None);
    assert!(r.is_external(&text("react")));
    assert!(r.is_external(&text("react-native")));
    assert!(r.is_external(&text("react/jsx-runtime")));
    assert!(!r.is_external(&text("preact")));
    assert!(!r.is_external(&text("./react")));
}

#[test]
fn anchored_external_pattern_matches_the_whole_specifier_only() {
    let r = resolver(Some("^react$"), None);
    assert!(r.is_external(&text("react")));
    assert!(!r.is_external(&text("react-native")));
}

#[test]
fn pattern_that_does_not_compile_is_refused() {
    assert_eq!(
        ModuleResolver::new(Some(text("(react")), None).err(),
        Some(ConfigError::ExternalPattern)
    );
    assert_eq!(
        global_module(text("test.js"), true, Some(text("[")), None).err(),
        Some(ConfigError::ExternalPattern)
    );
}

#[test]
fn actual_path_comes_from_the_remapping() {
    let r = resolver(None, Some(vec![("react", "12345"), ("react", "other"), ("./a", "a.js")]));
    assert_eq!(r.to_actual_path(&text("react"), false), Some(text("12345")));
    assert_eq!(r.to_actual_path(&text("./a"), false), Some(text("a.js")));
    assert_eq!(r.to_actual_path(&text("./b"), false), None);
}

#[test]
fn external_specifier_is_never_remapped() {
    let r = resolver(Some("^react$"), Some(vec![("react", "12345")]));
    assert_eq!(r.to_actual_path(&text("react"), true), None);
    assert_eq!(r.to_actual_path(&text("react"), false), Some(text("12345")));
}

#[test]
fn no_remapping_gives_no_actual_path() {
    let r = resolver(None, None);
    assert_eq!(r.to_actual_path(&text("react"), false), None);
}

#[test]
fn identifier_is_the_normalized_specifier() {
    let mut r = resolver(None, None);
    assert_eq!(
        r.get_ident_by_src(&text("react-native"), false),
        Ident { sym: text("_react_native"), mark: Mark::Module(0) }
    );
    assert_eq!(
        r.get_ident_by_src(&text("./foo/bar.js"), false),
        Ident { sym: text("___foo_bar_js"), mark: Mark::Module(1) }
    );
    assert_eq!(
        r.get_ident_by_src(&text("@scope/pkg"), false),
        Ident { sym: text("__scope_pkg"), mark: Mark::Module(2) }
    );
    assert_eq!(
        r.get_ident_by_src(&text("abcXYZ019"), false),
        Ident { sym: text("_abcXYZ019"), mark: Mark::Module(3) }
    );
}

#[test]
fn identifier_is_memoized() {
    let mut r = resolver(None, None);
    let first = r.get_ident_by_src(&text("react"), false);
    let other = r.get_ident_by_src(&text("lodash"), false);
    let again = r.get_ident_by_src(&text("react"), false);
    assert_eq!(first, again);
    assert_ne!(first, other);
    assert_eq!(
        r.registered_idents(),
        &vec![
            (text("react"), Ident { sym: text("_react"), mark: Mark::Module(0) }),
            (text("lodash"), Ident { sym: text("_lodash"), mark: Mark::Module(1) }),
        ]
    );
}

#[test]
fn specifiers_with_the_same_spelling_after_normalizing_stay_apart() {
    let mut r = resolver(None, None);
    let dashed = r.get_ident_by_src(&text("a-b"), false);
    let dotted = r.get_ident_by_src(&text("a.b"), false);
    assert_eq!(dashed.sym, dotted.sym);
    assert_ne!(dashed, dotted);
    assert_eq!(r.registered_idents().len(), 2);
}

#[test]
fn remapped_specifier_is_registered_under_its_path() {
    let mut r = resolver(None, Some(vec![("react", "12345")]));
    let ident = r.get_ident_by_src(&text("react"), false);
    assert_eq!(ident, Ident { sym: text("_react"), mark: Mark::Module(0) });
    assert_eq!(r.registered_idents(), &vec![(text("12345"), ident.clone())]);
    assert_eq!(r.find_registered(&text("12345")), Some(0));
    assert_eq!(r.find_registered(&text("react")), None);
    assert_eq!(r.get_ident_by_src(&text("12345"), false), ident);
    assert_eq!(r.registered_idents().len(), 1);
}

#[test]
fn external_request_is_registered_under_the_specifier() {
    let mut r = resolver(Some("^react$"), Some(vec![("react", "12345")]));
    let ident = r.get_ident_by_src(&text("react"), true);
    assert_eq!(r.registered_idents(), &vec![(text("react"), ident)]);
}

#[test]
fn register_ident_keeps_the_first_spelling() {
    let mut r = resolver(None, None);
    let first = r.register_ident(text("path"), text("_one"));
    let second = r.register_ident(text("path"), text("_two"));
    let third = r.register_ident(text("other"), text("_two"));
    assert_eq!(first, Ident { sym: text("_one"), mark: Mark::Module(0) });
    assert_eq!(second, first);
    assert_eq!(third, Ident { sym: text("_two"), mark: Mark::Module(1) });
}

#[test]
fn mapper_registers_and_remaps() {
    let mut m = ModuleMapper::new(Some(vec![(text("react"), text("12345"))])).ok().unwrap();
    assert_eq!(m.to_actual_path(&text("react")), Some(text("12345")));
    assert_eq!(m.to_actual_path(&text("vue")), None);
    let ident = m.register_ident_by_src(&text("react"));
    assert_eq!(ident, Ident { sym: text("_react"), mark: Mark::Module(0) });
    assert_eq!(m.register_ident_by_src(&text("react")), ident);
    assert_eq!(m.registered_idents(), &vec![(text("12345"), ident)]);
}

#[test]
fn options_fall_back_to_the_name_of_the_file() {
    let options = GlobalModuleOptions {
        module_id: None,
        runtime_module: None,
        external_pattern: None,
        import_paths: None,
    };
    assert!(options.transformer(Some(text("src/index.js"))).is_ok());
}

#[test]
fn options_without_a_module_id_are_refused() {
    let options = GlobalModuleOptions {
        module_id: None,
        runtime_module: Some(true),
        external_pattern: None,
        import_paths: None,
    };
    assert_eq!(options.transformer(None).err(), Some(ConfigError::MissingModuleId));
}

#[test]
fn options_with_a_bad_pattern_are_refused() {
    let options = GlobalModuleOptions {
        module_id: Some(text("id")),
        runtime_module: Some(true),
        external_pattern: Some(text("a{")),
        import_paths: None,
    };
    assert_eq!(options.transformer(None).err(), Some(ConfigError::ExternalPattern));
}
