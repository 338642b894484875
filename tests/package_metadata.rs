use cargo_equip_core::error::{ErrorKind, WorkspaceError};
use cargo_equip_core::graph::{Package, RawPackageMetadata};
use cargo_equip_core::pseudo_module::PseudoModulePath;

fn with_metadata(metadata: RawPackageMetadata) -> Package {
    Package {
        id: "lib 0.1.0".to_owned(),
        name: "lib".to_owned(),
        manifest_path: "/ws/lib/Cargo.toml".to_owned(),
        edition: "2018".to_owned(),
        targets: vec![],
        dependencies: vec![],
        metadata,
    }
}

#[test]
fn missing_metadata_defaults_with_warning() {
    for raw in [RawPackageMetadata::Null, RawPackageMetadata::Missing] {
        let o = with_metadata(raw).parse_metadata().unwrap();
        assert!(o.warn_missing);
        assert!(o.config.module_dependencies.is_empty());
    }
}

#[test]
fn malformed_metadata_names_manifest() {
    let e = with_metadata(RawPackageMetadata::Malformed).parse_metadata().unwrap_err();
    assert!(matches!(e, WorkspaceError::MalformedMetadata(ref p) if p == "/ws/lib/Cargo.toml"));
    assert_eq!(e.kind(), ErrorKind::MalformedMetadata);
}

#[test]
fn module_dependencies_are_parsed() {
    let raw = vec![(
        "::lib::a".to_owned(),
        vec!["::lib::b".to_owned(), "::other::c".to_owned()],
    )];
    let o = with_metadata(RawPackageMetadata::ModuleDependencies(raw)).parse_metadata().unwrap();
    assert!(!o.warn_missing);
    let deps = &o.config.module_dependencies;
    assert_eq!(deps.len(), 1);
    assert_eq!(deps[0].0, PseudoModulePath::new("lib", "a"));
    assert_eq!(deps[0].1, vec![PseudoModulePath::new("lib", "b"), PseudoModulePath::new("other", "c")]);
}

#[test]
fn bad_module_path_in_metadata_is_malformed() {
    let raw = vec![("::lib::a".to_owned(), vec!["lib::b".to_owned()])];
    let e = with_metadata(RawPackageMetadata::ModuleDependencies(raw)).parse_metadata().unwrap_err();
    assert!(matches!(e, WorkspaceError::MalformedMetadata(_)));
    let raw = vec![("::lib::a::x".to_owned(), vec![])];
    assert!(with_metadata(RawPackageMetadata::ModuleDependencies(raw)).parse_metadata().is_err());
}

#[test]
fn repeated_values_count_once() {
    let raw = vec![(
        "::lib::a".to_owned(),
        vec!["::lib::b".to_owned(), "::lib::c".to_owned(), "::lib::b".to_owned()],
    )];
    let o = with_metadata(RawPackageMetadata::ModuleDependencies(raw)).parse_metadata().unwrap();
    assert_eq!(
        o.config.module_dependencies[0].1,
        vec![PseudoModulePath::new("lib", "b"), PseudoModulePath::new("lib", "c")]
    );
}

#[test]
fn repeated_key_is_malformed() {
    let raw = vec![
        ("::lib::a".to_owned(), vec!["::lib::b".to_owned()]),
        ("::lib::c".to_owned(), vec![]),
        ("::lib::a".to_owned(), vec!["::lib::c".to_owned()]),
    ];
    let e = with_metadata(RawPackageMetadata::ModuleDependencies(raw)).parse_metadata().unwrap_err();
    assert!(matches!(e, WorkspaceError::MalformedMetadata(_)));
}
