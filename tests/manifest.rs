use cargo_equip_core::error::{ErrorKind, WorkspaceError};
use cargo_equip_core::manifest::{patch_dependencies, patch_manifest, strip_path_dependencies};

const ORIGINAL: &str = r#"[package]
name = "solutions"
version = "0.1.0"
edition = "2018"

[dependencies]
proconio = "0.4"
my-lib = { path = "../my-lib" }
num = { version = "0.3", default-features = false }
other = { path = "../other", version = "0.1" }
"#;

const SKELETON: &str = r#"[package]
name = "scratch"
version = "0.1.0"
edition = "2018"

[dependencies]
"#;

#[test]
fn patched_manifest_keeps_registry_dependencies_only() {
    let out = patch_manifest(ORIGINAL, SKELETON).unwrap();
    assert!(out.contains("name = \"scratch\""));
    assert!(out.contains("proconio = \"0.4\""));
    assert!(out.contains("num = { version = \"0.3\", default-features = false }"));
    assert!(!out.contains("my-lib"));
    assert!(!out.contains("../other"));
    assert!(out.find("proconio").unwrap() < out.find("num").unwrap());
    let reparsed = out.parse::<toml_edit::Document>().unwrap();
    let deps = reparsed["dependencies"].as_table().unwrap();
    let keys: Vec<&str> = deps.iter().map(|(k, _)| k).collect();
    assert_eq!(keys, vec!["proconio", "num"]);
}

#[test]
fn manifest_without_dependencies_gets_none() {
    let original = "[package]\nname = \"x\"\nversion = \"0.1.0\"\n";
    let out = patch_manifest(original, SKELETON).unwrap();
    assert!(out.contains("name = \"scratch\""));
    assert!(!out.contains("proconio"));
}

#[test]
fn invalid_manifest_is_refused() {
    let e = patch_manifest("[package\nname = ", SKELETON).unwrap_err();
    assert!(matches!(e, WorkspaceError::InvalidManifest(_)));
    assert_eq!(e.kind(), ErrorKind::IoFailure);
    assert!(patch_manifest(ORIGINAL, "= = =").is_err());
}

#[test]
fn document_without_table_root_is_left_alone() {
    let original = ORIGINAL.parse::<toml_edit::Document>().unwrap();
    let mut odd = toml_edit::Document::new();
    odd.root = toml_edit::Item::None;
    strip_path_dependencies(&mut odd);
    patch_dependencies(&original, &mut odd);
    assert!(odd.root.is_none());
}

#[test]
fn dependency_values_are_copied_verbatim() {
    let original = ORIGINAL.parse::<toml_edit::Document>().unwrap();
    let mut scratch = SKELETON.parse::<toml_edit::Document>().unwrap();
    patch_dependencies(&original, &mut scratch);
    let deps = scratch["dependencies"].as_table().unwrap();
    assert_eq!(deps["proconio"].as_str(), Some("0.4"));
    let num = deps["num"].as_inline_table().unwrap();
    assert_eq!(num.get("version").and_then(|v| v.as_str()), Some("0.3"));
    assert_eq!(num.get("default-features").and_then(|v| v.as_bool()), Some(false));
    assert!(deps.get("my-lib").is_none());
}
