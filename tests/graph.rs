use cargo_equip_core::error::{ErrorKind, WorkspaceError};
use cargo_equip_core::graph::{
    bin_targets, Dependency, DependencyKind, Metadata, Node, NodeDep, Package, RawPackageMetadata,
    Target, TargetKind,
};
use cargo_equip_core::names::hyphens_to_underscores;

fn target(kind: TargetKind, name: &str, src: &str) -> Target {
    Target { kind, name: name.to_owned(), src_path: src.to_owned() }
}

fn package(id: &str, name: &str, targets: Vec<Target>, deps: Vec<Dependency>) -> Package {
    Package {
        id: id.to_owned(),
        name: name.to_owned(),
        manifest_path: format!("/ws/{}/Cargo.toml", name),
        edition: "2018".to_owned(),
        targets,
        dependencies: deps,
        metadata: RawPackageMetadata::Null,
    }
}

fn dep(name: &str, rename: Option<&str>) -> Dependency {
    Dependency { name: name.to_owned(), rename: rename.map(|s| s.to_owned()) }
}

fn edge(name: &str, pkg: &str, kinds: Vec<DependencyKind>) -> NodeDep {
    NodeDep { name: name.to_owned(), pkg: pkg.to_owned(), dep_kinds: kinds }
}

fn metadata(packages: Vec<Package>, members: &[&str], nodes: Vec<Node>) -> Metadata {
    Metadata {
        packages,
        workspace_members: members.iter().map(|s| s.to_string()).collect(),
        resolve: Some(nodes),
        workspace_root: "/ws".to_owned(),
        target_directory: "/ws/target".to_owned(),
    }
}

/// P depends on Q through one normal edge; Q's library is `foo-bar`.
fn p_to_q(rename: Option<&str>, kinds: Vec<DependencyKind>) -> Metadata {
    let edge_name = rename.unwrap_or("foo_bar");
    let p = package(
        "p 0.1.0",
        "p",
        vec![target(TargetKind::Binary, "p", "/ws/p/src/main.rs")],
        vec![dep("foo-bar", rename)],
    );
    let q = package("q 0.1.0", "foo-bar", vec![target(TargetKind::Library, "foo-bar", "/ws/q/src/lib.rs")], vec![]);
    metadata(
        vec![p, q],
        &["p 0.1.0"],
        vec![
            Node {
                id: "p 0.1.0".to_owned(),
                deps: vec![edge(edge_name, "q 0.1.0", kinds)],
                dependencies: vec!["q 0.1.0".to_owned()],
            },
            Node { id: "q 0.1.0".to_owned(), deps: vec![], dependencies: vec![] },
        ],
    )
}

#[test]
fn hyphens_become_underscores() {
    assert_eq!(hyphens_to_underscores("foo-bar-baz"), "foo_bar_baz");
    assert_eq!(hyphens_to_underscores("plain"), "plain");
    assert_eq!(hyphens_to_underscores(""), "");
    assert_eq!(hyphens_to_underscores("-"), "_");
}

#[test]
fn name_used_at_edge_derives_from_library_name() {
    let m = p_to_q(None, vec![DependencyKind::Normal]);
    assert_eq!(m.extern_crate_name(&"p 0.1.0".to_owned(), &"q 0.1.0".to_owned()).unwrap(), Some("foo_bar".to_owned()));
}

#[test]
fn name_used_at_edge_prefers_explicit_rename() {
    let m = p_to_q(Some("baz"), vec![DependencyKind::Normal]);
    assert_eq!(m.extern_crate_name(&"p 0.1.0".to_owned(), &"q 0.1.0".to_owned()).unwrap(), Some("baz".to_owned()));
    let (t, q) = m.dep_lib_by_extern_crate_name(&"p 0.1.0".to_owned(), &"baz".to_owned()).unwrap();
    assert_eq!(q.id, "q 0.1.0");
    assert_eq!(t.name, "foo-bar");
    assert_eq!(t.kind, TargetKind::Library);
}

#[test]
fn name_used_at_edge_ignores_dev_and_build_edges() {
    let m = p_to_q(None, vec![DependencyKind::Development]);
    assert_eq!(m.extern_crate_name(&"p 0.1.0".to_owned(), &"q 0.1.0".to_owned()).unwrap(), None);
    let m = p_to_q(None, vec![DependencyKind::Normal, DependencyKind::Build]);
    assert_eq!(m.extern_crate_name(&"p 0.1.0".to_owned(), &"q 0.1.0".to_owned()).unwrap(), None);
    let m = p_to_q(None, vec![]);
    assert_eq!(m.extern_crate_name(&"p 0.1.0".to_owned(), &"q 0.1.0".to_owned()).unwrap(), Some("foo_bar".to_owned()));
    let e = m.extern_crate_name(&"p 0.1.0".to_owned(), &"r 0.1.0".to_owned()).unwrap_err();
    assert!(matches!(e, WorkspaceError::PackageNotInGraph(ref id) if id == "r 0.1.0"));
    let e = m.extern_crate_name(&"x 0.1.0".to_owned(), &"q 0.1.0".to_owned()).unwrap_err();
    assert!(matches!(e, WorkspaceError::PackageNotInGraph(ref id) if id == "x 0.1.0"));
    assert_eq!(e.kind(), ErrorKind::NotFound);
}

#[test]
fn extern_name_resolves_through_underscored_library_name() {
    let m = p_to_q(None, vec![DependencyKind::Normal]);
    let (t, q) = m.dep_lib_by_extern_crate_name(&"p 0.1.0".to_owned(), &"foo_bar".to_owned()).unwrap();
    assert_eq!(q.name, "foo-bar");
    assert_eq!(t.src_path, "/ws/q/src/lib.rs");
    let e = m.dep_lib_by_extern_crate_name(&"p 0.1.0".to_owned(), &"foo-bar".to_owned()).unwrap_err();
    assert!(matches!(e, WorkspaceError::NoSuchExternCrate(ref n) if n == "foo-bar"));
    assert_eq!(e.kind(), ErrorKind::NotFound);
}

#[test]
fn rename_shadows_implicit_library_name() {
    // `foo_bar` is declared as the rename of a dependency on a library named `other`.
    let mut m = p_to_q(Some("foo_bar"), vec![DependencyKind::Normal]);
    m.packages[1].targets[0].name = "other".to_owned();
    let (t, _) = m.dep_lib_by_extern_crate_name(&"p 0.1.0".to_owned(), &"foo_bar".to_owned()).unwrap();
    assert_eq!(t.name, "other");
}

#[test]
fn renamed_dependency_without_library_fails() {
    let mut m = p_to_q(Some("baz"), vec![DependencyKind::Normal]);
    m.packages[1].targets[0].kind = TargetKind::Binary;
    let e = m.dep_lib_by_extern_crate_name(&"p 0.1.0".to_owned(), &"baz".to_owned()).unwrap_err();
    match e {
        WorkspaceError::NoLibraryTarget { extern_crate_name, package_name } => {
            assert_eq!(extern_crate_name, "baz");
            assert_eq!(package_name, "foo-bar");
        }
        other => panic!("{:?}", other),
    }
}

#[test]
fn unknown_package_is_reported() {
    let m = p_to_q(None, vec![DependencyKind::Normal]);
    let e = m.dep_lib_by_extern_crate_name(&"zzz".to_owned(), &"foo_bar".to_owned()).unwrap_err();
    assert!(matches!(e, WorkspaceError::PackageNotInGraph(_)));
}

#[test]
fn implicit_match_takes_first_dependency_in_order() {
    let a = package("a 1.0.0", "dup", vec![target(TargetKind::Library, "dup", "/a/lib.rs")], vec![]);
    let b = package("b 1.0.0", "dup", vec![target(TargetKind::Library, "dup", "/b/lib.rs")], vec![]);
    let p = package("p 0.1.0", "p", vec![], vec![]);
    let m = metadata(
        vec![p, a, b],
        &["p 0.1.0"],
        vec![Node {
            id: "p 0.1.0".to_owned(),
            deps: vec![],
            dependencies: vec!["b 1.0.0".to_owned(), "a 1.0.0".to_owned()],
        }],
    );
    let (t, _) = m.dep_lib_by_extern_crate_name(&"p 0.1.0".to_owned(), &"dup".to_owned()).unwrap();
    assert_eq!(t.src_path, "/b/lib.rs");
}

fn bins_workspace(names: &[(&str, &str)]) -> Metadata {
    let packages: Vec<Package> = names
        .iter()
        .enumerate()
        .map(|(i, (n, src))| {
            package(
                &format!("m{} 0.1.0", i),
                &format!("m{}", i),
                vec![target(TargetKind::Library, "lib", "/x/lib.rs"), target(TargetKind::Binary, n, src)],
                vec![],
            )
        })
        .collect();
    let ids: Vec<String> = packages.iter().map(|p| p.id.clone()).collect();
    let refs: Vec<&str> = ids.iter().map(|s| s.as_str()).collect();
    metadata(packages, &refs, vec![])
}

#[test]
fn exactly_one_with_no_bin_fails_not_found() {
    let m = bins_workspace(&[]);
    let e = m.exactly_one_bin_target().unwrap_err();
    assert!(matches!(e, WorkspaceError::NoBinTarget));
    assert_eq!(e.kind(), ErrorKind::NotFound);
}

#[test]
fn exactly_one_with_two_bins_fails_ambiguous() {
    let m = bins_workspace(&[("a", "/a.rs"), ("b", "/b.rs")]);
    let e = m.exactly_one_bin_target().unwrap_err();
    assert_eq!(e.kind(), ErrorKind::Ambiguous);
    match e {
        WorkspaceError::AmbiguousBinTargets(names) => assert_eq!(names, vec!["a".to_owned(), "b".to_owned()]),
        other => panic!("{:?}", other),
    }
}

#[test]
fn exactly_one_with_one_bin_succeeds() {
    let m = bins_workspace(&[("solver", "/s.rs")]);
    let (t, p) = m.exactly_one_bin_target().unwrap();
    assert_eq!(t.name, "solver");
    assert_eq!(p.id, "m0 0.1.0");
}

#[test]
fn bins_of_non_members_are_not_listed() {
    let mut m = bins_workspace(&[("a", "/a.rs"), ("b", "/b.rs")]);
    m.workspace_members = vec!["m1 0.1.0".to_owned()];
    assert_eq!(bin_targets(&m), vec![(1, 1)]);
    let (t, _) = m.exactly_one_bin_target().unwrap();
    assert_eq!(t.name, "b");
}

#[test]
fn bin_by_name_selects_zero_one_many() {
    let m = bins_workspace(&[("a", "/a.rs"), ("b", "/b.rs"), ("a", "/c.rs")]);
    assert_eq!(m.bin_target_by_name(&"b".to_owned()).unwrap().0.src_path, "/b.rs");
    assert!(matches!(m.bin_target_by_name(&"z".to_owned()), Err(WorkspaceError::NoBinTargetNamed(ref n)) if n == "z"));
    let e = m.bin_target_by_name(&"a".to_owned()).unwrap_err();
    assert!(matches!(e, WorkspaceError::MultipleBinTargetsNamed(ref n) if n == "a"));
    assert_eq!(e.kind(), ErrorKind::Ambiguous);
}

#[test]
fn bin_by_src_path_selects_zero_one_many() {
    let m = bins_workspace(&[("a", "/a.rs"), ("b", "/b.rs"), ("c", "/b.rs")]);
    assert_eq!(m.bin_target_by_src_path(&"/a.rs".to_owned()).unwrap().0.name, "a");
    assert!(matches!(m.bin_target_by_src_path(&"/x.rs".to_owned()), Err(WorkspaceError::NoBinTargetAtPath(_))));
    assert!(matches!(m.bin_target_by_src_path(&"/b.rs".to_owned()), Err(WorkspaceError::MultipleBinTargetsAtPath(_))));
}
