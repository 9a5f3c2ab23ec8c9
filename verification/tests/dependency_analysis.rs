use vizier_lib::analyzer::dependency::{
    CargoDependencyKind, PackageDependency, PackageMetadata, WorkspaceMetadata,
};
use vizier_lib::analyzer::{DependencyAnalyzer, DependencyKind};

fn dep(name: &str, kind: CargoDependencyKind) -> PackageDependency {
    PackageDependency {
        name: name.to_string(),
        req: "^1".to_string(),
        optional: false,
        features: Vec::new(),
        kind,
    }
}

fn package(name: &str, deps: Vec<PackageDependency>) -> PackageMetadata {
    PackageMetadata {
        name: name.to_string(),
        version: "1.0.0".to_string(),
        authors: vec!["someone".to_string()],
        license: Some("MIT".to_string()),
        description: None,
        homepage: None,
        repository: None,
        documentation: None,
        dependencies: deps,
        features: vec![
            ("default".to_string(), vec!["std".to_string()]),
            ("std".to_string(), Vec::new()),
        ],
        edition: "2021".to_string(),
        rust_version: None,
    }
}

fn workspace() -> WorkspaceMetadata {
    WorkspaceMetadata {
        packages: vec![
            package(
                "app",
                vec![
                    dep("serde", CargoDependencyKind::Normal),
                    dep("ratatui", CargoDependencyKind::Normal),
                    dep("tempfile", CargoDependencyKind::Development),
                ],
            ),
            package("serde", vec![]),
            package("ratatui", vec![dep("crossterm", CargoDependencyKind::Normal)]),
            package("crossterm", vec![dep("serde", CargoDependencyKind::Build)]),
        ],
        root: Some(0),
    }
}

#[test]
fn dependency_tree_is_depth_first_from_the_root() {
    let a = DependencyAnalyzer::from_metadata(workspace());
    let tree = a.dependency_tree("app");
    assert_eq!(
        tree,
        vec![
            ("app".to_string(), 0),
            ("ratatui".to_string(), 1),
            ("crossterm".to_string(), 2),
            ("serde".to_string(), 3),
        ]
    );
    assert_eq!(a.total_dependency_count("app"), 3);
}

#[test]
fn dependency_tree_of_unknown_crate_is_empty() {
    let a = DependencyAnalyzer::from_metadata(workspace());
    assert!(a.dependency_tree("nope").is_empty());
    assert_eq!(a.total_dependency_count("nope"), 0);
}

#[test]
fn root_package_and_crate_info() {
    let a = DependencyAnalyzer::from_metadata(workspace());
    let root = a.root_package().expect("root package");
    assert_eq!(root.name, "app");
    assert_eq!(root.version, "1.0.0");
    assert_eq!(root.features, vec!["default".to_string(), "std".to_string()]);
    assert_eq!(root.default_features, vec!["std".to_string()]);
    assert_eq!(root.dependencies.len(), 3);
    assert_eq!(root.dependencies[2].kind, DependencyKind::Dev);
    assert_eq!(root.dependencies[2].version, "^1");
    let info = a.get_crate_info("ratatui").expect("ratatui");
    assert_eq!(info.dependencies[0].name, "crossterm");
    assert!(a.get_crate_info("nope").is_none());
    assert_eq!(a.all_packages().len(), 4);
}

#[test]
fn direct_dependencies_map_cargo_kinds() {
    let a = DependencyAnalyzer::from_metadata(workspace());
    let deps = a.direct_dependencies("crossterm");
    assert_eq!(deps.len(), 1);
    assert_eq!(deps[0].kind, DependencyKind::Build);
    assert_eq!(deps[0].kind.to_string(), "build");
    assert!(a.direct_dependencies("nope").is_empty());
}

#[test]
fn no_root_package() {
    let mut w = workspace();
    w.root = None;
    let a = DependencyAnalyzer::from_metadata(w);
    assert!(a.root_package().is_none());
}
