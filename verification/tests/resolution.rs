use toml_const_cli::errors::InitError;
use toml_const_cli::manifest::{CargoManifest, ManifestClass};
use toml_const_cli::resolve::{resolve_root, ManifestProbe};

const PACKAGE: &str = "[package]\nname = \"a\"\nversion = \"0.1.0\"\n";
const WORKSPACE: &str = "[workspace]\nmembers = []\n";
const NEITHER: &str = "[dependencies]\n";

fn found(text: &str) -> ManifestProbe {
    ManifestProbe::Found(String::from(text))
}

#[test]
fn workspace_wins_over_any_packages_below_it() {
    let probes = vec![
        found(PACKAGE),
        found(NEITHER),
        found(PACKAGE),
        found(WORKSPACE),
        found(PACKAGE),
    ];
    assert_eq!(resolve_root(&probes), Some(3));
}

#[test]
fn topmost_package_wins_without_a_workspace() {
    let probes = vec![
        found(PACKAGE),
        ManifestProbe::Absent,
        found(PACKAGE),
        found(NEITHER),
    ];
    assert_eq!(resolve_root(&probes), Some(2));
}

#[test]
fn no_manifest_anywhere_yields_no_root() {
    let probes = vec![
        ManifestProbe::Absent,
        found("not toml ["),
        ManifestProbe::Absent,
    ];
    assert_eq!(resolve_root(&probes), None);
}

#[test]
fn an_unreadable_manifest_is_skipped_like_an_absent_one() {
    let probes = vec![
        found(PACKAGE),
        ManifestProbe::Unreadable,
        found(WORKSPACE),
    ];
    assert_eq!(resolve_root(&probes), Some(2));

    let only_unreadable = vec![ManifestProbe::Unreadable];
    assert_eq!(resolve_root(&only_unreadable), None);
}

#[test]
fn manifest_fields_are_read_as_declared() {
    let text = "[package]\nname = \"mypkg\"\n\n[lib]\nname = \"mylib\"\n\n[[bin]]\nname = \"x\"\n\n[[bin]]\nname = \"y\"\n";
    let m = CargoManifest::from_str(text).unwrap();
    assert_eq!(m.package.as_deref(), Some("mypkg"));
    assert!(!m.workspace);
    assert_eq!(m.library.as_deref(), Some("mylib"));
    assert_eq!(
        m.binaries,
        Some(vec![String::from("x"), String::from("y")])
    );
    assert_eq!(m.classify(), ManifestClass::Package);
}

#[test]
fn a_workspace_manifest_classifies_as_workspace() {
    let m = CargoManifest::from_str(WORKSPACE).unwrap();
    assert!(m.workspace);
    assert_eq!(m.package, None);
    assert_eq!(m.classify(), ManifestClass::Workspace);
}

#[test]
fn a_manifest_with_neither_classifies_as_neither() {
    let m = CargoManifest::from_str(NEITHER).unwrap();
    assert_eq!(m.classify(), ManifestClass::Neither);
}

#[test]
fn a_binary_target_without_a_name_reads_as_no_binary_list() {
    let m = CargoManifest::from_str("[package]\nname = \"a\"\nbin = [1, 2]\n").unwrap();
    assert_eq!(m.binaries, None);
    assert_eq!(m.package.as_deref(), Some("a"));
    assert_eq!(m.classify(), ManifestClass::Package);
}

#[test]
fn package_name_errors_are_distinguished() {
    assert!(matches!(
        CargoManifest::package_name_of("[package]\nversion = \"1\"\n"),
        Err(InitError::MissingPackageName)
    ));
    assert!(matches!(
        CargoManifest::package_name_of("[package]\nname = 5\n"),
        Err(InitError::PackageNameNotString)
    ));
    assert!(matches!(
        CargoManifest::package_name_of("not toml ["),
        Err(InitError::ParseFailed(_))
    ));
    assert_eq!(
        CargoManifest::package_name_of(PACKAGE).unwrap(),
        String::from("a")
    );
}
