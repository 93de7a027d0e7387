use bevy_serialization_urdf::error::TranslationError;
use bevy_serialization_urdf::mesh_path::{ends_with, resolve_mesh_path, starts_with};

#[test]
fn package_reference_resolves_to_the_path_below_the_package_root() {
    assert_eq!(
        resolve_mesh_path("package://robot_description/meshes/arm.obj"),
        Ok("robot_description/meshes/arm.obj".to_string())
    );
}

#[test]
fn reference_without_the_package_prefix_is_an_error() {
    assert_eq!(
        resolve_mesh_path("robot_description/meshes/arm.obj"),
        Err(TranslationError::MissingPackagePrefix {
            filename: "robot_description/meshes/arm.obj".to_string()
        })
    );
}

#[test]
fn reference_with_another_scheme_is_an_error() {
    assert_eq!(
        resolve_mesh_path("file:///meshes/arm.obj"),
        Err(TranslationError::MissingPackagePrefix { filename: "file:///meshes/arm.obj".to_string() })
    );
    assert_eq!(
        resolve_mesh_path("Package://meshes/arm.obj"),
        Err(TranslationError::MissingPackagePrefix {
            filename: "Package://meshes/arm.obj".to_string()
        })
    );
    assert_eq!(
        resolve_mesh_path("package:/meshes/arm.obj"),
        Err(TranslationError::MissingPackagePrefix {
            filename: "package:/meshes/arm.obj".to_string()
        })
    );
}

#[test]
fn empty_reference_is_an_error() {
    assert_eq!(
        resolve_mesh_path(""),
        Err(TranslationError::MissingPackagePrefix { filename: String::new() })
    );
}

#[test]
fn collada_mesh_is_rejected_when_the_path_is_resolved() {
    assert_eq!(
        resolve_mesh_path("package://robot_description/meshes/arm.dae"),
        Err(TranslationError::UnsupportedMeshFormat {
            filename: "package://robot_description/meshes/arm.dae".to_string()
        })
    );
}

#[test]
fn collada_mesh_without_prefix_is_reported_for_the_prefix() {
    assert_eq!(
        resolve_mesh_path("meshes/arm.dae"),
        Err(TranslationError::MissingPackagePrefix { filename: "meshes/arm.dae".to_string() })
    );
}

#[test]
fn bare_prefix_resolves_to_the_empty_path() {
    assert_eq!(resolve_mesh_path("package://"), Ok(String::new()));
}

#[test]
fn prefix_followed_by_the_collada_ending_is_rejected() {
    assert_eq!(
        resolve_mesh_path("package://.dae"),
        Err(TranslationError::UnsupportedMeshFormat { filename: "package://.dae".to_string() })
    );
}

#[test]
fn path_is_cut_by_characters_not_by_bytes() {
    assert_eq!(
        resolve_mesh_path("package://m\u{e9}shes/\u{5c0f}.obj"),
        Ok("m\u{e9}shes/\u{5c0f}.obj".to_string())
    );
    assert_eq!(
        resolve_mesh_path("package://\u{5c0f}\u{5c0f}\u{5c0f}.dae"),
        Err(TranslationError::UnsupportedMeshFormat {
            filename: "package://\u{5c0f}\u{5c0f}\u{5c0f}.dae".to_string()
        })
    );
}

#[test]
fn error_names_the_file() {
    let refused = resolve_mesh_path("package://a/b.dae");
    match refused {
        Err(e) => assert_eq!(e.filename(), "package://a/b.dae"),
        Ok(_) => panic!("a .dae file was accepted"),
    }
}

#[test]
fn starts_with_compares_the_leading_characters() {
    assert!(starts_with("package://x", "package://"));
    assert!(starts_with("abc", ""));
    assert!(starts_with("abc", "abc"));
    assert!(!starts_with("ab", "abc"));
    assert!(!starts_with("xbc", "ab"));
    assert!(!starts_with("", "a"));
}

#[test]
fn ends_with_compares_the_trailing_characters() {
    assert!(ends_with("arm.dae", ".dae"));
    assert!(ends_with(".dae", ".dae"));
    assert!(ends_with("abc", ""));
    assert!(!ends_with("dae", ".dae"));
    assert!(!ends_with("arm.dae.obj", ".dae"));
    assert!(!ends_with("arm.dax", ".dae"));
}
