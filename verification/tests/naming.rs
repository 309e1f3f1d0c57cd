use axum_hotreload::artifact::{
    built_dylib_path, dylib_name, dylib_naming, staged_dylib_path, staged_name, staging_dir,
};
use axum_hotreload::{dylib_path, Platform};
use std::path::PathBuf;

const SUFFIX: &str = "67e55044-10b1-426f-9247-bb680e5fe0c8";

#[test]
fn dylib_path_converts_hyphens_to_underscores() {
    let root = PathBuf::from("/ws");
    assert_eq!(
        dylib_path(&root, "my-axum-app", Platform::MacOs),
        PathBuf::from("/ws/target/debug/libmy_axum_app.dylib")
    );
    assert_eq!(
        dylib_path(&root, "my-axum-app", Platform::Windows),
        PathBuf::from("/ws/target/debug/my_axum_app.dll")
    );
    assert_eq!(
        dylib_path(&root, "my-axum-app", Platform::Other),
        PathBuf::from("/ws/target/debug/libmy_axum_app.so")
    );
}

#[test]
fn dylib_naming_per_platform() {
    assert_eq!(dylib_naming(Platform::MacOs), ("lib", "dylib"));
    assert_eq!(dylib_naming(Platform::Windows), ("", "dll"));
    assert_eq!(dylib_naming(Platform::Other), ("lib", "so"));
}

#[test]
fn dylib_path_is_the_built_dylib() {
    let root = PathBuf::from("relative/ws");
    assert_eq!(
        dylib_path(&root, "handlers", Platform::Other),
        built_dylib_path(&root, "handlers", Platform::Other)
    );
}

#[test]
fn dylib_path_of_an_empty_root_is_relative() {
    assert_eq!(
        dylib_path(&PathBuf::new(), "handlers", Platform::Other),
        PathBuf::from("target/debug/libhandlers.so")
    );
}

#[test]
fn staging_dir_is_under_target() {
    assert_eq!(
        staging_dir(&PathBuf::from("/ws")),
        PathBuf::from("/ws/target/axum-hotreload")
    );
}

#[test]
fn staged_path_carries_the_suffix() {
    assert_eq!(
        staged_dylib_path(&PathBuf::from("/ws"), "my-app", Platform::Other, SUFFIX),
        PathBuf::from("/ws/target/axum-hotreload")
            .join(format!("libmy_app-{SUFFIX}.so"))
    );
}

#[test]
fn names_differ_only_by_their_parts() {
    assert_eq!(dylib_name(Platform::Windows, "a-b_c"), "a_b_c.dll");
    assert_eq!(staged_name(Platform::MacOs, "a-b", "x"), "liba_b-x.dylib");
    assert_ne!(
        staged_name(Platform::Other, "a", "x"),
        staged_name(Platform::Other, "a", "y")
    );
    assert_ne!(
        staged_name(Platform::Other, "a", ""),
        dylib_name(Platform::Other, "a")
    );
}

#[test]
fn hyphens_do_not_tell_packages_apart() {
    let root = PathBuf::from("/ws");
    assert_eq!(
        dylib_path(&root, "a-b", Platform::Other),
        dylib_path(&root, "a_b", Platform::Other)
    );
}

#[test]
fn lib_name_keeps_other_characters() {
    assert_eq!(dylib_name(Platform::Windows, "käse-brot"), "käse_brot.dll");
    assert_eq!(dylib_name(Platform::Windows, ""), ".dll");
    assert_eq!(dylib_name(Platform::Windows, "---"), "___.dll");
}

#[test]
fn other_characters_tell_packages_apart() {
    let root = PathBuf::from("/ws");
    for other in ["ab", "a-c", "a--b", "A-b"] {
        assert_ne!(
            dylib_path(&root, "a-b", Platform::Other),
            dylib_path(&root, other, Platform::Other)
        );
    }
}

#[test]
fn file_names_are_those_that_were_adjoined() {
    for root in ["/ws", "", "/", "ws/", "..", "//server"] {
        let root = PathBuf::from(root);
        let built = built_dylib_path(&root, "my-app", Platform::Other);
        assert_eq!(built.file_name().unwrap(), "libmy_app.so");
        assert!(built.display().to_string().ends_with("debug/libmy_app.so"));
        let staged = staged_dylib_path(&root, "my-app", Platform::Other, SUFFIX);
        let name = staged_name(Platform::Other, "my-app", SUFFIX);
        assert_eq!(staged.file_name().unwrap(), name.as_str());
        assert!(staged
            .display()
            .to_string()
            .ends_with(&format!("axum-hotreload/{name}")));
    }
}

#[test]
fn staged_paths_are_unique() {
    let root = PathBuf::from("/ws");
    let other = "67e55044-10b1-426f-9247-bb680e5fe0c9";
    let a = staged_dylib_path(&root, "my-app", Platform::Other, SUFFIX);
    let b = staged_dylib_path(&root, "my-app", Platform::Other, other);
    assert_ne!(a, b);
    assert_ne!(a, built_dylib_path(&root, "my-app", Platform::Other));
}

#[test]
fn built_dylib_is_not_in_the_staging_directory() {
    let root = PathBuf::from("/ws");
    let staging = staging_dir(&root);
    let built = built_dylib_path(&root, "my-app", Platform::Other);
    assert!(!built.starts_with(&staging));
    let staged = staged_dylib_path(&root, "my-app", Platform::Other, SUFFIX);
    assert_eq!(staged.parent(), Some(staging.as_path()));
}
