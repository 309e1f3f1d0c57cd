use axum_hotreload::artifact::{
    is_retired_file, staged_dylib_path, sweep_staging, Modified, StagedFile,
};
use axum_hotreload::{dylib_path, Platform};
use std::path::PathBuf;
use std::time::Duration;

fn file(path: &str, modified: Modified) -> StagedFile {
    StagedFile {
        path: PathBuf::from(path),
        modified,
    }
}

fn a_minute_old() -> Modified {
    Modified::Ago(Duration::from_secs(60))
}

#[test]
fn sweep_removes_old_copies_of_the_package() {
    let files = vec![
        file("/s/libmy_app-1.so", a_minute_old()),
        file("/s/libother-1.so", a_minute_old()),
        file("/s/libmy_app-2.so", Modified::Ago(Duration::from_millis(1999))),
        file("/s/libmy_app-3.so", Modified::Ago(Duration::from_secs(2))),
    ];
    assert_eq!(
        sweep_staging("my-app", &files),
        vec![
            PathBuf::from("/s/libmy_app-1.so"),
            PathBuf::from("/s/libmy_app-3.so")
        ]
    );
}

#[test]
fn sweep_keeps_files_from_the_future() {
    assert!(!file("/s/liba-1.so", Modified::Future).is_retired("a"));
}

#[test]
fn sweep_removes_files_without_a_time() {
    assert!(file("/s/liba-1.so", Modified::Unknown).is_retired("a"));
}

#[test]
fn sweep_goes_by_the_file_name_alone() {
    assert!(!file("/my_app/libother.so", a_minute_old()).is_retired("my-app"));
    assert!(!file("/", a_minute_old()).is_retired("my-app"));
    assert!(!file("/s/libmy-app-1.so", a_minute_old()).is_retired("my-app"));
    assert!(file("/s/libmy_app_two-1.so", a_minute_old()).is_retired("my-app"));
}

#[test]
fn sweep_of_nothing_removes_nothing() {
    assert!(sweep_staging("a", &Vec::new()).is_empty());
}

#[test]
fn second_sweep_removes_nothing() {
    let files = vec![
        file("/s/libb-1.so", a_minute_old()),
        file("/s/liba-2.so", Modified::Future),
    ];
    assert!(sweep_staging("a", &files).is_empty());
}

#[test]
fn retirement_by_name_and_age() {
    let name = Some("liba_b-7.so".to_string());
    assert!(is_retired_file("a-b", &name, Some(2)));
    assert!(!is_retired_file("a-b", &name, Some(1)));
    assert!(!is_retired_file("a-b", &name, Some(0)));
    assert!(is_retired_file("a-b", &name, None));
    assert!(!is_retired_file("a-b", &None, None));
    assert!(!is_retired_file("c", &name, None));
}

#[test]
fn sweep_finds_what_was_staged() {
    for package in ["my-app", "a", "a_b-c", "x9"] {
        let path = staged_dylib_path(
            &PathBuf::from("/ws"),
            package,
            Platform::Other,
            "67e55044-10b1-426f-9247-bb680e5fe0c8",
        );
        let aged = |millis: u64| StagedFile {
            path: path.clone(),
            modified: Modified::Ago(Duration::from_millis(millis)),
        };
        assert!(!aged(1999).is_retired(package));
        assert!(aged(2000).is_retired(package));
    }
}

#[test]
fn sweep_leaves_the_built_dylib() {
    let root = PathBuf::from("/ws");
    let path = staged_dylib_path(&root, "a", Platform::Other, "1");
    let files = vec![StagedFile { path: path.clone(), modified: a_minute_old() }];
    let removed = sweep_staging("a", &files);
    assert_eq!(removed, vec![path]);
    assert!(!removed.contains(&dylib_path(&root, "a", Platform::Other)));
}
