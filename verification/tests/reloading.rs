use axum_hotreload::artifact::{Modified, StagedFile};
use axum_hotreload::live::{Reload, ReloadReport, ReloadStep, ReloadTask};
use axum_hotreload::rebuild::{
    CargoOutput, Generation, LoadError, Progress, RebuildReport, RebuildTask, ReloadConfig, Stage,
};
use axum_hotreload::{HotReloadError, LiveService, Platform};
use std::path::PathBuf;
use std::sync::Arc;
use std::time::{Duration, Instant};

fn generation(with_route: bool) -> Generation {
    let router = axum::Router::new();
    let router = if with_route {
        router.route("/", axum::routing::get(hello))
    } else {
        router
    };
    Generation {
        router,
        lib: libloading::os::unix::Library::this().into(),
    }
}

async fn hello() -> &'static str {
    "hello"
}

fn live(browsers: bool, now: Instant) -> LiveService<String> {
    let config = ReloadConfig {
        package: "my-app".to_string(),
        workspace_root: PathBuf::from("/ws"),
        cargo: PathBuf::from("cargo"),
        platform: Platform::Other,
    };
    let reloader = if browsers {
        Some(tower_livereload::Reloader::new())
    } else {
        None
    };
    LiveService::bootstrap("state".to_string(), config, reloader, generation(false), now)
}

fn rebuild_reports(load: Result<Generation, LoadError>) -> Vec<RebuildReport> {
    vec![
        RebuildReport::CargoRan(Ok(CargoOutput {
            success: true,
            stderr: Vec::new(),
        })),
        RebuildReport::DylibExists(true),
        RebuildReport::DirCreated(Ok(())),
        RebuildReport::Copied(Ok(())),
        RebuildReport::Loaded(load),
    ]
}

fn running(step: ReloadStep) -> Reload {
    match step {
        ReloadStep::Running(next) => next,
        ReloadStep::Done(_) => panic!("the reload should go on"),
    }
}

fn failed(step: ReloadStep) -> HotReloadError {
    match step {
        ReloadStep::Done(Err(e)) => e,
        _ => panic!("the reload should fail"),
    }
}

#[test]
fn bootstrap_is_the_first_generation() {
    let now = Instant::now();
    let status = live(true, now).status();
    assert_eq!(status.generation, 1);
    assert_eq!(status.last_success, Some(now));
    assert_eq!(status.last_error, None);
}

#[test]
fn status_clone_says_the_same() {
    let mut live = live(false, Instant::now());
    let _ = live.progress_step(Progress::Failed(HotReloadError::BuildRouterPanic), "");
    let status = live.status();
    let copy = status.clone();
    assert_eq!(copy.generation, status.generation);
    assert_eq!(copy.last_success, status.last_success);
    assert_eq!(copy.last_error, status.last_error);
}

#[test]
fn successful_reload_swaps_and_counts() {
    let mut live = live(true, Instant::now());
    let before = live.status();
    let early = live.call();
    assert!(!early.router.has_routes());

    let mut reload = live.begin_reload();
    for report in rebuild_reports(Ok(generation(true))) {
        assert!(matches!(live.reload_task(&reload), ReloadTask::Rebuild(_)));
        reload = running(live.reload_step(reload, ReloadReport::Rebuild(report)));
    }
    // The new generation serves at once; the success is on record only after the sweep.
    assert!(live.call().router.has_routes());
    assert_eq!(live.status().generation, 1);

    assert!(matches!(
        live.reload_task(&reload),
        ReloadTask::ListStaging(dir) if dir == PathBuf::from("/ws/target/axum-hotreload")
    ));
    let listing = vec![
        StagedFile {
            path: PathBuf::from("/ws/target/axum-hotreload/libmy_app-old.so"),
            modified: Modified::Ago(Duration::from_secs(9)),
        },
        StagedFile {
            path: PathBuf::from("/ws/target/axum-hotreload/libmy_app-new.so"),
            modified: Modified::Ago(Duration::from_secs(0)),
        },
    ];
    reload = running(live.reload_step(reload, ReloadReport::Listed(Some(listing))));
    assert!(matches!(
        live.reload_task(&reload),
        ReloadTask::Remove(paths)
            if paths == vec![PathBuf::from("/ws/target/axum-hotreload/libmy_app-old.so")]
    ));
    reload = running(live.reload_step(reload, ReloadReport::Removed));
    let after = live.status();
    assert_eq!(after.generation, 2);
    assert!(after.last_success >= before.last_success);
    assert_eq!(after.last_error, None);

    assert!(matches!(live.reload_task(&reload), ReloadTask::PingBrowsers));
    live.ping_browsers();
    assert!(matches!(
        live.reload_step(reload, ReloadReport::Pinged),
        ReloadStep::Done(Ok(()))
    ));

    // The early request still holds the old generation.
    let late = live.call();
    assert!(!early.router.has_routes());
    assert!(!early.generation.router.has_routes());
    assert!(late.generation.router.has_routes());
    assert!(!Arc::ptr_eq(&early.generation, &late.generation));
    assert_eq!(Arc::strong_count(&early.generation), 1);
}

#[test]
fn requests_share_the_current_generation() {
    let live = live(false, Instant::now());
    assert!(Arc::ptr_eq(&live.call().generation, &live.call().generation));
}

#[test]
fn reload_without_browsers_ends_after_the_sweep() {
    let mut live = live(false, Instant::now());
    let mut reload = live.begin_reload();
    for report in rebuild_reports(Ok(generation(true))) {
        reload = running(live.reload_step(reload, ReloadReport::Rebuild(report)));
    }
    reload = running(live.reload_step(reload, ReloadReport::Listed(None)));
    assert!(matches!(
        live.reload_task(&reload),
        ReloadTask::Remove(paths) if paths.is_empty()
    ));
    assert!(matches!(
        live.reload_step(reload, ReloadReport::Removed),
        ReloadStep::Done(Ok(()))
    ));
    live.ping_browsers();
    assert_eq!(live.status().generation, 2);
}

#[test]
fn failed_reload_changes_only_the_last_error() {
    let now = Instant::now();
    let mut live = live(true, now);
    let old = live.call();
    let mut reload = live.begin_reload();
    let mut reports = rebuild_reports(Err(LoadError::SymbolMissing));
    let last = reports.pop();
    for report in reports {
        reload = running(live.reload_step(reload, ReloadReport::Rebuild(report)));
    }
    let report = ReloadReport::Rebuild(last.unwrap());
    let e = failed(live.reload_step(reload, report));
    assert!(matches!(e, HotReloadError::SymbolMissing(_)));
    let status = live.status();
    assert_eq!(status.generation, 1);
    assert_eq!(status.last_success, Some(now));
    assert_eq!(
        status.last_error.as_deref(),
        Some("required symbol `axum_hotreload_build_router` missing from handlers dylib")
    );
    assert!(Arc::ptr_eq(&old.generation, &live.call().generation));
}

#[test]
fn failures_are_recorded_with_their_message() {
    let mut live = live(true, Instant::now());
    let io = std::io::Error::new(std::io::ErrorKind::Other, "no cargo here");
    let reload = live.begin_reload();
    let report = ReloadReport::Rebuild(RebuildReport::CargoRan(Err(io)));
    let e = failed(live.reload_step(reload, report));
    assert!(matches!(e, HotReloadError::Io(_)));
    assert_eq!(
        live.status().last_error.as_deref(),
        Some("io error: no cargo here")
    );

    let output = CargoOutput {
        success: false,
        stderr: b"E0308".to_vec(),
    };
    let reload = live.begin_reload();
    let report = ReloadReport::Rebuild(RebuildReport::CargoRan(Ok(output)));
    let e = failed(live.reload_step(reload, report));
    assert!(matches!(e, HotReloadError::Build(_)));
    assert_eq!(
        live.status().last_error.as_deref(),
        Some("cargo build failed:\nE0308")
    );

    let report = ReloadReport::Rebuild(RebuildReport::DylibExists(false));
    let e = failed(live.reload_step(Reload::Rebuilding(Stage::Locate), report));
    assert!(matches!(e, HotReloadError::DylibMissing(_)));
    assert_eq!(
        live.status().last_error.as_deref(),
        Some("dylib not found at /ws/target/debug/libmy_app.so")
    );
}

#[test]
fn success_clears_the_last_error() {
    let mut live = live(false, Instant::now());
    let _ = live.progress_step(Progress::Failed(HotReloadError::BuildRouterPanic), "");
    assert!(live.status().last_error.is_some());
    let now = Instant::now();
    assert!(matches!(live.success_step(now), ReloadStep::Done(Ok(()))));
    let status = live.status();
    assert_eq!(status.last_error, None);
    assert_eq!(status.last_success, Some(now));
    assert_eq!(status.generation, 2);
}

#[test]
fn staged_copies_get_fresh_random_names() {
    let mut live = live(false, Instant::now());
    let mut names: Vec<String> = Vec::new();
    for _ in 0..2 {
        let report = ReloadReport::Rebuild(RebuildReport::DirCreated(Ok(())));
        let reload = running(live.reload_step(Reload::Rebuilding(Stage::Prepare), report));
        let to = match live.reload_task(&reload) {
            ReloadTask::Rebuild(RebuildTask::Copy { from, to }) => {
                assert_eq!(from, PathBuf::from("/ws/target/debug/libmy_app.so"));
                to
            }
            _ => panic!("a copy comes next"),
        };
        assert_eq!(to.parent(), Some(PathBuf::from("/ws/target/axum-hotreload").as_path()));
        names.push(to.file_name().unwrap().to_str().unwrap().to_string());
    }
    assert_ne!(names[0], names[1]);
    for name in &names {
        let suffix = name
            .strip_prefix("libmy_app-")
            .and_then(|rest| rest.strip_suffix(".so"))
            .unwrap();
        let chars: Vec<char> = suffix.chars().collect();
        assert_eq!(chars.len(), 36);
        for (i, c) in chars.iter().enumerate() {
            if [8, 13, 18, 23].contains(&i) {
                assert_eq!(*c, '-');
            } else {
                assert!(c.is_ascii_digit() || ('a'..='f').contains(c));
            }
        }
        assert_eq!(chars[14], '4');
        assert!(['8', '9', 'a', 'b'].contains(&chars[19]));
    }
}

#[test]
fn host_state_is_handed_to_every_load() {
    let mut live = live(false, Instant::now());
    assert_eq!(live.state_for_load(), "state");
    let _ = live.progress_step(Progress::Loaded(generation(true)), "");
    assert_eq!(live.state_for_load(), "state");
    assert_eq!(live.config().package, "my-app");
}

#[test]
fn reports_on_something_else_change_nothing() {
    let now = Instant::now();
    let mut service = live(true, now);
    let begun = service.begin_reload();
    let reload = running(service.reload_step(begun, ReloadReport::Removed));
    assert!(matches!(reload, Reload::Rebuilding(Stage::Build)));
    let loaded = ReloadReport::Rebuild(RebuildReport::Loaded(Ok(generation(true))));
    let reload = running(service.reload_step(reload, loaded));
    assert!(matches!(reload, Reload::Rebuilding(Stage::Build)));
    let reload = running(service.reload_step(Reload::Sweeping, ReloadReport::Pinged));
    assert!(matches!(reload, Reload::Sweeping));
    let status = service.status();
    assert_eq!(status.generation, 1);
    assert_eq!(status.last_success, Some(now));
    assert_eq!(status.last_error, None);
}

#[test]
fn success_is_recorded_at_its_own_time() {
    let past = Instant::now();
    let mut service = live(false, past);
    let before = Instant::now();
    service.reload_step(Reload::Removing(Vec::new()), ReloadReport::Removed);
    let last = service.status().last_success.unwrap();
    assert!(before <= last && last <= Instant::now());
}

#[test]
fn browsers_are_told_through_the_handle_that_was_given() {
    assert!(live(false, Instant::now()).browser_reloader().is_none());
    let service = live(true, Instant::now());
    assert!(service.browser_reloader().is_some());
    service.ping_browsers();
}
