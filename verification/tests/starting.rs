use axum_hotreload::rebuild::{CargoOutput, Generation, RebuildReport, RebuildTask};
use axum_hotreload::startup::{Started, Startup, StartupReport, StartupStep, StartupTask};
use axum_hotreload::{status_handler, HotReload, HotReloadBuilder, HotReloadError, Platform};
use std::path::PathBuf;
use std::time::Duration;

fn builder() -> HotReloadBuilder<u32> {
    HotReload::<u32>::builder()
        .package("my-app".to_string())
        .state(7)
}

fn running(step: StartupStep<u32>) -> Startup<u32> {
    match step {
        StartupStep::Running(next) => next,
        StartupStep::Done(_) => panic!("the startup should go on"),
    }
}

fn started(step: StartupStep<u32>) -> Started<u32> {
    match step {
        StartupStep::Done(Ok(started)) => started,
        _ => panic!("the reloader should be up"),
    }
}

fn failed(step: StartupStep<u32>) -> HotReloadError {
    match step {
        StartupStep::Done(Err(e)) => e,
        _ => panic!("the startup should fail"),
    }
}

fn probed(startup: &Startup<u32>) -> PathBuf {
    match startup.task() {
        StartupTask::ProbeDir(dir) => dir,
        _ => panic!("a directory should be probed"),
    }
}

fn cargo(startup: &Startup<u32>) -> axum_hotreload::rebuild::CargoCommand {
    match startup.task() {
        StartupTask::Rebuild(RebuildTask::RunCargo(command)) => command,
        _ => panic!("cargo should be run"),
    }
}

fn generation() -> Generation {
    Generation {
        router: axum::Router::new(),
        lib: libloading::os::unix::Library::this().into(),
    }
}

/// Drives the first build to its last report and hands that in.
fn build_first(mut startup: Startup<u32>) -> StartupStep<u32> {
    let reports = vec![
        RebuildReport::CargoRan(Ok(CargoOutput {
            success: true,
            stderr: Vec::new(),
        })),
        RebuildReport::DylibExists(true),
        RebuildReport::DirCreated(Ok(())),
        RebuildReport::Copied(Ok(())),
    ];
    for report in reports {
        startup = running(startup.step(StartupReport::Rebuild(report)));
    }
    assert_eq!(startup.state_for_load(), Some(7));
    startup.step(StartupReport::Rebuild(RebuildReport::Loaded(Ok(generation()))))
}

fn watched(startup: &Startup<u32>) -> PathBuf {
    match startup.task() {
        StartupTask::Watch(dir) => dir,
        _ => panic!("a directory should be watched"),
    }
}

#[test]
fn missing_settings_are_named_in_order() {
    let empty = HotReload::<u32>::builder();
    assert_eq!(empty.missing(), Some("HotReloadBuilder::package is required"));
    let named = HotReload::<u32>::builder().package("a".to_string());
    assert_eq!(named.missing(), Some("HotReloadBuilder::state is required"));
    let stated = HotReload::<u32>::builder().state(1);
    assert_eq!(stated.missing(), Some("HotReloadBuilder::package is required"));
    assert_eq!(builder().missing(), None);
}

#[test]
fn workspace_root_defaults_to_the_current_directory() {
    let startup = builder().watch_dir(PathBuf::from("/w")).build(Platform::Other);
    assert!(matches!(startup.task(), StartupTask::CurrentDir));
    let startup = running(startup.step(StartupReport::CurrentDir(PathBuf::from("/cwd"))));
    let command = cargo(&startup);
    assert_eq!(command.current_dir, PathBuf::from("/cwd"));
    assert_eq!(command.program, PathBuf::from("cargo"));
    assert_eq!(command.args, vec!["build", "-p", "my-app", "--lib"]);
}

#[test]
fn settings_reach_the_command() {
    let startup = builder()
        .workspace_root(PathBuf::from("/a"))
        .workspace_root(PathBuf::from("/b"))
        .cargo(PathBuf::from("cargo-zigbuild"))
        .package("other".to_string())
        .watch_dir(PathBuf::from("/w"))
        .build(Platform::Other);
    let command = cargo(&startup);
    assert_eq!(command.current_dir, PathBuf::from("/b"));
    assert_eq!(command.program, PathBuf::from("cargo-zigbuild"));
    assert_eq!(command.args[2], "other");
}

#[test]
fn package_directory_is_watched_where_it_exists() {
    let startup = builder().workspace_root(PathBuf::from("/ws")).build(Platform::Other);
    assert_eq!(probed(&startup), PathBuf::from("/ws/my-app/src"));
    let startup = running(startup.step(StartupReport::IsDir(true)));
    let startup = running(build_first(startup));
    assert!(matches!(startup.task(), StartupTask::CreateWatcher));
    let startup = running(startup.step(StartupReport::WatcherCreated(Ok(()))));
    assert_eq!(watched(&startup), PathBuf::from("/ws/my-app/src"));
    let up = started(startup.step(StartupReport::Watched(Ok(()))));
    assert_eq!(up.debounce, Some(Duration::from_millis(250)));
}

#[test]
fn workspace_source_is_watched_where_only_that_exists() {
    let startup = builder().workspace_root(PathBuf::from("/ws")).build(Platform::Other);
    let startup = running(startup.step(StartupReport::IsDir(false)));
    assert_eq!(probed(&startup), PathBuf::from("/ws/src"));
    let startup = running(startup.step(StartupReport::IsDir(true)));
    let startup = running(build_first(startup));
    let startup = running(startup.step(StartupReport::WatcherCreated(Ok(()))));
    assert_eq!(watched(&startup), PathBuf::from("/ws/src"));
}

#[test]
fn conventional_directory_is_watched_where_neither_exists() {
    let startup = builder().workspace_root(PathBuf::from("/ws")).build(Platform::Other);
    let startup = running(startup.step(StartupReport::IsDir(false)));
    let startup = running(startup.step(StartupReport::IsDir(false)));
    let startup = running(build_first(startup));
    let startup = running(startup.step(StartupReport::WatcherCreated(Ok(()))));
    assert_eq!(watched(&startup), PathBuf::from("/ws/my-app/src"));
    let e = failed(startup.step(StartupReport::Watched(Err(notify::Error::path_not_found()))));
    assert_eq!(e.message(), "watcher error: No path was found.");
}

#[test]
fn every_directory_is_watched_in_order() {
    let startup = builder()
        .workspace_root(PathBuf::from("/ws"))
        .watch_dir(PathBuf::from("/a"))
        .watch_dir(PathBuf::from("/b"))
        .debounce(Duration::from_secs(3))
        .build(Platform::Other);
    let startup = running(build_first(startup));
    let startup = running(startup.step(StartupReport::WatcherCreated(Ok(()))));
    assert_eq!(watched(&startup), PathBuf::from("/a"));
    let startup = running(startup.step(StartupReport::Watched(Ok(()))));
    assert_eq!(watched(&startup), PathBuf::from("/b"));
    let up = started(startup.step(StartupReport::Watched(Ok(()))));
    assert_eq!(up.debounce, Some(Duration::from_secs(3)));
}

#[test]
fn without_watcher_nothing_is_watched() {
    let startup = builder()
        .workspace_root(PathBuf::from("/ws"))
        .watch_dir(PathBuf::from("/a"))
        .without_watcher()
        .build(Platform::Other);
    let up = started(build_first(startup));
    assert_eq!(up.debounce, None);
    assert_eq!(up.hot.status().generation, 1);
    assert!(up.hot.status().last_success.is_some());
    assert_eq!(up.hot.status().last_error, None);
    assert_eq!(up.hot.service().state_for_load(), 7);
    assert_eq!(up.hot.service().config().workspace_root, PathBuf::from("/ws"));
    let page = status_handler(&up.hot);
    assert!(page.starts_with("generation: 1\nlast_success_ago: Some("));
    assert!(page.ends_with("s)\nlast_error: <none>\n"));
    let (live, _layer) = up.hot.into_parts();
    assert_eq!(live.status().generation, 1);
}

#[test]
fn failed_first_build_ends_the_startup() {
    let startup = builder()
        .workspace_root(PathBuf::from("/ws"))
        .watch_dir(PathBuf::from("/a"))
        .build(Platform::Other);
    assert_eq!(cargo(&startup).args[0], "build");
    let output = CargoOutput {
        success: false,
        stderr: b"E0425".to_vec(),
    };
    let e = failed(startup.step(StartupReport::Rebuild(RebuildReport::CargoRan(Ok(output)))));
    assert_eq!(e.message(), "cargo build failed:\nE0425");
}

#[test]
fn failed_watcher_ends_the_startup() {
    let startup = builder()
        .workspace_root(PathBuf::from("/ws"))
        .watch_dir(PathBuf::from("/a"))
        .build(Platform::Other);
    let startup = running(build_first(startup));
    assert_eq!(startup.state_for_load(), None);
    let e = notify::Error::generic("no inotify");
    let e = failed(startup.step(StartupReport::WatcherCreated(Err(e))));
    assert_eq!(e.message(), "watcher error: no inotify");
}

#[test]
fn the_layer_tells_its_own_browsers() {
    let startup = builder()
        .workspace_root(PathBuf::from("/ws"))
        .watch_dir(PathBuf::from("/a"))
        .without_watcher()
        .build(Platform::Other);
    let (mut live, _layer) = started(build_first(startup)).hot.into_parts();
    let step = live.success_step(std::time::Instant::now());
    assert!(matches!(
        step,
        axum_hotreload::live::ReloadStep::Running(axum_hotreload::live::Reload::Pinging)
    ));
}

#[test]
fn reports_on_something_else_leave_the_startup_where_it_is() {
    let startup = builder().build(Platform::Other);
    let startup = running(startup.step(StartupReport::IsDir(true)));
    assert!(matches!(startup.task(), StartupTask::CurrentDir));
    let startup = running(startup.step(StartupReport::WatcherCreated(Ok(()))));
    assert!(matches!(startup.task(), StartupTask::CurrentDir));
}
