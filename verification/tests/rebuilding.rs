use axum_hotreload::rebuild::{
    CargoOutput, Generation, LoadError, Progress, RebuildReport, RebuildTask, ReloadConfig, Stage,
};
use axum_hotreload::{HotReloadError, Platform, BUILD_ROUTER_SYMBOL};
use std::path::PathBuf;

fn config() -> ReloadConfig {
    ReloadConfig {
        package: "my-app".to_string(),
        workspace_root: PathBuf::from("/ws"),
        cargo: PathBuf::from("cargo-zigbuild"),
        platform: Platform::Other,
    }
}

fn generation() -> Generation {
    Generation {
        router: axum::Router::new(),
        lib: libloading::os::unix::Library::this().into(),
    }
}

fn io_error() -> std::io::Error {
    std::io::Error::new(std::io::ErrorKind::Other, "boom")
}

fn fail(stage: Stage, report: RebuildReport) -> HotReloadError {
    match stage.advance_with(&config(), report, "s") {
        Progress::Failed(e) => e,
        _ => panic!("the step should fail"),
    }
}

#[test]
fn build_symbol_is_the_documented_one() {
    assert_eq!(BUILD_ROUTER_SYMBOL, "axum_hotreload_build_router");
}

#[test]
fn cargo_command_builds_the_library_of_the_package() {
    let command = config().cargo_command();
    assert_eq!(command.program, PathBuf::from("cargo-zigbuild"));
    assert_eq!(command.args, vec!["build", "-p", "my-app", "--lib"]);
    assert_eq!(command.current_dir, PathBuf::from("/ws"));
}

#[test]
fn stages_name_their_tasks() {
    let built = PathBuf::from("/ws/target/debug/libmy_app.so");
    assert!(matches!(
        Stage::Build.task(&config()),
        RebuildTask::RunCargo(command) if command.args[2] == "my-app"
    ));
    assert!(matches!(Stage::Locate.task(&config()), RebuildTask::LookFor(p) if p == built));
    assert!(matches!(
        Stage::Prepare.task(&config()),
        RebuildTask::CreateDir(p) if p == PathBuf::from("/ws/target/axum-hotreload")
    ));
    let to = PathBuf::from("/x");
    assert!(matches!(
        Stage::Copy(to.clone()).task(&config()),
        RebuildTask::Copy { from, to: t } if from == built && t == to
    ));
    assert!(matches!(
        Stage::Load(to.clone()).task(&config()),
        RebuildTask::Load(p) if p == to
    ));
}

#[test]
fn successful_steps_lead_to_a_generation() {
    let config = config();
    let output = CargoOutput {
        success: true,
        stderr: b"warning".to_vec(),
    };
    let next = Stage::Build.advance_with(&config, RebuildReport::CargoRan(Ok(output)), "s");
    assert!(matches!(next, Progress::Next(Stage::Locate)));
    let next = Stage::Locate.advance_with(&config, RebuildReport::DylibExists(true), "s");
    assert!(matches!(next, Progress::Next(Stage::Prepare)));
    let staged = PathBuf::from("/ws/target/axum-hotreload/libmy_app-s.so");
    let next = Stage::Prepare.advance_with(&config, RebuildReport::DirCreated(Ok(())), "s");
    assert!(matches!(next, Progress::Next(Stage::Copy(p)) if p == staged));
    let next =
        Stage::Copy(staged.clone()).advance_with(&config, RebuildReport::Copied(Ok(())), "s");
    assert!(matches!(next, Progress::Next(Stage::Load(p)) if p == staged));
    let report = RebuildReport::Loaded(Ok(generation()));
    let next = Stage::Load(staged).advance_with(&config, report, "s");
    assert!(matches!(next, Progress::Loaded(_)));
}

#[test]
fn failed_build_carries_stderr() {
    let output = CargoOutput {
        success: false,
        stderr: "error: käse".as_bytes().to_vec(),
    };
    assert!(matches!(
        fail(Stage::Build, RebuildReport::CargoRan(Ok(output))),
        HotReloadError::Build(s) if s == "error: käse"
    ));
}

#[test]
fn stderr_that_is_not_utf8_is_replaced() {
    let output = CargoOutput {
        success: false,
        stderr: vec![b'a', 0xff, b'b'],
    };
    assert!(matches!(
        fail(Stage::Build, RebuildReport::CargoRan(Ok(output))),
        HotReloadError::Build(s) if s == "a\u{fffd}b"
    ));
}

#[test]
fn each_failed_step_has_its_error() {
    assert!(matches!(
        fail(Stage::Build, RebuildReport::CargoRan(Err(io_error()))),
        HotReloadError::Io(_)
    ));
    assert!(matches!(
        fail(Stage::Locate, RebuildReport::DylibExists(false)),
        HotReloadError::DylibMissing(p) if p == PathBuf::from("/ws/target/debug/libmy_app.so")
    ));
    assert!(matches!(
        fail(Stage::Prepare, RebuildReport::DirCreated(Err(io_error()))),
        HotReloadError::Io(_)
    ));
    assert!(matches!(
        fail(Stage::Copy(PathBuf::new()), RebuildReport::Copied(Err(io_error()))),
        HotReloadError::Io(_)
    ));
    let load = |e: LoadError| fail(Stage::Load(PathBuf::new()), RebuildReport::Loaded(Err(e)));
    assert!(matches!(
        load(LoadError::Dlopen(libloading::Error::DlOpenUnknown)),
        HotReloadError::Dlopen(_)
    ));
    assert!(matches!(
        load(LoadError::SymbolMissing),
        HotReloadError::SymbolMissing(s) if s == "axum_hotreload_build_router"
    ));
    assert!(matches!(
        load(LoadError::RouterPanicked),
        HotReloadError::BuildRouterPanic
    ));
}

#[test]
fn report_on_another_stage_leaves_the_rebuild_where_it_is() {
    let progress = Stage::Locate.advance_with(&config(), RebuildReport::Copied(Ok(())), "x");
    assert!(matches!(progress, Progress::Next(Stage::Locate)));
    let progress = Stage::Build.advance_with(&config(), RebuildReport::DylibExists(false), "x");
    assert!(matches!(progress, Progress::Next(Stage::Build)));
}
