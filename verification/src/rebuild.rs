//! Rebuilding the handlers dylib and loading a fresh copy of it, one step at a time.
//!
//! The decisions are taken here; running cargo, touching files and opening the dylib are left to
//! the driver. The driver performs the task of the current [`Stage`], reports what came of it, and
//! goes on until the rebuild has a [`Generation`] or an error.

use crate::artifact::{
    built_dylib_path, built_path, draw_suffix, is_fresh_suffix, is_staged_copy, is_uuid_v4,
    law_staged_name_is_a_single_component, law_staged_names_are_unique, staged_dylib_path,
    staged_path, staging_dir, staging_path, Platform,
};
use crate::error::{ErrorView, HotReloadError};
use crate::paths::has_no_separator;
use crate::text::{from_utf8_lossy, law_lossy_text, lossy_text, lossy_utf8};
use crate::BUILD_ROUTER_SYMBOL;
use std::path::PathBuf;
use vstd::prelude::*;
use vstd::utf8::{encode_utf8, valid_utf8};

verus! {

/// `axum::Router`, carried as it came.
#[verifier::external_type_specification]
#[verifier::external_body]
#[verifier::reject_recursive_types(S)]
pub struct ExRouter<S>(axum::Router<S>);

/// `libloading::Library`, carried as it came.
#[verifier::external_type_specification]
#[verifier::external_body]
pub struct ExLibrary(libloading::Library);

/// A loaded handlers dylib together with the router that it produced.
pub struct Generation {
    pub router: axum::Router<()>,
    pub lib: libloading::Library,
}

/// What is rebuilt, where, and with which cargo.
pub struct ReloadConfig {
    pub package: String,
    pub workspace_root: PathBuf,
    pub cargo: PathBuf,
    pub platform: Platform,
}

/// What a [`ReloadConfig`] says.
#[verifier::ext_equal]
pub struct ConfigView {
    pub package: Seq<char>,
    pub workspace_root: PathBuf,
    pub cargo: PathBuf,
    pub platform: Platform,
}

impl View for ReloadConfig {
    type V = ConfigView;

    open spec fn view(&self) -> ConfigView {
        ConfigView {
            package: self.package@,
            workspace_root: self.workspace_root,
            cargo: self.cargo,
            platform: self.platform,
        }
    }
}

/// A command line to run.
pub struct CargoCommand {
    pub program: PathBuf,
    pub args: Vec<String>,
    pub current_dir: PathBuf,
}

/// What a [`CargoCommand`] says.
#[verifier::ext_equal]
pub struct CargoCommandView {
    pub program: PathBuf,
    pub args: Seq<Seq<char>>,
    pub current_dir: PathBuf,
}

impl View for CargoCommand {
    type V = CargoCommandView;

    open spec fn view(&self) -> CargoCommandView {
        CargoCommandView {
            program: self.program,
            args: self.args@.map_values(|arg: String| arg@),
            current_dir: self.current_dir,
        }
    }
}

/// How a run of cargo ended.
pub struct CargoOutput {
    pub success: bool,
    pub stderr: Vec<u8>,
}

/// Why a staged dylib did not yield a generation.
pub enum LoadError {
    /// It could not be opened.
    Dlopen(libloading::Error),
    /// It does not export [`BUILD_ROUTER_SYMBOL`].
    SymbolMissing,
    /// The exported function panicked.
    RouterPanicked,
}

/// The steps of a rebuild.
pub enum Stage {
    /// Run cargo.
    Build,
    /// Look for the dylib that cargo built.
    Locate,
    /// Create the staging directory.
    Prepare,
    /// Copy the dylib to this place.
    Copy(PathBuf),
    /// Load the dylib from this place.
    Load(PathBuf),
}

/// What is to be done at a [`Stage`].
pub enum RebuildTask {
    /// Run this command and wait for its end.
    RunCargo(CargoCommand),
    /// See whether this file exists.
    LookFor(PathBuf),
    /// Create this directory, and those above it that are missing.
    CreateDir(PathBuf),
    /// Copy the file.
    Copy { from: PathBuf, to: PathBuf },
    /// Open this dylib and call the function that it exports as [`BUILD_ROUTER_SYMBOL`].
    Load(PathBuf),
}

/// What a [`RebuildTask`] says.
#[verifier::ext_equal]
pub enum RebuildTaskView {
    RunCargo(CargoCommandView),
    LookFor(PathBuf),
    CreateDir(PathBuf),
    Copy { from: PathBuf, to: PathBuf },
    Load(PathBuf),
}

impl View for RebuildTask {
    type V = RebuildTaskView;

    open spec fn view(&self) -> RebuildTaskView {
        match *self {
            RebuildTask::RunCargo(command) => RebuildTaskView::RunCargo(command@),
            RebuildTask::LookFor(path) => RebuildTaskView::LookFor(path),
            RebuildTask::CreateDir(path) => RebuildTaskView::CreateDir(path),
            RebuildTask::Copy { from, to } => RebuildTaskView::Copy { from, to },
            RebuildTask::Load(path) => RebuildTaskView::Load(path),
        }
    }
}

/// What came of a [`RebuildTask`].
pub enum RebuildReport {
    /// Cargo ran to its end, or could not be run.
    CargoRan(Result<CargoOutput, std::io::Error>),
    /// Whether the dylib exists.
    DylibExists(bool),
    DirCreated(Result<(), std::io::Error>),
    Copied(Result<(), std::io::Error>),
    Loaded(Result<Generation, LoadError>),
}

/// How a rebuild goes on after a report.
pub enum Progress {
    /// With this stage.
    Next(Stage),
    /// It is over, and this is the new generation.
    Loaded(Generation),
    /// It is over without a new generation.
    Failed(HotReloadError),
}

/// What a [`Progress`] says.
#[verifier::ext_equal]
pub enum ProgressView {
    Next(Stage),
    Loaded(Generation),
    Failed(ErrorView),
}

impl View for Progress {
    type V = ProgressView;

    open spec fn view(&self) -> ProgressView {
        match *self {
            Progress::Next(stage) => ProgressView::Next(stage),
            Progress::Loaded(generation) => ProgressView::Loaded(generation),
            Progress::Failed(e) => ProgressView::Failed(e@),
        }
    }
}

/// The command that builds the library target of the package, run in the workspace root.
pub open spec fn cargo_build(config: ConfigView) -> CargoCommandView {
    CargoCommandView {
        program: config.cargo,
        args: seq!["build"@, "-p"@, config.package, "--lib"@],
        current_dir: config.workspace_root,
    }
}

impl ConfigView {
    /// The dylib that cargo builds.
    pub open spec fn built(self) -> PathBuf {
        built_path(self.workspace_root, self.package, self.platform)
    }

    /// The copy of it that is staged under the suffix.
    pub open spec fn staged(self, suffix: Seq<char>) -> PathBuf {
        staged_path(self.workspace_root, self.package, self.platform, suffix)
    }

    /// The path is one that was given for a copy under the suffix.
    pub open spec fn has_staged(self, path: PathBuf, suffix: Seq<char>) -> bool {
        is_staged_copy(path, self.workspace_root, self.package, self.platform, suffix)
    }
}

/// What a load error means for the rebuild.
pub open spec fn load_error(e: LoadError) -> ErrorView {
    match e {
        LoadError::Dlopen(e) => ErrorView::Dlopen(e),
        LoadError::SymbolMissing => ErrorView::SymbolMissing(BUILD_ROUTER_SYMBOL@),
        LoadError::RouterPanicked => ErrorView::BuildRouterPanic,
    }
}

impl Stage {
    /// The task of the stage.
    pub open spec fn task_of(self, config: ConfigView) -> RebuildTaskView {
        match self {
            Stage::Build => RebuildTaskView::RunCargo(cargo_build(config)),
            Stage::Locate => RebuildTaskView::LookFor(config.built()),
            Stage::Prepare => RebuildTaskView::CreateDir(staging_path(config.workspace_root)),
            Stage::Copy(to) => RebuildTaskView::Copy { from: config.built(), to },
            Stage::Load(path) => RebuildTaskView::Load(path),
        }
    }

    /// The report speaks of the stage's task.
    pub open spec fn expects(self, report: RebuildReport) -> bool {
        match self {
            Stage::Build => report is CargoRan,
            Stage::Locate => report is DylibExists,
            Stage::Prepare => report is DirCreated,
            Stage::Copy(_) => report is Copied,
            Stage::Load(_) => report is Loaded,
        }
    }

    /// How the rebuild goes on after a report. A copy, where one comes next, is staged under
    /// `suffix`.
    pub open spec fn after(
        self,
        config: ConfigView,
        report: RebuildReport,
        suffix: Seq<char>,
    ) -> ProgressView {
        match (self, report) {
            (Stage::Build, RebuildReport::CargoRan(Ok(output))) => if output.success {
                ProgressView::Next(Stage::Locate)
            } else {
                ProgressView::Failed(ErrorView::Build(lossy_text(output.stderr@)))
            },
            (Stage::Build, RebuildReport::CargoRan(Err(e))) => ProgressView::Failed(
                ErrorView::Io(e),
            ),
            (Stage::Locate, RebuildReport::DylibExists(found)) => if found {
                ProgressView::Next(Stage::Prepare)
            } else {
                ProgressView::Failed(ErrorView::DylibMissing(config.built()))
            },
            (Stage::Prepare, RebuildReport::DirCreated(Ok(_))) => ProgressView::Next(
                Stage::Copy(config.staged(suffix)),
            ),
            (Stage::Prepare, RebuildReport::DirCreated(Err(e))) => ProgressView::Failed(
                ErrorView::Io(e),
            ),
            (Stage::Copy(to), RebuildReport::Copied(Ok(_))) => ProgressView::Next(Stage::Load(to)),
            (Stage::Copy(_), RebuildReport::Copied(Err(e))) => ProgressView::Failed(
                ErrorView::Io(e),
            ),
            (Stage::Load(_), RebuildReport::Loaded(Ok(generation))) => ProgressView::Loaded(
                generation,
            ),
            (Stage::Load(_), RebuildReport::Loaded(Err(e))) => ProgressView::Failed(load_error(e)),
            _ => ProgressView::Next(self),
        }
    }

    /// A copy comes next.
    pub open spec fn copies_next(self, report: RebuildReport) -> bool {
        self is Prepare && report is DirCreated && report->DirCreated_0 is Ok
    }

    /// The suffix of a copy that comes next is one that was drawn for it, and the copy's place is
    /// the one that is given under it.
    pub open spec fn draws(
        self,
        config: ConfigView,
        report: RebuildReport,
        suffix: Seq<char>,
    ) -> bool {
        self.copies_next(report) ==> is_fresh_suffix(suffix) && config.has_staged(
            config.staged(suffix),
            suffix,
        )
    }

    /// What is to be done at this stage.
    pub fn task(&self, config: &ReloadConfig) -> (res: RebuildTask)
        ensures
            res@ == self.task_of(config@),
    {
        match self {
            Stage::Build => RebuildTask::RunCargo(config.cargo_command()),
            Stage::Locate => RebuildTask::LookFor(config.built_dylib()),
            Stage::Prepare => RebuildTask::CreateDir(staging_dir(&config.workspace_root)),
            Stage::Copy(to) => RebuildTask::Copy { from: config.built_dylib(), to: to.clone() },
            Stage::Load(path) => RebuildTask::Load(path.clone()),
        }
    }

    /// Takes the report on the stage's task. A copy, where one comes next, is staged under
    /// `suffix`. A report on something else changes nothing.
    pub fn advance_with(self, config: &ReloadConfig, report: RebuildReport, suffix: &str) -> (res:
        Progress)
        ensures
            res@ == self.after(config@, report, suffix@),
            self.copies_next(report) ==> config@.has_staged(config@.staged(suffix@), suffix@),
    {
        match (self, report) {
            (Stage::Build, RebuildReport::CargoRan(Ok(output))) => if output.success {
                Progress::Next(Stage::Locate)
            } else {
                Progress::Failed(HotReloadError::Build(from_utf8_lossy(&output.stderr)))
            },
            (Stage::Build, RebuildReport::CargoRan(Err(e))) => Progress::Failed(
                HotReloadError::Io(e),
            ),
            (Stage::Locate, RebuildReport::DylibExists(found)) => if found {
                Progress::Next(Stage::Prepare)
            } else {
                Progress::Failed(HotReloadError::DylibMissing(config.built_dylib()))
            },
            (Stage::Prepare, RebuildReport::DirCreated(Ok(_))) => {
                let to = staged_dylib_path(
                    &config.workspace_root,
                    config.package.as_str(),
                    config.platform,
                    suffix,
                );
                Progress::Next(Stage::Copy(to))
            },
            (Stage::Prepare, RebuildReport::DirCreated(Err(e))) => Progress::Failed(
                HotReloadError::Io(e),
            ),
            (Stage::Copy(to), RebuildReport::Copied(Ok(_))) => Progress::Next(Stage::Load(to)),
            (Stage::Copy(_), RebuildReport::Copied(Err(e))) => Progress::Failed(
                HotReloadError::Io(e),
            ),
            (Stage::Load(_), RebuildReport::Loaded(Ok(generation))) => Progress::Loaded(generation),
            (Stage::Load(_), RebuildReport::Loaded(Err(LoadError::Dlopen(e)))) => Progress::Failed(
                HotReloadError::Dlopen(e),
            ),
            (
                Stage::Load(_),
                RebuildReport::Loaded(Err(LoadError::SymbolMissing)),
            ) => Progress::Failed(HotReloadError::SymbolMissing(BUILD_ROUTER_SYMBOL.to_string())),
            (
                Stage::Load(_),
                RebuildReport::Loaded(Err(LoadError::RouterPanicked)),
            ) => Progress::Failed(HotReloadError::BuildRouterPanic),
            (stage, _) => Progress::Next(stage),
        }
    }

    /// A random suffix for the copy that comes next, or nothing where none does.
    pub(crate) fn fresh_suffix(&self, report: &RebuildReport) -> (res: String)
        ensures
            self.copies_next(*report) ==> is_fresh_suffix(res@),
    {
        match (self, report) {
            (Stage::Prepare, RebuildReport::DirCreated(Ok(_))) => draw_suffix(),
            _ => String::new(),
        }
    }
}

impl ReloadConfig {
    /// The command that builds the dylib.
    pub fn cargo_command(&self) -> (res: CargoCommand)
        ensures
            res@ == cargo_build(self@),
    {
        let mut args: Vec<String> = Vec::new();
        args.push("build".to_string());
        args.push("-p".to_string());
        args.push(self.package.clone());
        args.push("--lib".to_string());
        CargoCommand {
            program: self.cargo.clone(),
            args,
            current_dir: self.workspace_root.clone(),
        }
    }

    /// The dylib that cargo builds.
    pub fn built_dylib(&self) -> (res: PathBuf)
        ensures
            res == self@.built(),
    {
        built_dylib_path(&self.workspace_root, self.package.as_str(), self.platform)
    }
}

/// How far the rebuild has come.
pub open spec fn rank(stage: Stage) -> nat {
    match stage {
        Stage::Build => 0,
        Stage::Locate => 1,
        Stage::Prepare => 2,
        Stage::Copy(_) => 3,
        Stage::Load(_) => 4,
    }
}

/// The report tells of a step that failed.
pub open spec fn is_failure(report: RebuildReport) -> bool {
    match report {
        RebuildReport::CargoRan(Ok(output)) => !output.success,
        RebuildReport::CargoRan(Err(_)) => true,
        RebuildReport::DylibExists(found) => !found,
        RebuildReport::DirCreated(done) => done is Err,
        RebuildReport::Copied(done) => done is Err,
        RebuildReport::Loaded(loaded) => loaded is Err,
    }
}

/// A rebuild stops at the first step that fails, and only there; every other step but the last
/// leads to the one behind it, so that a rebuild ends after five reports at most.
pub proof fn law_rebuild_stops_at_the_first_failure(
    config: ConfigView,
    stage: Stage,
    report: RebuildReport,
    suffix: Seq<char>,
)
    requires
        stage.expects(report),
    ensures
        stage.after(config, report, suffix) is Failed <==> is_failure(report),
        stage.after(config, report, suffix) is Loaded <==> stage is Load && !is_failure(report),
        stage.after(config, report, suffix) matches ProgressView::Next(next) ==> rank(next) == rank(
            stage,
        ) + 1,
{
}

/// The command runs the cargo that was set, in the workspace root, and asks it to build the
/// library of the very package that was set.
pub proof fn law_cargo_builds_the_package(config: ReloadConfig, res: CargoCommand)
    requires
        call_ensures(ReloadConfig::cargo_command, (&config,), res),
    ensures
        res.program == config.cargo,
        res.current_dir == config.workspace_root,
        res.args@.len() == 4,
        res.args@[0]@ == "build"@,
        res.args@[1]@ == "-p"@,
        res.args@[2]@ == config.package@,
        res.args@[3]@ == "--lib"@,
{
    assert(res@.args.len() == 4);
    assert(res@.args[0] == res.args@[0]@);
    assert(res@.args[1] == res.args@[1]@);
    assert(res@.args[2] == res.args@[2]@);
    assert(res@.args[3] == res.args@[3]@);
}

/// What each stage asks for: to run the command of the configuration, to look for the dylib where
/// cargo puts it, to create the staging directory, to copy the dylib from where cargo put it to
/// the stage's own place, and to load the dylib at the stage's own place.
pub proof fn law_stages_ask_for_their_tasks(
    stage: Stage,
    config: ReloadConfig,
    package: &str,
    command: CargoCommand,
    built: PathBuf,
    staging: PathBuf,
    res: RebuildTask,
)
    requires
        package@ == config.package@,
        call_ensures(ReloadConfig::cargo_command, (&config,), command),
        call_ensures(
            built_dylib_path,
            (&config.workspace_root, package, config.platform),
            built,
        ),
        call_ensures(staging_dir, (&config.workspace_root,), staging),
        call_ensures(Stage::task, (&stage, &config), res),
    ensures
        match stage {
            Stage::Build => res matches RebuildTask::RunCargo(asked) && asked@ == command@,
            Stage::Locate => res == RebuildTask::LookFor(built),
            Stage::Prepare => res == RebuildTask::CreateDir(staging),
            Stage::Copy(place) => res matches RebuildTask::Copy { from, to } && from == built && to
                == place,
            Stage::Load(place) => res == RebuildTask::Load(place),
        },
{
}

/// What a rebuild makes of a report on its stage's task. It goes on exactly where the task went
/// well: from the build to the look for the dylib, to the staging directory, to the copy, which
/// goes to the place that is given under the suffix, and to the load of the file at that place.
/// Otherwise it ends with an error that holds what was reported: all that a failed build wrote,
/// the path at which there is no dylib, or the error of the system itself.
pub proof fn law_rebuild_follows_its_reports(
    stage: Stage,
    config: ReloadConfig,
    package: &str,
    report: RebuildReport,
    suffix: &str,
    built: PathBuf,
    staged: PathBuf,
    written: Seq<char>,
    res: Progress,
)
    requires
        package@ == config.package@,
        call_ensures(
            built_dylib_path,
            (&config.workspace_root, package, config.platform),
            built,
        ),
        call_ensures(
            staged_dylib_path,
            (&config.workspace_root, package, config.platform, suffix),
            staged,
        ),
        call_ensures(Stage::advance_with, (stage, &config, report, suffix), res),
    ensures
        match (stage, report) {
            (Stage::Build, RebuildReport::CargoRan(Ok(output))) => {
                &&& output.success ==> res == Progress::Next(Stage::Locate)
                &&& !output.success ==> res is Failed && res->Failed_0 is Build
                &&& !output.success && output.stderr@ == encode_utf8(written)
                    ==> res->Failed_0->Build_0@ == written
                &&& !output.success && !valid_utf8(output.stderr@) ==> res->Failed_0->Build_0@
                    == lossy_utf8(output.stderr@)
            },
            (Stage::Build, RebuildReport::CargoRan(Err(e))) => res == Progress::Failed(
                HotReloadError::Io(e),
            ),
            (Stage::Locate, RebuildReport::DylibExists(found)) => {
                &&& found ==> res == Progress::Next(Stage::Prepare)
                &&& !found ==> res == Progress::Failed(HotReloadError::DylibMissing(built))
            },
            (Stage::Prepare, RebuildReport::DirCreated(Ok(_))) => res == Progress::Next(
                Stage::Copy(staged),
            ),
            (Stage::Prepare, RebuildReport::DirCreated(Err(e))) => res == Progress::Failed(
                HotReloadError::Io(e),
            ),
            (Stage::Copy(place), RebuildReport::Copied(Ok(_))) => res == Progress::Next(
                Stage::Load(place),
            ),
            (Stage::Copy(_), RebuildReport::Copied(Err(e))) => res == Progress::Failed(
                HotReloadError::Io(e),
            ),
            (Stage::Load(_), RebuildReport::Loaded(Ok(generation))) => res == Progress::Loaded(
                generation,
            ),
            (Stage::Load(_), RebuildReport::Loaded(Err(LoadError::Dlopen(e)))) => res
                == Progress::Failed(HotReloadError::Dlopen(e)),
            (Stage::Load(_), RebuildReport::Loaded(Err(LoadError::SymbolMissing))) => {
                &&& res is Failed && res->Failed_0 is SymbolMissing
                &&& res->Failed_0->SymbolMissing_0@ == "axum_hotreload_build_router"@
            },
            (Stage::Load(_), RebuildReport::Loaded(Err(LoadError::RouterPanicked))) => res
                == Progress::Failed(HotReloadError::BuildRouterPanic),
            _ => res == Progress::Next(stage),
        },
{
    if let RebuildReport::CargoRan(Ok(output)) = report {
        law_lossy_text(written, output.stderr@);
    }
}

/// A copy that comes next is staged under a suffix that was drawn for it, at the place that is
/// given under that suffix.
pub proof fn law_copies_get_a_drawn_suffix(config: ConfigView, suffix: Seq<char>)
    requires
        Stage::Prepare.draws(config, RebuildReport::DirCreated(Ok(())), suffix),
    ensures
        is_fresh_suffix(suffix),
        config.has_staged(config.staged(suffix), suffix),
{
}

/// Each error has its own step: which error a rebuild ends with tells which step failed and how.
pub proof fn law_errors_tell_the_failed_step(
    config: ConfigView,
    stage: Stage,
    report: RebuildReport,
    suffix: Seq<char>,
    e: ErrorView,
)
    requires
        stage.expects(report),
        stage.after(config, report, suffix) == ProgressView::Failed(e),
    ensures
        e is Build <==> stage is Build && report->CargoRan_0 is Ok,
        e is DylibMissing <==> stage is Locate,
        e is Dlopen || e is SymbolMissing || e is BuildRouterPanic <==> stage is Load,
        e is Io <==> stage is Prepare || stage is Copy || (stage is Build
            && report->CargoRan_0 is Err),
        !(e is Notify),
{
}

impl RebuildTaskView {
    /// The task writes to the file at this path.
    pub open spec fn writes_to(self, path: PathBuf) -> bool {
        match self {
            RebuildTaskView::Copy { from: _, to } => to == path,
            _ => false,
        }
    }
}

/// A rebuild leaves the copies of earlier ones alone: whatever is reported to it, where it stages
/// a copy, its tasks write to no file that was staged under another suffix.
pub proof fn law_staging_leaves_other_copies_alone(
    config: ConfigView,
    earlier: Seq<char>,
    suffix: Seq<char>,
    other: PathBuf,
    report: RebuildReport,
)
    requires
        has_no_separator(config.package),
        is_uuid_v4(earlier),
        earlier != suffix,
        config.has_staged(other, earlier),
        Stage::Prepare.draws(config, report, suffix),
    ensures
        !Stage::Locate.task_of(config).writes_to(other),
        !Stage::Prepare.task_of(config).writes_to(other),
        Stage::Prepare.after(config, report, suffix) matches ProgressView::Next(Stage::Copy(to))
            ==> Stage::Copy(to).task_of(config).writes_to(to) && !Stage::Copy(to).task_of(
            config,
        ).writes_to(other),
{
    if let RebuildReport::DirCreated(Ok(_)) = report {
        law_staged_name_is_a_single_component(config.platform, config.package, earlier);
        law_staged_name_is_a_single_component(config.platform, config.package, suffix);
        law_staged_names_are_unique(config.platform, config.package, earlier, suffix);
    }
}

/// When every step succeeds, the rebuild runs cargo, looks for the dylib, creates the staging
/// directory, copies the dylib there under the suffix, loads that copy, and ends with the
/// generation that was loaded.
pub proof fn law_rebuild_loads_a_staged_copy_of_what_was_built(
    config: ConfigView,
    output: CargoOutput,
    generation: Generation,
    suffix: Seq<char>,
)
    requires
        output.success,
    ensures
        ({
            let staged = config.staged(suffix);
            &&& Stage::Build.task_of(config) == RebuildTaskView::RunCargo(cargo_build(config))
            &&& Stage::Build.after(config, RebuildReport::CargoRan(Ok(output)), suffix)
                == ProgressView::Next(Stage::Locate)
            &&& Stage::Locate.task_of(config) == RebuildTaskView::LookFor(config.built())
            &&& Stage::Locate.after(config, RebuildReport::DylibExists(true), suffix)
                == ProgressView::Next(Stage::Prepare)
            &&& Stage::Prepare.task_of(config) == RebuildTaskView::CreateDir(
                staging_path(config.workspace_root),
            )
            &&& Stage::Prepare.after(config, RebuildReport::DirCreated(Ok(())), suffix)
                == ProgressView::Next(Stage::Copy(staged))
            &&& Stage::Copy(staged).task_of(config) == (RebuildTaskView::Copy {
                from: config.built(),
                to: staged,
            })
            &&& Stage::Copy(staged).after(config, RebuildReport::Copied(Ok(())), suffix)
                == ProgressView::Next(Stage::Load(staged))
            &&& Stage::Load(staged).task_of(config) == RebuildTaskView::Load(staged)
            &&& Stage::Load(staged).after(config, RebuildReport::Loaded(Ok(generation)), suffix)
                == ProgressView::Loaded(generation)
        }),
{
}

/// Each stage expects the report on its own task, and every such report, whatever it says.
pub proof fn law_stages_expect_their_reports(stage: Stage, report: RebuildReport)
    ensures
        stage.expects(report) <==> match report {
            RebuildReport::CargoRan(_) => stage is Build,
            RebuildReport::DylibExists(_) => stage is Locate,
            RebuildReport::DirCreated(_) => stage is Prepare,
            RebuildReport::Copied(_) => stage is Copy,
            RebuildReport::Loaded(_) => stage is Load,
        },
{
}

/// The configuration is seen as it is.
pub proof fn law_config_view(config: ReloadConfig)
    ensures
        config@.package == config.package@,
        config@.workspace_root == config.workspace_root,
        config@.cargo == config.cargo,
        config@.platform == config.platform,
{
}

} // verus!
