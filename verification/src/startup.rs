//! The steps from a configured builder to a running reloader.
//!
//! As with a rebuild, the decisions are taken here and the tasks are left to the driver.

use crate::artifact::Platform;
use crate::builder::{
    is_new_layer, layer_reloader, make_layer, reloader_of, BuilderView, HotReload, HotReloadView,
};
use crate::error::{ErrorView, HotReloadError};
use crate::live::{clone_paths, first_view, is_clock_reading, LiveService};
use crate::paths::{join, path_join};
use crate::rebuild::{
    is_failure, ConfigView, Generation, Progress, ProgressView, RebuildReport, RebuildTask,
    RebuildTaskView, ReloadConfig, Stage,
};
use std::path::PathBuf;
use std::time::{Duration, Instant};
use tower_livereload::LiveReloadLayer;
use vstd::prelude::*;

verus! {

/// What the builder was set to, all but the workspace root.
pub struct Settings<S: Clone + Send + Sync + 'static> {
    pub package: String,
    pub state: S,
    pub watch_dirs: Vec<PathBuf>,
    pub debounce: Duration,
    pub cargo: PathBuf,
    pub enable_watcher: bool,
    pub platform: Platform,
}

/// What [`Settings`] say.
#[verifier::ext_equal]
pub struct SettingsView<S> {
    pub package: Seq<char>,
    pub state: S,
    pub watch_dirs: Seq<PathBuf>,
    pub debounce: Duration,
    pub cargo: PathBuf,
    pub enable_watcher: bool,
    pub platform: Platform,
}

impl<S: Clone + Send + Sync + 'static> View for Settings<S> {
    type V = SettingsView<S>;

    open spec fn view(&self) -> SettingsView<S> {
        SettingsView {
            package: self.package@,
            state: self.state,
            watch_dirs: self.watch_dirs@,
            debounce: self.debounce,
            cargo: self.cargo,
            enable_watcher: self.enable_watcher,
            platform: self.platform,
        }
    }
}

/// What a complete builder asks for.
pub open spec fn settings_of<S>(builder: BuilderView<S>, platform: Platform) -> SettingsView<S>
    recommends
        builder.package is Some,
        builder.state is Some,
{
    SettingsView {
        package: builder.package->0,
        state: builder.state->0,
        watch_dirs: builder.watch_dirs,
        debounce: builder.debounce,
        cargo: builder.cargo,
        enable_watcher: builder.enable_watcher,
        platform,
    }
}

/// All that is settled before the first build.
pub struct Plan<S: Clone + Send + Sync + 'static> {
    pub state: S,
    pub config: ReloadConfig,
    pub browser_layer: LiveReloadLayer,
    pub watch_dirs: Vec<PathBuf>,
    pub debounce: Duration,
    pub enable_watcher: bool,
}

/// What a [`Plan`] says.
#[verifier::ext_equal]
pub struct PlanView<S> {
    pub state: S,
    pub config: ConfigView,
    pub browser_layer: LiveReloadLayer,
    pub watch_dirs: Seq<PathBuf>,
    pub debounce: Duration,
    pub enable_watcher: bool,
}

impl<S: Clone + Send + Sync + 'static> View for Plan<S> {
    type V = PlanView<S>;

    open spec fn view(&self) -> PlanView<S> {
        PlanView {
            state: self.state,
            config: self.config@,
            browser_layer: self.browser_layer,
            watch_dirs: self.watch_dirs@,
            debounce: self.debounce,
            enable_watcher: self.enable_watcher,
        }
    }
}

/// The steps of a startup.
pub enum Startup<S: Clone + Send + Sync + 'static> {
    /// No workspace root was set: asking for the current directory.
    FindingRoot(Settings<S>),
    /// No directory to watch was set: seeing whether the package has a directory of its own in
    /// this workspace.
    ProbingNested(Settings<S>, PathBuf),
    /// It has none: seeing whether the workspace is the package.
    ProbingRoot(Settings<S>, PathBuf),
    /// Building and loading the first generation.
    Building(Plan<S>, Stage),
    /// Creating the file watcher.
    CreatingWatcher(HotReload<S>, Vec<PathBuf>, Duration),
    /// Watching the directory at this place of the list.
    Watching(HotReload<S>, Vec<PathBuf>, Duration, usize),
}

/// What a [`Startup`] says.
#[verifier::ext_equal]
pub enum StartupView<S> {
    FindingRoot(SettingsView<S>),
    ProbingNested(SettingsView<S>, PathBuf),
    ProbingRoot(SettingsView<S>, PathBuf),
    Building(PlanView<S>, Stage),
    CreatingWatcher(HotReloadView<S>, Seq<PathBuf>, Duration),
    Watching(HotReloadView<S>, Seq<PathBuf>, Duration, int),
}

impl<S: Clone + Send + Sync + 'static> View for Startup<S> {
    type V = StartupView<S>;

    open spec fn view(&self) -> StartupView<S> {
        match *self {
            Startup::FindingRoot(settings) => StartupView::FindingRoot(settings@),
            Startup::ProbingNested(settings, root) => StartupView::ProbingNested(settings@, root),
            Startup::ProbingRoot(settings, root) => StartupView::ProbingRoot(settings@, root),
            Startup::Building(plan, stage) => StartupView::Building(plan@, stage),
            Startup::CreatingWatcher(hot, dirs, debounce) => StartupView::CreatingWatcher(
                hot@,
                dirs@,
                debounce,
            ),
            Startup::Watching(hot, dirs, debounce, at) => StartupView::Watching(
                hot@,
                dirs@,
                debounce,
                at as int,
            ),
        }
    }
}

/// A reloader that is up, with the debounce window of its watcher, where it has one.
pub struct Started<S: Clone + Send + Sync + 'static> {
    pub hot: HotReload<S>,
    pub debounce: Option<Duration>,
}

/// What is to be done at a step of a startup.
pub enum StartupTask {
    /// Find out the current directory.
    CurrentDir,
    /// See whether this is a directory.
    ProbeDir(PathBuf),
    /// This step of the rebuild.
    Rebuild(RebuildTask),
    /// Create the file watcher.
    CreateWatcher,
    /// Watch this directory and all that is in it.
    Watch(PathBuf),
}

/// What a [`StartupTask`] says.
#[verifier::ext_equal]
pub enum StartupTaskView {
    CurrentDir,
    ProbeDir(PathBuf),
    Rebuild(RebuildTaskView),
    CreateWatcher,
    Watch(PathBuf),
}

impl View for StartupTask {
    type V = StartupTaskView;

    open spec fn view(&self) -> StartupTaskView {
        match *self {
            StartupTask::CurrentDir => StartupTaskView::CurrentDir,
            StartupTask::ProbeDir(path) => StartupTaskView::ProbeDir(path),
            StartupTask::Rebuild(task) => StartupTaskView::Rebuild(task@),
            StartupTask::CreateWatcher => StartupTaskView::CreateWatcher,
            StartupTask::Watch(path) => StartupTaskView::Watch(path),
        }
    }
}

/// What came of a [`StartupTask`].
pub enum StartupReport {
    CurrentDir(PathBuf),
    IsDir(bool),
    Rebuild(RebuildReport),
    WatcherCreated(Result<(), notify::Error>),
    Watched(Result<(), notify::Error>),
}

/// How a startup goes on after a report.
pub enum StartupStep<S: Clone + Send + Sync + 'static> {
    /// With this step.
    Running(Startup<S>),
    /// It is over.
    Done(Result<Started<S>, HotReloadError>),
}

/// What a [`StartupStep`] says.
#[verifier::ext_equal]
pub enum StartupStepView<S> {
    Running(StartupView<S>),
    Started(HotReloadView<S>, Option<Duration>),
    Failed(ErrorView),
}

impl<S: Clone + Send + Sync + 'static> View for StartupStep<S> {
    type V = StartupStepView<S>;

    open spec fn view(&self) -> StartupStepView<S> {
        match *self {
            StartupStep::Running(startup) => StartupStepView::Running(startup@),
            StartupStep::Done(Ok(started)) => StartupStepView::Started(
                started.hot@,
                started.debounce,
            ),
            StartupStep::Done(Err(e)) => StartupStepView::Failed(e@),
        }
    }
}

/// The source directory of a package that has a directory of its own in the workspace.
pub open spec fn nested_source(workspace_root: PathBuf, package: Seq<char>) -> PathBuf {
    path_join(path_join(workspace_root, package), "src"@)
}

/// The source directory of a workspace that is the package.
pub open spec fn root_source(workspace_root: PathBuf) -> PathBuf {
    path_join(workspace_root, "src"@)
}

impl<S> SettingsView<S> {
    /// The plan for a workspace root and the directories to watch.
    pub open spec fn plan(
        self,
        workspace_root: PathBuf,
        watch_dirs: Seq<PathBuf>,
        layer: LiveReloadLayer,
    ) -> PlanView<S> {
        PlanView {
            state: self.state,
            config: ConfigView {
                package: self.package,
                workspace_root,
                cargo: self.cargo,
                platform: self.platform,
            },
            browser_layer: layer,
            watch_dirs,
            debounce: self.debounce,
            enable_watcher: self.enable_watcher,
        }
    }

    /// The step that comes once the workspace root is known.
    pub open spec fn rooted(self, workspace_root: PathBuf, layer: LiveReloadLayer) -> StartupView<
        S,
    > {
        if self.watch_dirs.len() == 0 {
            StartupView::ProbingNested(self, workspace_root)
        } else {
            StartupView::Building(self.plan(workspace_root, self.watch_dirs, layer), Stage::Build)
        }
    }
}

impl<S> PlanView<S> {
    /// The reloader with its first generation in place.
    pub open spec fn first_hot(self, generation: Generation, now: Instant) -> HotReloadView<S> {
        HotReloadView {
            live: first_view(
                self.state,
                self.config,
                Some(layer_reloader(self.browser_layer)),
                generation,
                now,
            ),
            browser_layer: self.browser_layer,
        }
    }
}

/// Goes on to the directory at this place of the list, or ends behind the last one.
pub open spec fn watch_at<S>(
    hot: HotReloadView<S>,
    dirs: Seq<PathBuf>,
    debounce: Duration,
    at: int,
) -> StartupStepView<S> {
    if at < dirs.len() {
        StartupStepView::Running(StartupView::Watching(hot, dirs, debounce, at))
    } else {
        StartupStepView::Started(hot, Some(debounce))
    }
}

impl<S> StartupView<S> {
    /// The first step for a builder. `layer` is the browsers' layer, where it is made already.
    pub open spec fn first(
        builder: BuilderView<S>,
        platform: Platform,
        layer: LiveReloadLayer,
    ) -> StartupView<S> {
        match builder.workspace_root {
            Some(root) => settings_of(builder, platform).rooted(root, layer),
            None => StartupView::FindingRoot(settings_of(builder, platform)),
        }
    }

    /// A place in the list of directories is one of the list.
    pub open spec fn wf(self) -> bool {
        match self {
            StartupView::Watching(_, dirs, _, at) => 0 <= at < dirs.len(),
            _ => true,
        }
    }

    /// The report speaks of the step's task.
    pub open spec fn expects(self, report: StartupReport) -> bool {
        match self {
            StartupView::FindingRoot(_) => report is CurrentDir,
            StartupView::ProbingNested(_, _) => report is IsDir,
            StartupView::ProbingRoot(_, _) => report is IsDir,
            StartupView::Building(_, stage) => match report {
                StartupReport::Rebuild(report) => stage.expects(report),
                _ => false,
            },
            StartupView::CreatingWatcher(_, _, _) => report is WatcherCreated,
            StartupView::Watching(_, _, _, _) => report is Watched,
        }
    }

    /// The task of the step.
    pub open spec fn task_of(self) -> StartupTaskView {
        match self {
            StartupView::FindingRoot(_) => StartupTaskView::CurrentDir,
            StartupView::ProbingNested(settings, root) => StartupTaskView::ProbeDir(
                nested_source(root, settings.package),
            ),
            StartupView::ProbingRoot(settings, root) => StartupTaskView::ProbeDir(
                root_source(root),
            ),
            StartupView::Building(plan, stage) => StartupTaskView::Rebuild(
                stage.task_of(plan.config),
            ),
            StartupView::CreatingWatcher(_, _, _) => StartupTaskView::CreateWatcher,
            StartupView::Watching(_, dirs, _, at) => StartupTaskView::Watch(dirs[at]),
        }
    }

    /// What chance, the clock and the making of a layer add to the report is what was drawn, read
    /// and made for it.
    pub open spec fn draws(
        self,
        report: StartupReport,
        layer: LiveReloadLayer,
        suffix: Seq<char>,
        now: Instant,
    ) -> bool {
        match (self, report) {
            (StartupView::FindingRoot(settings), StartupReport::CurrentDir(_)) =>
                settings.watch_dirs.len() > 0 ==> is_new_layer(layer),
            (StartupView::ProbingNested(_, _), StartupReport::IsDir(found)) => found
                ==> is_new_layer(layer),
            (StartupView::ProbingRoot(_, _), StartupReport::IsDir(_)) => is_new_layer(layer),
            (StartupView::Building(plan, stage), StartupReport::Rebuild(report)) => stage.draws(
                plan.config,
                report,
                suffix,
            ) && is_clock_reading(now),
            _ => true,
        }
    }

    /// What a report on the first build leads to. `suffix` is that of a copy that comes next, and
    /// `now` the time at which a first generation is in place.
    pub open spec fn after_build(
        plan: PlanView<S>,
        stage: Stage,
        report: RebuildReport,
        suffix: Seq<char>,
        now: Instant,
    ) -> StartupStepView<S> {
        match stage.after(plan.config, report, suffix) {
            ProgressView::Next(next) => StartupStepView::Running(StartupView::Building(plan, next)),
            ProgressView::Failed(e) => StartupStepView::Failed(e),
            ProgressView::Loaded(generation) => {
                let hot = plan.first_hot(generation, now);
                if plan.enable_watcher {
                    StartupStepView::Running(
                        StartupView::CreatingWatcher(hot, plan.watch_dirs, plan.debounce),
                    )
                } else {
                    StartupStepView::Started(hot, None)
                }
            },
        }
    }

    /// What a report leads to. `layer` is the browsers' layer, where it is made in this step;
    /// `suffix` and `now` are what chance and the clock add to it.
    pub open spec fn after(
        self,
        report: StartupReport,
        layer: LiveReloadLayer,
        suffix: Seq<char>,
        now: Instant,
    ) -> StartupStepView<S> {
        match (self, report) {
            (StartupView::FindingRoot(settings), StartupReport::CurrentDir(root)) =>
                StartupStepView::Running(settings.rooted(root, layer)),
            (StartupView::ProbingNested(settings, root), StartupReport::IsDir(found)) =>
                StartupStepView::Running(
                if found {
                    StartupView::Building(
                        settings.plan(root, seq![nested_source(root, settings.package)], layer),
                        Stage::Build,
                    )
                } else {
                    StartupView::ProbingRoot(settings, root)
                },
            ),
            (StartupView::ProbingRoot(settings, root), StartupReport::IsDir(found)) => {
                let dir = if found {
                    root_source(root)
                } else {
                    nested_source(root, settings.package)
                };
                StartupStepView::Running(
                    StartupView::Building(settings.plan(root, seq![dir], layer), Stage::Build),
                )
            },
            (StartupView::Building(plan, stage), StartupReport::Rebuild(report)) =>
                StartupView::after_build(plan, stage, report, suffix, now),
            (
                StartupView::CreatingWatcher(hot, dirs, debounce),
                StartupReport::WatcherCreated(done),
            ) => match done {
                Ok(_) => watch_at(hot, dirs, debounce, 0),
                Err(e) => StartupStepView::Failed(ErrorView::Notify(e)),
            },
            (StartupView::Watching(hot, dirs, debounce, at), StartupReport::Watched(done)) =>
                match done {
                Ok(_) => watch_at(hot, dirs, debounce, at + 1),
                Err(e) => StartupStepView::Failed(ErrorView::Notify(e)),
            },
            _ => StartupStepView::Running(self),
        }
    }
}

impl<S: Clone + Send + Sync + 'static> Settings<S> {
    /// The first build for a workspace root and the directories to watch.
    fn first_build(self, workspace_root: PathBuf, watch_dirs: Vec<PathBuf>) -> (res: Startup<S>)
        ensures
            exists|layer: LiveReloadLayer|
                is_new_layer(layer) && res@ == StartupView::Building(
                    #[trigger] self@.plan(workspace_root, watch_dirs@, layer),
                    Stage::Build,
                ),
    {
        let config = ReloadConfig {
            package: self.package,
            workspace_root,
            cargo: self.cargo,
            platform: self.platform,
        };
        let browser_layer = make_layer();
        let plan = Plan {
            state: self.state,
            config,
            browser_layer,
            watch_dirs,
            debounce: self.debounce,
            enable_watcher: self.enable_watcher,
        };
        assert(plan@ == self@.plan(workspace_root, watch_dirs@, browser_layer));
        Startup::Building(plan, Stage::Build)
    }

    /// Goes on once the workspace root is known.
    pub(crate) fn at_root(self, workspace_root: PathBuf) -> (res: Startup<S>)
        ensures
            res.wf(),
            exists|layer: LiveReloadLayer|
                (res@ is Building ==> is_new_layer(layer)) && res@ == #[trigger] self@.rooted(
                    workspace_root,
                    layer,
                ),
    {
        if self.watch_dirs.len() == 0 {
            let res = Startup::ProbingNested(self, workspace_root);
            assert(res@ == self@.rooted(workspace_root, arbitrary()));
            res
        } else {
            let dirs = clone_paths(&self.watch_dirs);
            let res = self.first_build(workspace_root, dirs);
            proof {
                let layer = choose|layer: LiveReloadLayer|
                    is_new_layer(layer) && res@ == StartupView::Building(
                        #[trigger] self@.plan(workspace_root, dirs@, layer),
                        Stage::Build,
                    );
                assert(res@ == self@.rooted(workspace_root, layer));
            }
            res
        }
    }
}

impl<S: Clone + Send + Sync + 'static> Plan<S> {
    /// Takes the report on a step of the first build. `suffix` is that of a copy that comes next,
    /// and `now` the time.
    pub fn build_step(self, stage: Stage, report: RebuildReport, suffix: &str, now: Instant) -> (res:
        StartupStep<S>)
        ensures
            res@ == StartupView::after_build(self@, stage, report, suffix@, now),
            stage.copies_next(report) ==> self@.config.has_staged(
                self@.config.staged(suffix@),
                suffix@,
            ),
            res matches StartupStep::Running(next) ==> next.wf(),
    {
        match stage.advance_with(&self.config, report, suffix) {
            Progress::Next(next) => StartupStep::Running(Startup::Building(self, next)),
            Progress::Failed(e) => StartupStep::Done(Err(e)),
            Progress::Loaded(generation) => {
                let reloader = reloader_of(&self.browser_layer);
                let live = LiveService::bootstrap(
                    self.state,
                    self.config,
                    Some(reloader),
                    generation,
                    now,
                );
                let hot = HotReload::new(live, self.browser_layer);
                if self.enable_watcher {
                    StartupStep::Running(
                        Startup::CreatingWatcher(hot, self.watch_dirs, self.debounce),
                    )
                } else {
                    StartupStep::Done(Ok(Started { hot, debounce: None }))
                }
            },
        }
    }
}

/// Goes on to the directory at this place of the list, or ends behind the last one.
fn watch_from<S: Clone + Send + Sync + 'static>(
    hot: HotReload<S>,
    dirs: Vec<PathBuf>,
    debounce: Duration,
    at: usize,
) -> (res: StartupStep<S>)
    ensures
        res@ == watch_at(hot@, dirs@, debounce, at as int),
        res matches StartupStep::Running(next) ==> next.wf(),
{
    if at < dirs.len() {
        StartupStep::Running(Startup::Watching(hot, dirs, debounce, at))
    } else {
        StartupStep::Done(Ok(Started { hot, debounce: Some(debounce) }))
    }
}

impl<S: Clone + Send + Sync + 'static> Startup<S> {
    /// A place in the list of directories is one of the list.
    pub open spec fn wf(self) -> bool {
        self@.wf()
    }

    /// What is to be done at this step.
    pub fn task(&self) -> (res: StartupTask)
        requires
            self.wf(),
        ensures
            res@ == self@.task_of(),
    {
        match self {
            Startup::FindingRoot(_) => StartupTask::CurrentDir,
            Startup::ProbingNested(settings, root) => StartupTask::ProbeDir(
                join(&join(root, settings.package.as_str()), "src"),
            ),
            Startup::ProbingRoot(_, root) => StartupTask::ProbeDir(join(root, "src")),
            Startup::Building(plan, stage) => StartupTask::Rebuild(stage.task(&plan.config)),
            Startup::CreatingWatcher(_, _, _) => StartupTask::CreateWatcher,
            Startup::Watching(_, dirs, _, at) => StartupTask::Watch(dirs[*at].clone()),
        }
    }

    /// The state that the first load passes to the handlers.
    pub fn state_for_load(&self) -> (res: Option<S>)
        ensures
            match self@ {
                StartupView::Building(plan, _) => res matches Some(state) && cloned(
                    plan.state,
                    state,
                ),
                _ => res is None,
            },
    {
        match self {
            Startup::Building(plan, _) => Some(plan.state.clone()),
            _ => None,
        }
    }

    /// Takes the report on the step's task. A report on something else changes nothing.
    pub fn step(self, report: StartupReport) -> (res: StartupStep<S>)
        requires
            self.wf(),
        ensures
            res matches StartupStep::Running(next) ==> next.wf(),
            exists|layer: LiveReloadLayer, suffix: Seq<char>, now: Instant|
                self@.draws(report, layer, suffix, now) && res@ == #[trigger] self@.after(
                    report,
                    layer,
                    suffix,
                    now,
                ),
    {
        let ghost was = self@;
        let ghost told = report;
        let ghost nothing = Seq::<char>::empty();
        match (self, report) {
            (Startup::FindingRoot(settings), StartupReport::CurrentDir(root)) => {
                let next = settings.at_root(root);
                let res = StartupStep::Running(next);
                proof {
                    let layer = choose|layer: LiveReloadLayer|
                        (next@ is Building ==> is_new_layer(layer)) && next@
                            == #[trigger] settings@.rooted(root, layer);
                    assert(res@ == was.after(told, layer, nothing, arbitrary()));
                }
                res
            },
            (Startup::ProbingNested(settings, root), StartupReport::IsDir(found)) => {
                if found {
                    let nested = join(&join(&root, settings.package.as_str()), "src");
                    let dirs = vec![nested];
                    let next = settings.first_build(root, dirs);
                    let res = StartupStep::Running(next);
                    proof {
                        assert(dirs@ =~= seq![nested]);
                        let layer = choose|layer: LiveReloadLayer|
                            is_new_layer(layer) && next@ == StartupView::Building(
                                #[trigger] settings@.plan(root, dirs@, layer),
                                Stage::Build,
                            );
                        assert(res@ == was.after(told, layer, nothing, arbitrary()));
                    }
                    res
                } else {
                    let res = StartupStep::Running(Startup::ProbingRoot(settings, root));
                    assert(res@ == was.after(told, arbitrary(), nothing, arbitrary()));
                    res
                }
            },
            (Startup::ProbingRoot(settings, root), StartupReport::IsDir(found)) => {
                // Where neither directory is there, the conventional one is watched, so that the
                // error names it.
                let dir = if found {
                    join(&root, "src")
                } else {
                    join(&join(&root, settings.package.as_str()), "src")
                };
                let dirs = vec![dir];
                let next = settings.first_build(root, dirs);
                let res = StartupStep::Running(next);
                proof {
                    assert(dirs@ =~= seq![dir]);
                    let layer = choose|layer: LiveReloadLayer|
                        is_new_layer(layer) && next@ == StartupView::Building(
                            #[trigger] settings@.plan(root, dirs@, layer),
                            Stage::Build,
                        );
                    assert(res@ == was.after(told, layer, nothing, arbitrary()));
                }
                res
            },
            (Startup::Building(plan, stage), StartupReport::Rebuild(report)) => {
                let suffix = stage.fresh_suffix(&report);
                let now = Instant::now();
                let res = plan.build_step(stage, report, suffix.as_str(), now);
                assert(res@ == was.after(told, arbitrary(), suffix@, now));
                res
            },
            (
                Startup::CreatingWatcher(hot, dirs, debounce),
                StartupReport::WatcherCreated(done),
            ) => {
                let res = match done {
                    Ok(_) => watch_from(hot, dirs, debounce, 0),
                    Err(e) => StartupStep::Done(Err(HotReloadError::Notify(e))),
                };
                assert(res@ == was.after(told, arbitrary(), nothing, arbitrary()));
                res
            },
            (Startup::Watching(hot, dirs, debounce, at), StartupReport::Watched(done)) => {
                let res = match done {
                    Ok(_) => {
                        let count: usize = dirs.len();
                        assert(at < count);
                        watch_from(hot, dirs, debounce, at + 1)
                    },
                    Err(e) => StartupStep::Done(Err(HotReloadError::Notify(e))),
                };
                assert(res@ == was.after(told, arbitrary(), nothing, arbitrary()));
                res
            },
            (startup, _) => {
                let res = StartupStep::Running(startup);
                assert(res@ == was.after(told, arbitrary(), nothing, arbitrary()));
                res
            },
        }
    }
}

/// A report on a startup, with what chance, the clock and the making of a layer add to it.
pub struct StartupInput {
    pub report: StartupReport,
    pub layer: LiveReloadLayer,
    pub suffix: Seq<char>,
    pub now: Instant,
}

impl StartupInput {
    /// The report speaks of the task of the step, and what is added to it is what was drawn, read
    /// and made for it.
    pub open spec fn is_for<S>(self, startup: StartupView<S>) -> bool {
        &&& startup.expects(self.report)
        &&& startup.draws(self.report, self.layer, self.suffix, self.now)
    }
}

/// Each of the reports is for the step that the startup has come to.
pub open spec fn is_run<S>(first: StartupView<S>, inputs: Seq<StartupInput>) -> bool
    decreases inputs.len(),
{
    inputs.len() == 0 || (is_run(first, inputs.drop_last()) && (end_of(
        first,
        inputs.drop_last(),
    ) matches StartupStepView::Running(startup) && inputs.last().is_for(startup)))
}

/// The startup after the reports.
pub open spec fn end_of<S>(first: StartupView<S>, inputs: Seq<StartupInput>) -> StartupStepView<S>
    decreases inputs.len(),
{
    if inputs.len() == 0 {
        StartupStepView::Running(first)
    } else {
        let last = inputs.last();
        match end_of(first, inputs.drop_last()) {
            StartupStepView::Running(startup) => startup.after(
                last.report,
                last.layer,
                last.suffix,
                last.now,
            ),
            done => done,
        }
    }
}

impl<S> BuilderView<S> {
    /// The workspace root is the one that was set, where one was.
    pub open spec fn fits_root(self, root: PathBuf) -> bool {
        match self.workspace_root {
            Some(set) => root == set,
            None => true,
        }
    }

    /// The directories are those that were set, or else one of the two default places.
    pub open spec fn fits_dirs(self, root: PathBuf, dirs: Seq<PathBuf>) -> bool {
        if self.watch_dirs.len() > 0 {
            dirs == self.watch_dirs
        } else {
            dirs == seq![nested_source(root, self.package->0)] || dirs == seq![root_source(root)]
        }
    }

    /// The configuration is the one that was asked for.
    pub open spec fn fits_config(self, platform: Platform, config: ConfigView) -> bool {
        &&& config.package == self.package->0
        &&& config.cargo == self.cargo
        &&& config.platform == platform
        &&& self.fits_root(config.workspace_root)
    }

    /// The reloader is the one that was asked for: it has the host's state and the configuration,
    /// its first generation is in place with no error on record, and a swap is told to the
    /// browsers that its own layer serves, which was made for it.
    pub open spec fn fits_hot(self, platform: Platform, hot: HotReloadView<S>) -> bool {
        &&& hot.live.state == self.state->0
        &&& self.fits_config(platform, hot.live.config)
        &&& is_new_layer(hot.browser_layer)
        &&& hot.live.browser_reloader == Some(layer_reloader(hot.browser_layer))
        &&& hot.live.status.generation == 1
        &&& hot.live.status.last_success matches Some(last) && is_clock_reading(last)
        &&& hot.live.status.last_error is None
    }

    /// The step is one on the way to the reloader that was asked for.
    pub open spec fn fits_step(self, platform: Platform, step: StartupStepView<S>) -> bool {
        match step {
            StartupStepView::Running(StartupView::FindingRoot(settings)) => {
                &&& self.workspace_root is None
                &&& settings == settings_of(self, platform)
            },
            StartupStepView::Running(StartupView::ProbingNested(settings, root)) => {
                &&& self.watch_dirs.len() == 0
                &&& self.fits_root(root)
                &&& settings == settings_of(self, platform)
            },
            StartupStepView::Running(StartupView::ProbingRoot(settings, root)) => {
                &&& self.watch_dirs.len() == 0
                &&& self.fits_root(root)
                &&& settings == settings_of(self, platform)
            },
            StartupStepView::Running(StartupView::Building(plan, _)) => {
                &&& plan.state == self.state->0
                &&& is_new_layer(plan.browser_layer)
                &&& self.fits_config(platform, plan.config)
                &&& self.fits_dirs(plan.config.workspace_root, plan.watch_dirs)
                &&& plan.debounce == self.debounce
                &&& plan.enable_watcher == self.enable_watcher
            },
            StartupStepView::Running(StartupView::CreatingWatcher(hot, dirs, debounce)) => {
                &&& self.enable_watcher
                &&& self.fits_hot(platform, hot)
                &&& self.fits_dirs(hot.live.config.workspace_root, dirs)
                &&& debounce == self.debounce
            },
            StartupStepView::Running(StartupView::Watching(hot, dirs, debounce, at)) => {
                &&& self.enable_watcher
                &&& self.fits_hot(platform, hot)
                &&& self.fits_dirs(hot.live.config.workspace_root, dirs)
                &&& debounce == self.debounce
                &&& 0 <= at < dirs.len()
            },
            StartupStepView::Started(hot, debounce) => {
                &&& self.fits_hot(platform, hot)
                &&& debounce == if self.enable_watcher {
                    Some(self.debounce)
                } else {
                    None
                }
            },
            StartupStepView::Failed(_) => true,
        }
    }
}

/// A startup gives what the builder was set to, whatever is reported on the way: the reloader
/// that it ends with holds the host's state, the package, cargo and workspace root that were set,
/// and its first generation; it watches the directories that were set, or else a default one; and
/// without a watcher none is ever created.
pub proof fn law_startup_keeps_to_the_builder<S>(
    builder: BuilderView<S>,
    platform: Platform,
    layer: LiveReloadLayer,
    inputs: Seq<StartupInput>,
)
    requires
        builder.package is Some,
        builder.state is Some,
        StartupView::first(builder, platform, layer) is Building ==> is_new_layer(layer),
        is_run(StartupView::first(builder, platform, layer), inputs),
    ensures
        builder.fits_step(platform, end_of(StartupView::first(builder, platform, layer), inputs)),
    decreases inputs.len(),
{
    if inputs.len() > 0 {
        law_startup_keeps_to_the_builder(builder, platform, layer, inputs.drop_last());
    }
}

/// The default directory to watch: the source directory in the package's own directory where
/// that exists, else the one in the workspace root where that exists, else the former.
pub proof fn law_default_watch_directory<S>(
    settings: SettingsView<S>,
    root: PathBuf,
    nested_is_dir: bool,
    root_is_dir: bool,
    a: StartupInput,
    b: StartupInput,
)
    requires
        settings.watch_dirs.len() == 0,
        a.report == StartupReport::IsDir(nested_is_dir),
        b.report == StartupReport::IsDir(root_is_dir),
    ensures
        ({
            let nested = nested_source(root, settings.package);
            let first = settings.rooted(root, a.layer);
            let second = first.after(a.report, a.layer, a.suffix, a.now);
            &&& first.task_of() == StartupTaskView::ProbeDir(nested)
            &&& if nested_is_dir {
                second == StartupStepView::Running(
                    StartupView::Building(settings.plan(root, seq![nested], a.layer), Stage::Build),
                )
            } else {
                &&& second == StartupStepView::Running(StartupView::ProbingRoot(settings, root))
                &&& second->Running_0.task_of() == StartupTaskView::ProbeDir(root_source(root))
                &&& second->Running_0.after(b.report, b.layer, b.suffix, b.now)
                    == StartupStepView::Running(
                    StartupView::Building(
                        settings.plan(
                            root,
                            seq![
                                if root_is_dir {
                                    root_source(root)
                                } else {
                                    nested
                                },
                            ],
                            b.layer,
                        ),
                        Stage::Build,
                    ),
                )
            }
        }),
{
}

/// The reports that the watcher has been created and that the directories up to `n` are watched.
pub open spec fn watched(hot_inputs: Seq<StartupInput>, n: nat) -> bool {
    &&& hot_inputs.len() == n + 1
    &&& hot_inputs[0].report == StartupReport::WatcherCreated(Ok(()))
    &&& forall|i: int|
        1 <= i < hot_inputs.len() ==> (#[trigger] hot_inputs[i]).report == StartupReport::Watched(
            Ok(()),
        )
}

/// Every directory is watched, one after the other and in the order of the list, before the
/// reloader is up.
pub proof fn law_every_directory_is_watched<S>(
    hot: HotReloadView<S>,
    dirs: Seq<PathBuf>,
    debounce: Duration,
    inputs: Seq<StartupInput>,
    n: nat,
)
    requires
        n <= dirs.len(),
        watched(inputs, n),
    ensures
        is_run(StartupView::CreatingWatcher(hot, dirs, debounce), inputs),
        end_of(StartupView::CreatingWatcher(hot, dirs, debounce), inputs) == watch_at(
            hot,
            dirs,
            debounce,
            n as int,
        ),
        n < dirs.len() ==> (end_of(
            StartupView::CreatingWatcher(hot, dirs, debounce),
            inputs,
        )->Running_0.task_of() == StartupTaskView::Watch(dirs[n as int])),
    decreases n,
{
    reveal_with_fuel(is_run, 2);
    reveal_with_fuel(end_of, 2);
    if n > 0 {
        assert(watched(inputs.drop_last(), (n - 1) as nat));
        law_every_directory_is_watched(hot, dirs, debounce, inputs.drop_last(), (n - 1) as nat);
    }
}

/// The startup fails with the error of the watcher as soon as it cannot be created or cannot
/// watch a directory, and with the error of the first build where that fails.
pub proof fn law_startup_stops_at_the_first_failure<S>(
    startup: StartupView<S>,
    input: StartupInput,
)
    requires
        startup.wf(),
        startup.expects(input.report),
    ensures
        ({
            let step = startup.after(input.report, input.layer, input.suffix, input.now);
            match (startup, input.report) {
                (
                    StartupView::Building(plan, stage),
                    StartupReport::Rebuild(report),
                ) => step is Failed <==> is_failure(report),
                (_, StartupReport::WatcherCreated(Err(e))) => step == StartupStepView::<S>::Failed(
                    ErrorView::Notify(e),
                ),
                (_, StartupReport::Watched(Err(e))) => step == StartupStepView::<S>::Failed(
                    ErrorView::Notify(e),
                ),
                _ => !(step is Failed),
            }
        }),
{
}

/// The workspace root is the one that was set on the builder, or else the very path that was
/// reported as the current directory, whether or not directories to watch were set: every later
/// step of the startup has it, and so has the configuration of the reloader that it ends with.
pub proof fn law_workspace_root<S>(
    builder: BuilderView<S>,
    platform: Platform,
    layer: LiveReloadLayer,
    inputs: Seq<StartupInput>,
    current_dir: PathBuf,
)
    requires
        builder.package is Some,
        builder.state is Some,
        is_run(StartupView::first(builder, platform, layer), inputs),
        builder.workspace_root is None && inputs.len() > 0 ==> inputs[0].report
            == StartupReport::CurrentDir(current_dir),
    ensures
        ({
            let root = match builder.workspace_root {
                Some(set) => set,
                None => current_dir,
            };
            match end_of(StartupView::first(builder, platform, layer), inputs) {
                StartupStepView::Running(StartupView::FindingRoot(settings)) => {
                    &&& builder.workspace_root is None
                    &&& inputs.len() == 0
                    &&& settings.package == builder.package->0
                },
                StartupStepView::Running(StartupView::ProbingNested(settings, at)) => {
                    &&& at == root
                    &&& settings.package == builder.package->0
                },
                StartupStepView::Running(StartupView::ProbingRoot(settings, at)) => {
                    &&& at == root
                    &&& settings.package == builder.package->0
                },
                StartupStepView::Running(StartupView::Building(plan, _)) => {
                    &&& plan.config.workspace_root == root
                    &&& plan.config.package == builder.package->0
                },
                StartupStepView::Running(StartupView::CreatingWatcher(hot, _, _)) =>
                    hot.live.config.workspace_root == root,
                StartupStepView::Running(StartupView::Watching(hot, _, _, _)) =>
                    hot.live.config.workspace_root == root,
                StartupStepView::Started(hot, _) => hot.live.config.workspace_root == root,
                StartupStepView::Failed(_) => true,
            }
        }),
    decreases inputs.len(),
{
    reveal_with_fuel(is_run, 2);
    reveal_with_fuel(end_of, 2);
    if inputs.len() > 0 {
        let before = inputs.drop_last();
        if before.len() > 0 {
            assert(before[0] == inputs[0]);
        }
        law_workspace_root(builder, platform, layer, before, current_dir);
    }
}

/// Where the workspace root and the directories to watch were left to their defaults, the first
/// thing that is asked for behind the current directory is whether the package has a source
/// directory of its own there, and where it has, cargo is run in the current directory, for the
/// package, and the directory to watch is that one.
pub proof fn law_defaults_are_found_from_the_current_directory<S>(
    builder: BuilderView<S>,
    platform: Platform,
    layer: LiveReloadLayer,
    current_dir: PathBuf,
    a: StartupInput,
    b: StartupInput,
)
    requires
        builder.package is Some,
        builder.state is Some,
        builder.workspace_root is None,
        builder.watch_dirs.len() == 0,
        a.report == StartupReport::CurrentDir(current_dir),
        b.report == StartupReport::IsDir(true),
    ensures
        ({
            let first = StartupView::first(builder, platform, layer);
            let second = first.after(a.report, a.layer, a.suffix, a.now);
            let third = second->Running_0.after(b.report, b.layer, b.suffix, b.now);
            let source = path_join(path_join(current_dir, builder.package->0), "src"@);
            &&& first.task_of() == StartupTaskView::CurrentDir
            &&& second is Running && second->Running_0.task_of() == StartupTaskView::ProbeDir(
                source,
            )
            &&& third is Running && third->Running_0 is Building
            &&& third->Running_0->Building_0.watch_dirs == seq![source]
            &&& third->Running_0->Building_0.config.workspace_root == current_dir
            &&& third->Running_0->Building_0.config.package == builder.package->0
            &&& third->Running_0.task_of() is Rebuild
            &&& third->Running_0.task_of()->Rebuild_0 is RunCargo
            &&& third->Running_0.task_of()->Rebuild_0->RunCargo_0.current_dir == current_dir
            &&& third->Running_0.task_of()->Rebuild_0->RunCargo_0.program == builder.cargo
            &&& third->Running_0.task_of()->Rebuild_0->RunCargo_0.args == seq![
                "build"@,
                "-p"@,
                builder.package->0,
                "--lib"@,
            ]
        }),
{
}

/// What a startup asks for: the current directory; whether there is a source directory in the
/// package's own directory, and whether there is one in the workspace root; the task of the stage
/// of the first build; the watcher; and then each directory at its place in the list.
pub proof fn law_startup_asks_for_its_tasks<S: Clone + Send + Sync + 'static>(
    startup: Startup<S>,
    res: StartupTask,
)
    requires
        startup.wf(),
        call_ensures(Startup::<S>::task, (&startup,), res),
    ensures
        match startup {
            Startup::FindingRoot(_) => res is CurrentDir,
            Startup::ProbingNested(settings, root) => res == StartupTask::ProbeDir(
                path_join(path_join(root, settings.package@), "src"@),
            ),
            Startup::ProbingRoot(_, root) => res == StartupTask::ProbeDir(
                path_join(root, "src"@),
            ),
            Startup::Building(plan, stage) => res matches StartupTask::Rebuild(task) && task@
                == stage.task_of(plan.config@),
            Startup::CreatingWatcher(_, _, _) => res is CreateWatcher,
            Startup::Watching(_, dirs, _, at) => res == StartupTask::Watch(dirs@[at as int]),
        },
{
}

/// The plan of the first build holds what was set, the workspace root and the directories.
pub proof fn law_plan_holds_the_settings<S>(
    settings: SettingsView<S>,
    root: PathBuf,
    dirs: Seq<PathBuf>,
    layer: LiveReloadLayer,
)
    ensures
        ({
            let plan = settings.plan(root, dirs, layer);
            &&& plan.state == settings.state
            &&& plan.config.package == settings.package
            &&& plan.config.workspace_root == root
            &&& plan.config.cargo == settings.cargo
            &&& plan.config.platform == settings.platform
            &&& plan.browser_layer == layer
            &&& plan.watch_dirs == dirs
            &&& plan.debounce == settings.debounce
            &&& plan.enable_watcher == settings.enable_watcher
        }),
{
}

/// The settings of a startup are what the builder was set to.
pub proof fn law_settings_are_the_builders<S>(builder: BuilderView<S>, platform: Platform)
    requires
        builder.package is Some,
        builder.state is Some,
    ensures
        ({
            let settings = settings_of(builder, platform);
            &&& builder.package == Some(settings.package)
            &&& builder.state == Some(settings.state)
            &&& settings.watch_dirs == builder.watch_dirs
            &&& settings.debounce == builder.debounce
            &&& settings.cargo == builder.cargo
            &&& settings.enable_watcher == builder.enable_watcher
            &&& settings.platform == platform
        }),
{
}

/// How a startup goes on until the first build. With the workspace root known, directories that
/// were set are taken as they are; where none were, the package's own source directory is taken
/// if it is there, else that of the workspace root if that is there, and else the former.
pub proof fn law_startup_settles_its_directories<S>(
    settings: SettingsView<S>,
    root: PathBuf,
    found: bool,
    input: StartupInput,
)
    ensures
        ({
            let nested = path_join(path_join(root, settings.package), "src"@);
            let own = path_join(root, "src"@);
            let (layer, suffix, now) = (input.layer, input.suffix, input.now);
            let rooted = StartupView::FindingRoot(settings).after(
                StartupReport::CurrentDir(root),
                layer,
                suffix,
                now,
            );
            let probed = StartupView::ProbingNested(settings, root).after(
                StartupReport::IsDir(found),
                layer,
                suffix,
                now,
            );
            let settled = StartupView::ProbingRoot(settings, root).after(
                StartupReport::IsDir(found),
                layer,
                suffix,
                now,
            );
            &&& settings.watch_dirs.len() > 0 ==> rooted == StartupStepView::Running(
                StartupView::Building(
                    settings.plan(root, settings.watch_dirs, layer),
                    Stage::Build,
                ),
            )
            &&& settings.watch_dirs.len() == 0 ==> rooted == StartupStepView::Running(
                StartupView::ProbingNested(settings, root),
            )
            &&& found ==> probed == StartupStepView::Running(
                StartupView::Building(settings.plan(root, seq![nested], layer), Stage::Build),
            )
            &&& !found ==> probed == StartupStepView::Running(
                StartupView::ProbingRoot(settings, root),
            )
            &&& found ==> settled == StartupStepView::Running(
                StartupView::Building(settings.plan(root, seq![own], layer), Stage::Build),
            )
            &&& !found ==> settled == StartupStepView::Running(
                StartupView::Building(settings.plan(root, seq![nested], layer), Stage::Build),
            )
        }),
{
}

/// How a startup goes on from the first build. It goes through the stages of the rebuild with the
/// same plan and fails with the rebuild's own error. The generation that was loaded is put in
/// place as the first one, with the plan's state, configuration and layer, and the time on
/// record; then the watcher is created for the plan's directories and window, and without a
/// watcher the reloader is up.
pub proof fn law_startup_puts_the_first_generation_in_place<S>(
    plan: PlanView<S>,
    stage: Stage,
    report: RebuildReport,
    input: StartupInput,
)
    requires
        input.report == StartupReport::Rebuild(report),
    ensures
        ({
            let step = StartupView::Building(plan, stage).after(
                input.report,
                input.layer,
                input.suffix,
                input.now,
            );
            match stage.after(plan.config, report, input.suffix) {
                ProgressView::Next(next) => step == StartupStepView::Running(
                    StartupView::Building(plan, next),
                ),
                ProgressView::Failed(e) => step == StartupStepView::<S>::Failed(e),
                ProgressView::Loaded(generation) => {
                    let hot = if plan.enable_watcher {
                        step->Running_0->CreatingWatcher_0
                    } else {
                        step->Started_0
                    };
                    &&& plan.enable_watcher ==> step == StartupStepView::Running(
                        StartupView::CreatingWatcher(hot, plan.watch_dirs, plan.debounce),
                    )
                    &&& !plan.enable_watcher ==> step == StartupStepView::Started(hot, None)
                    &&& hot.browser_layer == plan.browser_layer
                    &&& hot.live.browser_reloader == Some(layer_reloader(plan.browser_layer))
                    &&& hot.live.state == plan.state
                    &&& hot.live.config == plan.config
                    &&& hot.live.current == generation
                    &&& hot.live.status.generation == 1
                    &&& hot.live.status.last_success == Some(input.now)
                    &&& hot.live.status.last_error is None
                },
            }
        }),
{
}

/// How a startup goes on with the watcher: from the watcher to the first directory, from each
/// directory to the next one, and from the last one to the reloader being up, with the window
/// that was set.
pub proof fn law_startup_goes_through_the_directories<S>(
    hot: HotReloadView<S>,
    dirs: Seq<PathBuf>,
    window: Duration,
    at: int,
    input: StartupInput,
)
    requires
        0 <= at < dirs.len(),
    ensures
        ({
            let (layer, suffix, now) = (input.layer, input.suffix, input.now);
            let created = StartupReport::WatcherCreated(Ok(()));
            let watched = StartupReport::Watched(Ok(()));
            let none = Seq::<PathBuf>::empty();
            &&& StartupView::CreatingWatcher(hot, dirs, window).after(created, layer, suffix, now)
                == StartupStepView::Running(StartupView::Watching(hot, dirs, window, 0))
            &&& StartupView::CreatingWatcher(hot, none, window).after(created, layer, suffix, now)
                == StartupStepView::Started(hot, Some(window))
            &&& at + 1 < dirs.len() ==> StartupView::Watching(hot, dirs, window, at).after(
                watched,
                layer,
                suffix,
                now,
            ) == StartupStepView::Running(StartupView::Watching(hot, dirs, window, at + 1))
            &&& at + 1 == dirs.len() ==> StartupView::Watching(hot, dirs, window, at).after(
                watched,
                layer,
                suffix,
                now,
            ) == StartupStepView::Started(hot, Some(window))
        }),
{
}

/// What chance, the clock and the making of a layer add to a startup is what was drawn, read and
/// made for it: a plan gets a layer that was made for it, a copy a suffix that was drawn, and the
/// first generation a reading of the clock.
pub proof fn law_startup_draws<S>(
    settings: SettingsView<S>,
    root: PathBuf,
    plan: PlanView<S>,
    report: RebuildReport,
    stage: Stage,
    input: StartupInput,
)
    ensures
        ({
            let (layer, suffix, now) = (input.layer, input.suffix, input.now);
            &&& settings.watch_dirs.len() > 0 && StartupView::FindingRoot(settings).draws(
                StartupReport::CurrentDir(root),
                layer,
                suffix,
                now,
            ) ==> is_new_layer(layer)
            &&& StartupView::ProbingNested(settings, root).draws(
                StartupReport::IsDir(true),
                layer,
                suffix,
                now,
            ) ==> is_new_layer(layer)
            &&& StartupView::ProbingRoot(settings, root).draws(
                StartupReport::IsDir(true),
                layer,
                suffix,
                now,
            ) ==> is_new_layer(layer)
            &&& StartupView::ProbingRoot(settings, root).draws(
                StartupReport::IsDir(false),
                layer,
                suffix,
                now,
            ) ==> is_new_layer(layer)
            &&& StartupView::Building(plan, stage).draws(
                StartupReport::Rebuild(report),
                layer,
                suffix,
                now,
            ) ==> stage.draws(plan.config, report, suffix) && call_ensures(Instant::now, (), now)
        }),
{
}

/// Each step of a startup expects the report on its own task, and every such report, whatever it
/// says.
pub proof fn law_startup_expects_its_reports<S>(startup: StartupView<S>, report: StartupReport)
    ensures
        startup.expects(report) <==> match report {
            StartupReport::CurrentDir(_) => startup is FindingRoot,
            StartupReport::IsDir(_) => startup is ProbingNested || startup is ProbingRoot,
            StartupReport::Rebuild(report) => startup is Building && startup->Building_1.expects(
                report,
            ),
            StartupReport::WatcherCreated(_) => startup is CreatingWatcher,
            StartupReport::Watched(_) => startup is Watching,
        },
{
}

/// A startup that is over is seen as what it gives: the reloader with the window of its watcher,
/// or the error.
pub proof fn law_startup_is_seen_as_it_is<S: Clone + Send + Sync + 'static>(step: StartupStep<S>)
    ensures
        match step {
            StartupStep::Running(startup) => step@ == StartupStepView::Running(startup@),
            StartupStep::Done(Ok(started)) => step@ == StartupStepView::Started(
                started.hot@,
                started.debounce,
            ),
            StartupStep::Done(Err(e)) => step@ == StartupStepView::<S>::Failed(e@),
        },
{
}

/// A report on something else than the step's task leaves the startup where it is.
pub proof fn law_other_reports_change_nothing<S>(startup: StartupView<S>, input: StartupInput)
    requires
        !startup.expects(input.report),
    ensures
        startup.after(input.report, input.layer, input.suffix, input.now)
            == StartupStepView::Running(startup),
{
}

} // verus!
