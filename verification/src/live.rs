//! The live service: the generation that serves requests, the record of past reloads, and the
//! steps of a reload.

use crate::artifact::{is_fresh_suffix, staging_dir, staging_path, sweep_staging, swept, StagedFile};
use crate::error::{ErrorView, HotReloadError};
use crate::rebuild::{
    rank, ConfigView, Generation, Progress, ProgressView, RebuildReport, RebuildTask,
    RebuildTaskView, ReloadConfig, Stage,
};
use crate::text::text_view;
use std::path::PathBuf;
use std::sync::Arc;
use std::time::Instant;
use vstd::prelude::*;

verus! {

/// `std::time::Instant`, carried as it came.
#[verifier::external_type_specification]
#[verifier::external_body]
pub struct ExInstant(std::time::Instant);

/// `Instant::now` reads the clock. Nothing is said of what it reads.
pub assume_specification[ Instant::now ]() -> Instant;

/// The time is one that `Instant::now` gave.
pub open spec fn is_clock_reading(now: Instant) -> bool {
    call_ensures(Instant::now, (), now)
}

/// `tower_livereload::Reloader`, the handle that tells browsers to refresh.
#[verifier::external_type_specification]
#[verifier::external_body]
pub struct ExReloader(tower_livereload::Reloader);

/// `Reloader::reload` tells the connected browsers to refresh. It gives nothing back.
#[verifier::external_body]
fn send_reload(reloader: &tower_livereload::Reloader) {
    reloader.reload()
}

/// The handle is one that [`send_reload`] was called on.
pub closed spec fn has_been_told(reloader: tower_livereload::Reloader) -> bool {
    call_ensures(send_reload, (&reloader,), ())
}

/// `axum::Router::clone` gives a router with the same routes: the two share one table of them.
pub assume_specification<S>[ <axum::Router<S> as Clone>::clone ](router: &axum::Router<S>) -> (res:
    axum::Router<S>)
    ensures
        res == *router,
;

/// The place of the current generation: an `arc_swap::ArcSwap`, which holds one generation at a
/// time and hands out shared ownership of it.
#[verifier::external_body]
pub struct GenerationSlot {
    inner: arc_swap::ArcSwap<Generation>,
}

/// The generation that a slot holds.
pub uninterp spec fn slot_holds(slot: GenerationSlot) -> Generation;

impl GenerationSlot {
    /// `ArcSwap::from_pointee`: a slot that holds the given generation.
    #[verifier::external_body]
    fn from_pointee(generation: Generation) -> (res: GenerationSlot)
        ensures
            slot_holds(res) == generation,
    {
        GenerationSlot { inner: arc_swap::ArcSwap::from_pointee(generation) }
    }

    /// `ArcSwap::load_full`: shared ownership of the generation that the slot holds.
    #[verifier::external_body]
    fn load_full(&self) -> (res: Arc<Generation>)
        ensures
            *res == slot_holds(*self),
    {
        self.inner.load_full()
    }

    /// `ArcSwap::store`: further loads yield the given generation. The slot is borrowed for
    /// writing, so that no load runs beside the store.
    #[verifier::external_body]
    fn store(&mut self, generation: Arc<Generation>)
        ensures
            slot_holds(*final(self)) == *generation,
    {
        self.inner.store(generation)
    }
}

/// The record of past reloads.
pub struct Bookkeeping {
    generation_counter: u64,
    last_success: Option<Instant>,
    last_error: Option<String>,
}

/// Snapshot of the reloader's current state.
#[derive(Debug)]
pub struct ReloadStatus {
    pub generation: u64,
    pub last_success: Option<Instant>,
    pub last_error: Option<String>,
}

/// What a [`ReloadStatus`] says.
#[verifier::ext_equal]
pub struct StatusView {
    pub generation: u64,
    pub last_success: Option<Instant>,
    pub last_error: Option<Seq<char>>,
}

impl View for ReloadStatus {
    type V = StatusView;

    open spec fn view(&self) -> StatusView {
        StatusView {
            generation: self.generation,
            last_success: self.last_success,
            last_error: text_view(self.last_error),
        }
    }
}

impl Clone for ReloadStatus {
    fn clone(&self) -> (res: ReloadStatus)
        ensures
            res@ == self@,
    {
        ReloadStatus {
            generation: self.generation,
            last_success: self.last_success,
            last_error: self.last_error.clone(),
        }
    }
}

/// Dispatches requests into the current generation, which a reload swaps for a new one.
pub struct LiveService<S: Clone + Send + Sync + 'static> {
    state: S,
    generation: GenerationSlot,
    config: ReloadConfig,
    bookkeeping: Bookkeeping,
    /// Pinger used to tell connected browsers to refresh after a successful swap.
    browser_reloader: Option<tower_livereload::Reloader>,
}

/// What a [`LiveService`] holds.
#[verifier::ext_equal]
pub struct LiveView<S> {
    /// The state that is passed to the handlers on every load.
    pub state: S,
    /// The generation that serves requests.
    pub current: Generation,
    pub config: ConfigView,
    pub status: StatusView,
    pub browser_reloader: Option<tower_livereload::Reloader>,
}

impl<S: Clone + Send + Sync + 'static> View for LiveService<S> {
    type V = LiveView<S>;

    closed spec fn view(&self) -> LiveView<S> {
        LiveView {
            state: self.state,
            current: slot_holds(self.generation),
            config: self.config@,
            status: StatusView {
                generation: self.bookkeeping.generation_counter,
                last_success: self.bookkeeping.last_success,
                last_error: text_view(self.bookkeeping.last_error),
            },
            browser_reloader: self.browser_reloader,
        }
    }
}

/// A service with its first generation in place.
pub open spec fn first_view<S>(
    state: S,
    config: ConfigView,
    browser_reloader: Option<tower_livereload::Reloader>,
    generation: Generation,
    now: Instant,
) -> LiveView<S> {
    LiveView {
        state,
        current: generation,
        config,
        status: StatusView { generation: 1, last_success: Some(now), last_error: None },
        browser_reloader,
    }
}

/// A request on its way: the router that answers it, and the generation that the router belongs
/// to, held until the answer is sent.
pub struct InFlight {
    pub router: axum::Router<()>,
    pub generation: Arc<Generation>,
}

impl InFlight {
    /// The request is answered by the generation's router and holds the generation.
    pub open spec fn is_pinned_to(self, generation: Generation) -> bool {
        *self.generation == generation && self.router == generation.router
    }
}

/// The steps of a reload.
pub enum Reload {
    /// Rebuilding and loading.
    Rebuilding(Stage),
    /// The new generation is in place; listing the staged files.
    Sweeping,
    /// Removing these files.
    Removing(Vec<PathBuf>),
    /// Telling the browsers.
    Pinging,
}

/// What a [`Reload`] says.
#[verifier::ext_equal]
pub enum ReloadView {
    Rebuilding(Stage),
    Sweeping,
    Removing(Seq<PathBuf>),
    Pinging,
}

impl View for Reload {
    type V = ReloadView;

    open spec fn view(&self) -> ReloadView {
        match *self {
            Reload::Rebuilding(stage) => ReloadView::Rebuilding(stage),
            Reload::Sweeping => ReloadView::Sweeping,
            Reload::Removing(paths) => ReloadView::Removing(paths@),
            Reload::Pinging => ReloadView::Pinging,
        }
    }
}

/// What is to be done at a step of a reload.
pub enum ReloadTask {
    /// This step of the rebuild.
    Rebuild(RebuildTask),
    /// List this directory.
    ListStaging(PathBuf),
    /// Remove these files, as far as they can be removed.
    Remove(Vec<PathBuf>),
    /// Tell the browsers to refresh.
    PingBrowsers,
}

/// What a [`ReloadTask`] says.
#[verifier::ext_equal]
pub enum ReloadTaskView {
    Rebuild(RebuildTaskView),
    ListStaging(PathBuf),
    Remove(Seq<PathBuf>),
    PingBrowsers,
}

impl View for ReloadTask {
    type V = ReloadTaskView;

    open spec fn view(&self) -> ReloadTaskView {
        match *self {
            ReloadTask::Rebuild(task) => ReloadTaskView::Rebuild(task@),
            ReloadTask::ListStaging(path) => ReloadTaskView::ListStaging(path),
            ReloadTask::Remove(paths) => ReloadTaskView::Remove(paths@),
            ReloadTask::PingBrowsers => ReloadTaskView::PingBrowsers,
        }
    }
}

/// What came of a [`ReloadTask`].
pub enum ReloadReport {
    Rebuild(RebuildReport),
    /// The staged files, or nothing where the directory could not be listed.
    Listed(Option<Vec<StagedFile>>),
    /// What could be removed is removed.
    Removed,
    /// The browsers have been told.
    Pinged,
}

/// How a reload goes on after a report.
pub enum ReloadStep {
    /// With this step.
    Running(Reload),
    /// It is over.
    Done(Result<(), HotReloadError>),
}

/// What a [`ReloadStep`] says.
#[verifier::ext_equal]
pub enum ReloadStepView {
    Running(ReloadView),
    Succeeded,
    Failed(ErrorView),
}

impl View for ReloadStep {
    type V = ReloadStepView;

    open spec fn view(&self) -> ReloadStepView {
        match *self {
            ReloadStep::Running(reload) => ReloadStepView::Running(reload@),
            ReloadStep::Done(Ok(_)) => ReloadStepView::Succeeded,
            ReloadStep::Done(Err(e)) => ReloadStepView::Failed(e@),
        }
    }
}

impl ReloadView {
    /// The report speaks of the step's task.
    pub open spec fn expects(self, report: ReloadReport) -> bool {
        match self {
            ReloadView::Rebuilding(stage) => match report {
                ReloadReport::Rebuild(report) => stage.expects(report),
                _ => false,
            },
            ReloadView::Sweeping => report is Listed,
            ReloadView::Removing(_) => report is Removed,
            ReloadView::Pinging => report is Pinged,
        }
    }

    /// What chance and the clock add to the report is what was drawn and read for it.
    pub open spec fn draws(
        self,
        config: ConfigView,
        report: ReloadReport,
        suffix: Seq<char>,
        now: Instant,
    ) -> bool {
        match (self, report) {
            (ReloadView::Rebuilding(stage), ReloadReport::Rebuild(report)) => stage.draws(
                config,
                report,
                suffix,
            ),
            (ReloadView::Removing(_), ReloadReport::Removed) => is_clock_reading(now),
            _ => true,
        }
    }

    /// The task of the step.
    pub open spec fn task_of(self, config: ConfigView) -> ReloadTaskView {
        match self {
            ReloadView::Rebuilding(stage) => ReloadTaskView::Rebuild(stage.task_of(config)),
            ReloadView::Sweeping => ReloadTaskView::ListStaging(
                staging_path(config.workspace_root),
            ),
            ReloadView::Removing(paths) => ReloadTaskView::Remove(paths),
            ReloadView::Pinging => ReloadTaskView::PingBrowsers,
        }
    }
}

/// The counter after one more generation. It wraps around at the end of its range.
pub open spec fn next_generation(generation: u64) -> u64 {
    if generation == u64::MAX {
        0
    } else {
        (generation + 1) as u64
    }
}

impl<S> LiveView<S> {
    /// With another generation in place.
    pub open spec fn serving(self, generation: Generation) -> LiveView<S> {
        LiveView { current: generation, ..self }
    }

    /// With one more success on record.
    pub open spec fn succeeded(self, now: Instant) -> LiveView<S> {
        LiveView {
            status: StatusView {
                generation: next_generation(self.status.generation),
                last_success: Some(now),
                last_error: None,
            },
            ..self
        }
    }

    /// With a failure on record.
    pub open spec fn failed(self, message: Seq<char>) -> LiveView<S> {
        LiveView { status: StatusView { last_error: Some(message), ..self.status }, ..self }
    }

    /// What the progress of the rebuild does. `detail` is the text of what a failure carries.
    pub open spec fn after_progress(self, progress: ProgressView, detail: Seq<char>) -> (
        LiveView<S>,
        ReloadStepView,
    ) {
        match progress {
            ProgressView::Next(next) => (
                self,
                ReloadStepView::Running(ReloadView::Rebuilding(next)),
            ),
            ProgressView::Loaded(generation) => (
                self.serving(generation),
                ReloadStepView::Running(ReloadView::Sweeping),
            ),
            ProgressView::Failed(e) => (self.failed(e.message(detail)), ReloadStepView::Failed(e)),
        }
    }

    /// What the listing of the staged files leads to.
    pub open spec fn after_listing(self, files: Option<Seq<StagedFile>>) -> ReloadStepView {
        match files {
            Some(files) => ReloadStepView::Running(
                ReloadView::Removing(swept(self.config.package, files)),
            ),
            None => ReloadStepView::Running(ReloadView::Removing(Seq::empty())),
        }
    }

    /// What the end of the sweep leads to.
    pub open spec fn after_sweep(self, now: Instant) -> (LiveView<S>, ReloadStepView) {
        (
            self.succeeded(now),
            if self.browser_reloader is Some {
                ReloadStepView::Running(ReloadView::Pinging)
            } else {
                ReloadStepView::Succeeded
            },
        )
    }

    /// What a report does to the service and to the reload that it belongs to. `suffix`, `detail`
    /// and `now` are what chance, the operating system and the clock add to it.
    pub open spec fn after(
        self,
        reload: ReloadView,
        report: ReloadReport,
        suffix: Seq<char>,
        detail: Seq<char>,
        now: Instant,
    ) -> (LiveView<S>, ReloadStepView) {
        match (reload, report) {
            (ReloadView::Rebuilding(stage), ReloadReport::Rebuild(report)) => self.after_progress(
                stage.after(self.config, report, suffix),
                detail,
            ),
            (ReloadView::Sweeping, ReloadReport::Listed(files)) => (
                self,
                self.after_listing(listing_view(files)),
            ),
            (ReloadView::Removing(_), ReloadReport::Removed) => self.after_sweep(now),
            (ReloadView::Pinging, ReloadReport::Pinged) => (self, ReloadStepView::Succeeded),
            _ => (self, ReloadStepView::Running(reload)),
        }
    }
}

/// The listed files, in order.
pub open spec fn listing_view(files: Option<Vec<StagedFile>>) -> Option<Seq<StagedFile>> {
    match files {
        Some(files) => Some(files@),
        None => None,
    }
}

impl<S: Clone + Send + Sync + 'static> LiveService<S> {
    /// A service with its first generation in place, which was loaded at the given time.
    pub fn bootstrap(
        state: S,
        config: ReloadConfig,
        browser_reloader: Option<tower_livereload::Reloader>,
        generation: Generation,
        now: Instant,
    ) -> (res: LiveService<S>)
        ensures
            res@ == first_view(state, config@, browser_reloader, generation, now),
            res@.state == state,
            res@.current == generation,
            res@.config == config@,
            res@.browser_reloader == browser_reloader,
            res@.status.generation == 1,
            res@.status.last_success == Some(now),
            res@.status.last_error is None,
    {
        LiveService {
            state,
            generation: GenerationSlot::from_pointee(generation),
            config,
            bookkeeping: Bookkeeping {
                generation_counter: 1,
                last_success: Some(now),
                last_error: None,
            },
            browser_reloader,
        }
    }

    /// Snapshot of the last reload's result and of the generation counter.
    pub fn status(&self) -> (res: ReloadStatus)
        ensures
            res@ == self@.status,
            res.generation == self@.status.generation,
            res.last_success == self@.status.last_success,
            match res.last_error {
                Some(message) => self@.status.last_error == Some(message@),
                None => self@.status.last_error is None,
            },
    {
        ReloadStatus {
            generation: self.bookkeeping.generation_counter,
            last_success: self.bookkeeping.last_success,
            last_error: self.bookkeeping.last_error.clone(),
        }
    }

    /// Takes up a request: pins the current generation for the lifetime of the response.
    pub fn call(&self) -> (res: InFlight)
        ensures
            res.is_pinned_to(self@.current),
            *res.generation == self@.current,
            res.router == self@.current.router,
    {
        let generation = self.generation.load_full();
        let router = generation.router.clone();
        InFlight { router, generation }
    }

    /// The state that a load passes to the handlers.
    pub fn state_for_load(&self) -> (res: S)
        ensures
            cloned(self@.state, res),
    {
        self.state.clone()
    }

    /// What is rebuilt, where, and with which cargo.
    pub fn config(&self) -> (res: &ReloadConfig)
        ensures
            res@ == self@.config,
    {
        &self.config
    }

    /// A reload at its start.
    pub fn begin_reload(&self) -> (res: Reload)
        ensures
            res@ == ReloadView::Rebuilding(Stage::Build),
    {
        Reload::Rebuilding(Stage::Build)
    }

    /// What is to be done at this step of a reload.
    pub fn reload_task(&self, reload: &Reload) -> (res: ReloadTask)
        ensures
            res@ == reload@.task_of(self@.config),
    {
        match reload {
            Reload::Rebuilding(stage) => ReloadTask::Rebuild(stage.task(&self.config)),
            Reload::Sweeping => ReloadTask::ListStaging(staging_dir(&self.config.workspace_root)),
            Reload::Removing(paths) => ReloadTask::Remove(clone_paths(paths)),
            Reload::Pinging => ReloadTask::PingBrowsers,
        }
    }

    /// Puts another generation in place. Requests that are on their way keep theirs.
    fn install(&mut self, generation: Generation)
        ensures
            final(self)@ == old(self)@.serving(generation),
            final(self)@.current == generation,
            final(self)@.status == old(self)@.status,
    {
        self.generation.store(Arc::new(generation));
    }

    /// Records a success.
    fn record_success(&mut self, now: Instant)
        ensures
            final(self)@ == old(self)@.succeeded(now),
            old(self)@.status.generation < u64::MAX ==> final(self)@.status.generation == old(
                self,
            )@.status.generation + 1,
            old(self)@.status.generation == u64::MAX ==> final(self)@.status.generation == 0,
            final(self)@.status.last_success == Some(now),
            final(self)@.status.last_error is None,
            final(self)@.current == old(self)@.current,
    {
        self.bookkeeping.last_success = Some(now);
        self.bookkeeping.last_error = None;
        self.bookkeeping.generation_counter = self.bookkeeping.generation_counter.wrapping_add(1);
    }

    /// Records a failure.
    fn record_failure(&mut self, message: String)
        ensures
            final(self)@ == old(self)@.failed(message@),
            final(self)@.status.last_error == Some(message@),
            final(self)@.status.generation == old(self)@.status.generation,
            final(self)@.status.last_success == old(self)@.status.last_success,
            final(self)@.current == old(self)@.current,
    {
        self.bookkeeping.last_error = Some(message);
    }

    /// Takes the progress of the rebuild. `detail` is the text of what a failure carries.
    pub fn progress_step(&mut self, progress: Progress, detail: &str) -> (res: ReloadStep)
        ensures
            (final(self)@, res@) == old(self)@.after_progress(progress@, detail@),
    {
        match progress {
            Progress::Next(next) => ReloadStep::Running(Reload::Rebuilding(next)),
            Progress::Loaded(generation) => {
                self.install(generation);
                ReloadStep::Running(Reload::Sweeping)
            },
            Progress::Failed(e) => {
                let message = e.message_with(detail);
                self.record_failure(message);
                ReloadStep::Done(Err(e))
            },
        }
    }

    /// Takes the listing of the staged files.
    pub fn listing_step(&self, files: &Option<Vec<StagedFile>>) -> (res: ReloadStep)
        ensures
            res@ == self@.after_listing(listing_view(*files)),
    {
        match files {
            Some(files) => ReloadStep::Running(
                Reload::Removing(sweep_staging(self.config.package.as_str(), files)),
            ),
            None => ReloadStep::Running(Reload::Removing(Vec::new())),
        }
    }

    /// Takes word that the sweep is over: the reload has succeeded.
    pub fn success_step(&mut self, now: Instant) -> (res: ReloadStep)
        ensures
            (final(self)@, res@) == old(self)@.after_sweep(now),
            old(self)@.status.generation < u64::MAX ==> final(self)@.status.generation == old(
                self,
            )@.status.generation + 1,
            final(self)@.status.last_success == Some(now),
            final(self)@.status.last_error is None,
            final(self)@.current == old(self)@.current,
    {
        self.record_success(now);
        if self.browser_reloader.is_some() {
            ReloadStep::Running(Reload::Pinging)
        } else {
            ReloadStep::Done(Ok(()))
        }
    }

    /// Takes the report on a step of a reload. A report on something else changes nothing.
    pub fn reload_step(&mut self, reload: Reload, report: ReloadReport) -> (res: ReloadStep)
        ensures
            exists|suffix: Seq<char>, detail: Seq<char>, now: Instant|
                reload@.draws(old(self)@.config, report, suffix, now) && (
                res@ matches ReloadStepView::Failed(e) ==> e.is_detailed_by(detail)) && (
                    final(self)@,
                    res@,
                ) == #[trigger] old(self)@.after(reload@, report, suffix, detail, now),
    {
        let ghost was = self@;
        let ghost phase = reload@;
        let ghost told = report;
        let ghost nothing = Seq::<char>::empty();
        match (reload, report) {
            (Reload::Rebuilding(stage), ReloadReport::Rebuild(report)) => {
                let suffix = stage.fresh_suffix(&report);
                let progress = stage.advance_with(&self.config, report, suffix.as_str());
                let detail = match &progress {
                    Progress::Failed(e) => e.detail(),
                    _ => String::new(),
                };
                let res = self.progress_step(progress, detail.as_str());
                assert((self@, res@) == was.after(phase, told, suffix@, detail@, arbitrary()));
                res
            },
            (Reload::Sweeping, ReloadReport::Listed(files)) => {
                let res = self.listing_step(&files);
                assert((self@, res@) == was.after(phase, told, nothing, nothing, arbitrary()));
                res
            },
            (Reload::Removing(_), ReloadReport::Removed) => {
                let now = Instant::now();
                let res = self.success_step(now);
                assert((self@, res@) == was.after(phase, told, nothing, nothing, now));
                res
            },
            (Reload::Pinging, ReloadReport::Pinged) => {
                let res = ReloadStep::Done(Ok(()));
                assert((self@, res@) == was.after(phase, told, nothing, nothing, arbitrary()));
                res
            },
            (reload, _) => {
                let res = ReloadStep::Running(reload);
                assert((self@, res@) == was.after(phase, told, nothing, nothing, arbitrary()));
                res
            },
        }
    }

    /// The handle of the connected browsers, where there is one.
    pub fn browser_reloader(&self) -> (res: Option<&tower_livereload::Reloader>)
        ensures
            match res {
                Some(reloader) => self@.browser_reloader == Some(*reloader),
                None => self@.browser_reloader is None,
            },
    {
        self.browser_reloader.as_ref()
    }

    /// Tells the connected browsers to refresh: calls the handle, where there is one.
    pub fn ping_browsers(&self)
        ensures
            self@.browser_reloader matches Some(reloader) ==> has_been_told(reloader),
    {
        if let Some(reloader) = self.browser_reloader() {
            send_reload(reloader);
        }
    }
}

/// The same paths again.
pub(crate) fn clone_paths(paths: &Vec<PathBuf>) -> (res: Vec<PathBuf>)
    ensures
        res@ == paths@,
{
    let mut res: Vec<PathBuf> = Vec::new();
    let mut i: usize = 0;
    while i < paths.len()
        invariant
            i <= paths@.len(),
            res@ == paths@.take(i as int),
        decreases paths@.len() - i,
    {
        res.push(paths[i].clone());
        i += 1;
        assert(res@ =~= paths@.take(i as int));
    }
    assert(paths@.take(i as int) =~= paths@);
    res
}

/// A report on a reload, with what chance, the operating system and the clock add to it.
pub struct Input {
    pub report: ReloadReport,
    pub suffix: Seq<char>,
    pub detail: Seq<char>,
    pub now: Instant,
}

impl Input {
    /// The report speaks of the task of the step, and what is added to it is what was drawn, read
    /// and told for it.
    pub open spec fn is_for<S>(self, live: LiveView<S>, reload: ReloadView) -> bool {
        &&& reload.expects(self.report)
        &&& reload.draws(live.config, self.report, self.suffix, self.now)
        &&& live.after(reload, self.report, self.suffix, self.detail, self.now).1 matches
            ReloadStepView::Failed(e) ==> e.is_detailed_by(self.detail)
    }
}

/// Each of the reports is for the step that the reload, begun on `live`, has come to.
pub open spec fn is_run<S>(live: LiveView<S>, inputs: Seq<Input>) -> bool
    decreases inputs.len(),
{
    inputs.len() == 0 || (is_run(live, inputs.drop_last()) && {
        let (now_live, step) = end_of(live, inputs.drop_last());
        step matches ReloadStepView::Running(reload) && inputs.last().is_for(now_live, reload)
    })
}

/// The service and the reload, begun on `live`, after the reports.
pub open spec fn end_of<S>(live: LiveView<S>, inputs: Seq<Input>) -> (LiveView<S>, ReloadStepView)
    decreases inputs.len(),
{
    if inputs.len() == 0 {
        (live, ReloadStepView::Running(ReloadView::Rebuilding(Stage::Build)))
    } else {
        let (now_live, step) = end_of(live, inputs.drop_last());
        let last = inputs.last();
        match step {
            ReloadStepView::Running(reload) => now_live.after(
                reload,
                last.report,
                last.suffix,
                last.detail,
                last.now,
            ),
            _ => (now_live, step),
        }
    }
}

/// How far a reload has come.
pub open spec fn progress(step: ReloadStepView) -> nat {
    match step {
        ReloadStepView::Running(ReloadView::Rebuilding(stage)) => rank(stage),
        ReloadStepView::Running(ReloadView::Sweeping) => 5,
        ReloadStepView::Running(ReloadView::Removing(_)) => 6,
        ReloadStepView::Running(ReloadView::Pinging) => 7,
        _ => 8,
    }
}

/// The state that the host owns, the configuration and the browsers' handle survive every step
/// of every reload.
pub proof fn law_host_state_survives<S>(
    live: LiveView<S>,
    reload: ReloadView,
    report: ReloadReport,
    suffix: Seq<char>,
    detail: Seq<char>,
    now: Instant,
)
    ensures
        ({
            let after = live.after(reload, report, suffix, detail, now).0;
            &&& after.state == live.state
            &&& after.config == live.config
            &&& after.browser_reloader == live.browser_reloader
        }),
{
}

/// The generation that serves requests changes in one step alone, that in which a new one has
/// been loaded, and then to that one: the next request hits the new code.
pub proof fn law_only_a_load_swaps_the_generation<S>(
    live: LiveView<S>,
    reload: ReloadView,
    report: ReloadReport,
    suffix: Seq<char>,
    detail: Seq<char>,
    now: Instant,
)
    requires
        reload.expects(report),
    ensures
        live.after(reload, report, suffix, detail, now).0.current == match report {
            ReloadReport::Rebuild(RebuildReport::Loaded(Ok(generation))) => generation,
            _ => live.current,
        },
{
}

/// The counter moves, by one, in one step alone, that in which a reload is recorded as a success,
/// and that step also sets the time of the last success and clears the last error.
pub proof fn law_counter_counts_successes<S>(
    live: LiveView<S>,
    reload: ReloadView,
    report: ReloadReport,
    suffix: Seq<char>,
    detail: Seq<char>,
    now: Instant,
)
    requires
        reload.expects(report),
    ensures
        ({
            let after = live.after(reload, report, suffix, detail, now).0.status;
            if reload is Removing {
                &&& after.generation == next_generation(live.status.generation)
                &&& live.status.generation < u64::MAX ==> after.generation
                    == live.status.generation + 1
                &&& live.status.generation == u64::MAX ==> after.generation == 0
                &&& after.last_success == Some(now)
                &&& after.last_error is None
            } else {
                &&& after.generation == live.status.generation
                &&& after.last_success == live.status.last_success
            }
        }),
{
}

/// The last error is what the last reload failed with: a step in which a reload fails records the
/// message of that failure, the step in which one succeeds clears it, and no other step touches
/// it. A failure leaves the generation that serves in place.
pub proof fn law_last_error_tells_the_last_failure<S>(
    live: LiveView<S>,
    reload: ReloadView,
    report: ReloadReport,
    suffix: Seq<char>,
    detail: Seq<char>,
    now: Instant,
)
    requires
        reload.expects(report),
    ensures
        ({
            let (after, step) = live.after(reload, report, suffix, detail, now);
            match step {
                ReloadStepView::Failed(e) => {
                    &&& after.status.last_error == Some(e.message(detail))
                    &&& after.current == live.current
                },
                _ => if reload is Removing {
                    after.status.last_error is None
                } else {
                    after.status.last_error == live.status.last_error
                },
            }
        }),
{
}

/// How a reload goes on. While it rebuilds, it goes through the stages of the rebuild and fails
/// with the rebuild's own error; a generation that was loaded leads to the listing of the staged
/// files, the listing to the removal of those that are swept for the package (of none where
/// there is no listing), and the removal to the browsers, where there are any.
pub proof fn law_reload_goes_through_its_steps<S>(
    live: LiveView<S>,
    reload: ReloadView,
    report: ReloadReport,
    suffix: Seq<char>,
    detail: Seq<char>,
    now: Instant,
)
    requires
        reload.expects(report),
    ensures
        ({
            let step = live.after(reload, report, suffix, detail, now).1;
            match (reload, report) {
                (ReloadView::Rebuilding(stage), ReloadReport::Rebuild(report)) => match stage.after(
                    live.config,
                    report,
                    suffix,
                ) {
                    ProgressView::Next(next) => step == ReloadStepView::Running(
                        ReloadView::Rebuilding(next),
                    ),
                    ProgressView::Loaded(_) => step == ReloadStepView::Running(
                        ReloadView::Sweeping,
                    ),
                    ProgressView::Failed(e) => step == ReloadStepView::Failed(e),
                },
                (ReloadView::Sweeping, ReloadReport::Listed(Some(files))) => step
                    == ReloadStepView::Running(
                    ReloadView::Removing(swept(live.config.package, files@)),
                ),
                (ReloadView::Sweeping, ReloadReport::Listed(None)) => step
                    == ReloadStepView::Running(ReloadView::Removing(Seq::empty())),
                (ReloadView::Removing(_), _) => if live.browser_reloader is Some {
                    step == ReloadStepView::Running(ReloadView::Pinging)
                } else {
                    step is Succeeded
                },
                _ => step is Succeeded,
            }
        }),
{
}

/// What a reload asks for: the task of its stage while it rebuilds, then to list the staging
/// directory of the workspace, to remove the very files that were chosen, in their order, and to
/// tell the browsers.
pub proof fn law_reload_asks_for_its_tasks<S: Clone + Send + Sync + 'static>(
    live: LiveService<S>,
    reload: Reload,
    config: &ReloadConfig,
    staging: PathBuf,
    res: ReloadTask,
)
    requires
        call_ensures(LiveService::<S>::config, (&live,), config),
        call_ensures(staging_dir, (&config.workspace_root,), staging),
        call_ensures(LiveService::<S>::reload_task, (&live, &reload), res),
    ensures
        match reload {
            Reload::Rebuilding(stage) => res matches ReloadTask::Rebuild(task) && task@
                == stage.task_of(config@),
            Reload::Sweeping => res == ReloadTask::ListStaging(staging),
            Reload::Removing(chosen) => res matches ReloadTask::Remove(paths) && paths@ == chosen@,
            Reload::Pinging => res is PingBrowsers,
        },
{
}

/// What chance and the clock add to a step is what was drawn and read for it: a copy's suffix was
/// drawn, and the time of a success is a reading of the clock.
pub proof fn law_successes_are_timed_by_the_clock(
    config: ConfigView,
    paths: Seq<PathBuf>,
    suffix: Seq<char>,
    now: Instant,
)
    ensures
        ReloadView::Removing(paths).draws(config, ReloadReport::Removed, suffix, now)
            ==> call_ensures(Instant::now, (), now),
        ReloadView::Rebuilding(Stage::Prepare).draws(
            config,
            ReloadReport::Rebuild(RebuildReport::DirCreated(Ok(()))),
            suffix,
            now,
        ) ==> is_fresh_suffix(suffix) && config.has_staged(config.staged(suffix), suffix),
{
}

/// A handle that was told is one that the refresh was sent through.
proof fn law_told_handles_were_called(reloader: tower_livereload::Reloader)
    requires
        has_been_told(reloader),
    ensures
        call_ensures(send_reload, (&reloader,), ()),
{
}

/// A reload is told to the browsers when it has succeeded, and only then; where there are
/// browsers to tell, it does not end in success before they have been told.
pub proof fn law_browsers_are_told_of_every_success<S>(
    live: LiveView<S>,
    reload: ReloadView,
    report: ReloadReport,
    suffix: Seq<char>,
    detail: Seq<char>,
    now: Instant,
)
    requires
        reload.expects(report),
    ensures
        ({
            let step = live.after(reload, report, suffix, detail, now).1;
            &&& step == ReloadStepView::Running(ReloadView::Pinging) <==> reload is Removing
                && live.browser_reloader is Some
            &&& step is Succeeded <==> reload is Pinging || (reload is Removing
                && live.browser_reloader is None)
        }),
{
}

/// One of the reports brought this generation.
pub open spec fn brought(inputs: Seq<Input>, generation: Generation) -> bool {
    exists|i: int|
        0 <= i < inputs.len() && (#[trigger] inputs[i]).report == ReloadReport::Rebuild(
            RebuildReport::Loaded(Ok(generation)),
        )
}

/// What a reload has done to the service when its reports have brought it to `step`.
pub open spec fn is_outcome<S>(
    live: LiveView<S>,
    inputs: Seq<Input>,
    after: LiveView<S>,
    step: ReloadStepView,
) -> bool {
    match step {
        ReloadStepView::Running(ReloadView::Rebuilding(_)) => after == live,
        ReloadStepView::Running(ReloadView::Sweeping) => exists|generation: Generation| #[trigger]
            brought(inputs, generation) && after == live.serving(generation),
        ReloadStepView::Running(ReloadView::Removing(_)) => exists|generation: Generation|
         #[trigger]
            brought(inputs, generation) && after == live.serving(generation),
        ReloadStepView::Running(ReloadView::Pinging) => live.browser_reloader is Some && exists|
            generation: Generation,
            now: Instant,
        |
            brought(inputs, generation) && is_clock_reading(now) && after
                == #[trigger] live.serving(generation).succeeded(now),
        ReloadStepView::Succeeded => exists|generation: Generation, now: Instant|
            brought(inputs, generation) && is_clock_reading(now) && after
                == #[trigger] live.serving(generation).succeeded(now),
        ReloadStepView::Failed(e) => exists|detail: Seq<char>|
            e.is_detailed_by(detail) && after == #[trigger] live.failed(e.message(detail)),
    }
}

proof fn lemma_brought_earlier(inputs: Seq<Input>, generation: Generation)
    requires
        inputs.len() > 0,
        brought(inputs.drop_last(), generation),
    ensures
        brought(inputs, generation),
{
    let before = inputs.drop_last();
    let i = choose|i: int|
        0 <= i < before.len() && (#[trigger] before[i]).report == ReloadReport::Rebuild(
            RebuildReport::Loaded(Ok(generation)),
        );
    assert(inputs[i] == before[i]);
}

/// A reload that no other one runs beside is all or nothing. One that ends in success has put the
/// generation that it loaded in place and recorded the success; one that ends in an error has
/// changed nothing but the last error, so the old generation goes on serving. While it runs, the
/// old generation serves until the new one is loaded.
pub proof fn law_reload_is_all_or_nothing<S>(live: LiveView<S>, inputs: Seq<Input>)
    requires
        is_run(live, inputs),
    ensures
        is_outcome(live, inputs, end_of(live, inputs).0, end_of(live, inputs).1),
    decreases inputs.len(),
{
    if inputs.len() > 0 {
        let before = inputs.drop_last();
        law_reload_is_all_or_nothing(live, before);
        let (was, step) = end_of(live, before);
        let (is, next) = end_of(live, inputs);
        let last = inputs.last();
        match step->Running_0 {
            ReloadView::Rebuilding(stage) => {
                let report = last.report->Rebuild_0;
                match stage.after(live.config, report, last.suffix) {
                    ProgressView::Next(_) => {},
                    ProgressView::Loaded(generation) => {
                        assert(inputs[inputs.len() - 1].report == ReloadReport::Rebuild(
                            RebuildReport::Loaded(Ok(generation)),
                        ));
                        assert(brought(inputs, generation));
                    },
                    ProgressView::Failed(e) => {
                        assert(is == live.failed(e.message(last.detail)));
                    },
                }
            },
            ReloadView::Sweeping => {
                let generation = choose|generation: Generation| #[trigger]
                    brought(before, generation) && was == live.serving(generation);
                lemma_brought_earlier(inputs, generation);
            },
            ReloadView::Removing(_) => {
                let generation = choose|generation: Generation| #[trigger]
                    brought(before, generation) && was == live.serving(generation);
                lemma_brought_earlier(inputs, generation);
                assert(is == live.serving(generation).succeeded(last.now));
            },
            ReloadView::Pinging => {
                let (generation, now) = choose|generation: Generation, now: Instant|
                    brought(before, generation) && is_clock_reading(now) && was
                        == #[trigger] live.serving(generation).succeeded(now);
                lemma_brought_earlier(inputs, generation);
                assert(is == live.serving(generation).succeeded(now));
            },
        }
    }
}

/// The service after the given reloads, one behind the other.
pub open spec fn after_reloads<S>(live: LiveView<S>, reloads: Seq<Seq<Input>>) -> LiveView<S>
    decreases reloads.len(),
{
    if reloads.len() == 0 {
        live
    } else {
        end_of(after_reloads(live, reloads.drop_last()), reloads.last()).0
    }
}

/// How the last of the given reloads ended.
pub open spec fn last_outcome<S>(live: LiveView<S>, reloads: Seq<Seq<Input>>) -> ReloadStepView {
    end_of(after_reloads(live, reloads.drop_last()), reloads.last()).1
}

/// Each of the reloads was run to its end on the service as the ones before it left it.
pub open spec fn are_reloads<S>(live: LiveView<S>, reloads: Seq<Seq<Input>>) -> bool
    decreases reloads.len(),
{
    reloads.len() == 0 || {
        &&& are_reloads(live, reloads.drop_last())
        &&& is_run(after_reloads(live, reloads.drop_last()), reloads.last())
        &&& last_outcome(live, reloads) is Succeeded || last_outcome(live, reloads) is Failed
    }
}

/// How many of the reloads succeeded.
pub open spec fn successes<S>(live: LiveView<S>, reloads: Seq<Seq<Input>>) -> nat
    decreases reloads.len(),
{
    if reloads.len() == 0 {
        0
    } else {
        successes(live, reloads.drop_last()) + if last_outcome(live, reloads) is Succeeded {
            1nat
        } else {
            0
        }
    }
}

/// The counter goes up by one with each reload that succeeds, and by nothing else: after any
/// reloads, of which some succeeded and some failed, it is the sum of what it was and the number
/// of those that succeeded, as long as that is in its range.
pub proof fn law_counter_adds_up<S>(live: LiveView<S>, reloads: Seq<Seq<Input>>)
    requires
        are_reloads(live, reloads),
        live.status.generation + successes(live, reloads) <= u64::MAX,
    ensures
        after_reloads(live, reloads).status.generation == live.status.generation + successes(
            live,
            reloads,
        ),
    decreases reloads.len(),
{
    if reloads.len() > 0 {
        let before = reloads.drop_last();
        law_counter_adds_up(live, before);
        law_reload_is_all_or_nothing(after_reloads(live, before), reloads.last());
    }
}

/// After `n` successful reloads from the start, whatever failed between them, the status says
/// `n + 1`.
pub proof fn law_status_counts_from_one<S: Clone + Send + Sync + 'static>(
    state: S,
    config: ReloadConfig,
    browser_reloader: Option<tower_livereload::Reloader>,
    generation: Generation,
    now: Instant,
    first: LiveService<S>,
    reloads: Seq<Seq<Input>>,
    live: LiveService<S>,
    n: nat,
    status: ReloadStatus,
)
    requires
        call_ensures(
            LiveService::<S>::bootstrap,
            (state, config, browser_reloader, generation, now),
            first,
        ),
        are_reloads(first@, reloads),
        successes(first@, reloads) == n,
        n < u64::MAX,
        live@ == after_reloads(first@, reloads),
        call_ensures(LiveService::<S>::status, (&live,), status),
    ensures
        status.generation == n + 1,
{
    law_counter_adds_up(first@, reloads);
}

/// Requests finish on the generation that they started on. One that was taken up before a reload
/// is answered by the old generation's router, however the reload ends; one that is taken up
/// after a successful reload is answered by the router of the generation that the reload loaded.
pub proof fn law_requests_keep_their_generation<S>(
    live: LiveView<S>,
    inputs: Seq<Input>,
    early: InFlight,
    late: InFlight,
)
    requires
        is_run(live, inputs),
        early.is_pinned_to(live.current),
        late.is_pinned_to(end_of(live, inputs).0.current),
    ensures
        early.router == live.current.router,
        end_of(live, inputs).1 is Failed ==> late.router == live.current.router,
        end_of(live, inputs).1 is Succeeded ==> exists|generation: Generation| #[trigger]
            brought(inputs, generation) && late.is_pinned_to(generation) && late.router
                == generation.router,
{
    law_reload_is_all_or_nothing(live, inputs);
    if end_of(live, inputs).1 is Succeeded {
        let (generation, now) = choose|generation: Generation, now: Instant|
            brought(inputs, generation) && end_of(live, inputs).0 == #[trigger] live.serving(
                generation,
            ).succeeded(now);
        assert(brought(inputs, generation) && late.is_pinned_to(generation));
    }
}

/// Every report brings a reload forward, so that it ends after eight of them at most.
pub proof fn law_reload_ends<S>(live: LiveView<S>, inputs: Seq<Input>)
    requires
        is_run(live, inputs),
    ensures
        inputs.len() <= progress(end_of(live, inputs).1) <= 8,
    decreases inputs.len(),
{
    if inputs.len() > 0 {
        law_reload_ends(live, inputs.drop_last());
    }
}

/// Each step of a reload expects the report on its own task, and every such report, whatever it
/// says.
pub proof fn law_steps_expect_their_reports(reload: ReloadView, report: ReloadReport)
    ensures
        reload.expects(report) <==> match report {
            ReloadReport::Rebuild(report) => reload is Rebuilding
                && reload->Rebuilding_0.expects(report),
            ReloadReport::Listed(_) => reload is Sweeping,
            ReloadReport::Removed => reload is Removing,
            ReloadReport::Pinged => reload is Pinging,
        },
{
}

/// A step of a reload is seen as what it is: a reload that is over has succeeded exactly where it
/// gives no error, and failed with the error that it gives.
pub proof fn law_steps_are_seen_as_they_are(step: ReloadStep)
    ensures
        match step {
            ReloadStep::Done(Ok(_)) => step@ is Succeeded,
            ReloadStep::Done(Err(e)) => step@ == ReloadStepView::Failed(e@),
            ReloadStep::Running(Reload::Rebuilding(stage)) => step@ == ReloadStepView::Running(
                ReloadView::Rebuilding(stage),
            ),
            ReloadStep::Running(Reload::Sweeping) => step@ == ReloadStepView::Running(
                ReloadView::Sweeping,
            ),
            ReloadStep::Running(Reload::Removing(paths)) => step@ == ReloadStepView::Running(
                ReloadView::Removing(paths@),
            ),
            ReloadStep::Running(Reload::Pinging) => step@ == ReloadStepView::Running(
                ReloadView::Pinging,
            ),
        },
{
}

/// A report on something else than the step's task changes neither the service nor the reload.
pub proof fn law_other_reports_change_nothing<S>(
    live: LiveView<S>,
    reload: ReloadView,
    report: ReloadReport,
    suffix: Seq<char>,
    detail: Seq<char>,
    now: Instant,
)
    requires
        !reload.expects(report),
    ensures
        live.after(reload, report, suffix, detail, now) == (
            live,
            ReloadStepView::Running(reload),
        ),
{
}

} // verus!
