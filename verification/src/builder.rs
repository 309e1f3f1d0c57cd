//! The builder and the reloader that it leads to.

use crate::artifact::{whole_secs, Platform};
use crate::live::{LiveService, LiveView, ReloadStatus};
use crate::paths::{from_text, path_from};
use crate::startup::{settings_of, Settings, Startup, StartupView};
use std::path::PathBuf;
use std::time::Duration;
use tower_livereload::LiveReloadLayer;
use vstd::prelude::*;

verus! {

/// `tower_livereload::LiveReloadLayer`, the layer that makes browsers listen for refreshes.
#[verifier::external_type_specification]
#[verifier::external_body]
#[verifier::reject_recursive_types(ReqPred)]
#[verifier::reject_recursive_types(ResPred)]
pub struct ExLiveReloadLayer<ReqPred, ResPred>(tower_livereload::LiveReloadLayer<ReqPred, ResPred>);

/// `tower_livereload::predicate::Always`, a parameter of the layer's type.
#[verifier::external_type_specification]
#[verifier::external_body]
pub struct ExAlways(tower_livereload::predicate::Always);

/// `tower_livereload::predicate::ContentTypeStartsWith`, a parameter of the layer's type.
#[verifier::external_type_specification]
#[verifier::external_body]
#[verifier::reject_recursive_types(Patt)]
pub struct ExContentTypeStartsWith<Patt>(tower_livereload::predicate::ContentTypeStartsWith<Patt>);

/// The handle that tells a layer's browsers to refresh.
pub uninterp spec fn layer_reloader(layer: LiveReloadLayer) -> tower_livereload::Reloader;

/// `LiveReloadLayer::new`: a layer with default settings and a handle of its own. Nothing is
/// said of it, since no two of them are the same.
#[verifier::external_body]
fn new_layer() -> LiveReloadLayer {
    LiveReloadLayer::new()
}

/// The layer is one that [`new_layer`] gave.
pub closed spec fn is_new_layer(layer: LiveReloadLayer) -> bool {
    call_ensures(new_layer, (), layer)
}

/// Makes a layer.
pub(crate) fn make_layer() -> (res: LiveReloadLayer)
    ensures
        is_new_layer(res),
{
    new_layer()
}

/// `LiveReloadLayer::reloader`: the layer's own handle.
#[verifier::external_body]
pub(crate) fn reloader_of(layer: &LiveReloadLayer) -> (res: tower_livereload::Reloader)
    ensures
        res == layer_reloader(*layer),
{
    layer.reloader()
}

/// The duration of that many milliseconds.
pub uninterp spec fn duration_millis(millis: u64) -> Duration;

/// `Duration::from_millis` gives the duration of that many milliseconds, a thousand of which are
/// a whole second.
pub assume_specification[ Duration::from_millis ](millis: u64) -> (res: Duration)
    ensures
        res == duration_millis(millis),
        whole_secs(res) == millis / 1000,
;

/// A running reloader: the live service and the layer that refreshes its browsers.
pub struct HotReload<S: Clone + Send + Sync + 'static> {
    live: LiveService<S>,
    /// Layer that injects a script into HTML responses and serves the endpoint that browsers
    /// poll to refresh themselves.
    browser_layer: LiveReloadLayer,
}

/// What a [`HotReload`] holds.
#[verifier::ext_equal]
pub struct HotReloadView<S> {
    pub live: LiveView<S>,
    pub browser_layer: LiveReloadLayer,
}

impl<S: Clone + Send + Sync + 'static> View for HotReload<S> {
    type V = HotReloadView<S>;

    closed spec fn view(&self) -> HotReloadView<S> {
        HotReloadView { live: self.live@, browser_layer: self.browser_layer }
    }
}

impl<S: Clone + Send + Sync + 'static> HotReload<S> {
    /// A builder with its defaults.
    pub fn builder() -> (res: HotReloadBuilder<S>)
        ensures
            res@ == default_builder::<S>(),
    {
        HotReloadBuilder::new()
    }

    /// A reloader of these parts.
    pub(crate) fn new(live: LiveService<S>, browser_layer: LiveReloadLayer) -> (res: HotReload<S>)
        ensures
            res@ == (HotReloadView { live: live@, browser_layer }),
    {
        HotReload { live, browser_layer }
    }

    /// The live service that dispatches into the swappable handlers.
    pub fn service(&self) -> (res: &LiveService<S>)
        ensures
            res@ == self@.live,
    {
        &self.live
    }

    /// Snapshot of the last build result and generation counter.
    pub fn status(&self) -> (res: ReloadStatus)
        ensures
            res@ == self@.live.status,
    {
        self.live.status()
    }

    /// The live service and the browsers' layer.
    pub fn into_parts(self) -> (res: (LiveService<S>, LiveReloadLayer))
        ensures
            res.0@ == self@.live,
            res.1 == self@.browser_layer,
    {
        (self.live, self.browser_layer)
    }
}

/// Builder for [`HotReload`].
pub struct HotReloadBuilder<S: Clone + Send + Sync + 'static> {
    package: Option<String>,
    workspace_root: Option<PathBuf>,
    watch_dirs: Vec<PathBuf>,
    state: Option<S>,
    debounce: Duration,
    cargo: PathBuf,
    enable_watcher: bool,
}

/// What a [`HotReloadBuilder`] is set to.
#[verifier::ext_equal]
pub struct BuilderView<S> {
    pub package: Option<Seq<char>>,
    pub workspace_root: Option<PathBuf>,
    pub watch_dirs: Seq<PathBuf>,
    pub state: Option<S>,
    pub debounce: Duration,
    pub cargo: PathBuf,
    pub enable_watcher: bool,
}

impl<S: Clone + Send + Sync + 'static> View for HotReloadBuilder<S> {
    type V = BuilderView<S>;

    closed spec fn view(&self) -> BuilderView<S> {
        BuilderView {
            package: match self.package {
                Some(name) => Some(name@),
                None => None,
            },
            workspace_root: self.workspace_root,
            watch_dirs: self.watch_dirs@,
            state: self.state,
            debounce: self.debounce,
            cargo: self.cargo,
            enable_watcher: self.enable_watcher,
        }
    }
}

/// The settings of a builder on which nothing has been set.
pub open spec fn default_builder<S>() -> BuilderView<S> {
    BuilderView {
        package: None,
        workspace_root: None,
        watch_dirs: Seq::empty(),
        state: None,
        debounce: duration_millis(250),
        cargo: path_from("cargo"@),
        enable_watcher: true,
    }
}

impl<S: Clone + Send + Sync + 'static> HotReloadBuilder<S> {
    /// A builder with its defaults.
    pub fn new() -> (res: HotReloadBuilder<S>)
        ensures
            res@ == default_builder::<S>(),
    {
        HotReloadBuilder {
            package: None,
            workspace_root: None,
            watch_dirs: Vec::new(),
            state: None,
            debounce: Duration::from_millis(250),
            cargo: from_text("cargo"),
            enable_watcher: true,
        }
    }

    /// The cargo package name of the cdylib to rebuild on change. Required.
    pub fn package(self, name: String) -> (res: HotReloadBuilder<S>)
        ensures
            res@ == (BuilderView { package: Some(name@), ..self@ }),
    {
        let mut res = self;
        res.package = Some(name);
        res
    }

    /// Workspace root (the directory containing `Cargo.toml`). Defaults to the current directory
    /// at the time the reloader is built.
    pub fn workspace_root(self, p: PathBuf) -> (res: HotReloadBuilder<S>)
        ensures
            res@ == (BuilderView { workspace_root: Some(p), ..self@ }),
    {
        let mut res = self;
        res.workspace_root = Some(p);
        res
    }

    /// Directory to watch for changes that should trigger a rebuild.
    ///
    /// May be called multiple times to watch multiple directories. If never called, defaults to
    /// the source directory of the package.
    pub fn watch_dir(self, p: PathBuf) -> (res: HotReloadBuilder<S>)
        ensures
            res@ == (BuilderView { watch_dirs: self@.watch_dirs.push(p), ..self@ }),
    {
        let mut res = self;
        res.watch_dirs.push(p);
        res
    }

    /// State passed to the handlers on every load. Required.
    pub fn state(self, s: S) -> (res: HotReloadBuilder<S>)
        ensures
            res@ == (BuilderView { state: Some(s), ..self@ }),
    {
        let mut res = self;
        res.state = Some(s);
        res
    }

    /// Debounce window for collapsing rapid file system events. Default 250ms.
    pub fn debounce(self, d: Duration) -> (res: HotReloadBuilder<S>)
        ensures
            res@ == (BuilderView { debounce: d, ..self@ }),
    {
        let mut res = self;
        res.debounce = d;
        res
    }

    /// Overrides the cargo executable used for rebuilds. Defaults to `cargo`.
    pub fn cargo(self, c: PathBuf) -> (res: HotReloadBuilder<S>)
        ensures
            res@ == (BuilderView { cargo: c, ..self@ }),
    {
        let mut res = self;
        res.cargo = c;
        res
    }

    /// Disables the file watcher.
    pub fn without_watcher(self) -> (res: HotReloadBuilder<S>)
        ensures
            res@ == (BuilderView { enable_watcher: false, ..self@ }),
    {
        let mut res = self;
        res.enable_watcher = false;
        res
    }

    /// What is missing before the reloader can be built, if anything.
    pub fn missing(&self) -> (res: Option<&'static str>)
        ensures
            match res {
                Some(complaint) => complaint@ == if self@.package is None {
                    "HotReloadBuilder::package is required"@
                } else {
                    "HotReloadBuilder::state is required"@
                },
                None => true,
            },
            res is None <==> self@.package is Some && self@.state is Some,
    {
        if self.package.is_none() {
            Some("HotReloadBuilder::package is required")
        } else if self.state.is_none() {
            Some("HotReloadBuilder::state is required")
        } else {
            None
        }
    }

    /// Begins to build the reloader: the initial build, the load of the first generation and the
    /// start of the watcher are the steps of the [`Startup`] that this returns.
    pub fn build(self, platform: Platform) -> (res: Startup<S>)
        requires
            self@.package is Some,
            self@.state is Some,
        ensures
            res.wf(),
            exists|layer: LiveReloadLayer|
                (res@ is Building ==> is_new_layer(layer)) && res@ == #[trigger] StartupView::first(
                    self@,
                    platform,
                    layer,
                ),
    {
        let settings = Settings {
            package: self.package.unwrap(),
            state: self.state.unwrap(),
            watch_dirs: self.watch_dirs,
            debounce: self.debounce,
            cargo: self.cargo,
            enable_watcher: self.enable_watcher,
            platform,
        };
        assert(settings@ == settings_of(self@, platform));
        match self.workspace_root {
            Some(root) => {
                let res = settings.at_root(root);
                proof {
                    let layer = choose|layer: LiveReloadLayer|
                        (res@ is Building ==> is_new_layer(layer)) && res@
                            == #[trigger] settings@.rooted(root, layer);
                    assert(res@ == StartupView::first(self@, platform, layer));
                }
                res
            },
            None => {
                let res = Startup::FindingRoot(settings);
                assert(res@ == StartupView::first(self@, platform, arbitrary()));
                res
            },
        }
    }
}

/// What a builder is set to before anything is set on it: no package, no workspace root, no
/// directory to watch and no state, a debounce window of a quarter of a second, the cargo of the
/// search path, and a watcher.
pub proof fn law_builder_defaults<S: Clone + Send + Sync + 'static>(res: HotReloadBuilder<S>)
    requires
        call_ensures(HotReload::<S>::builder, (), res) || call_ensures(
            HotReloadBuilder::<S>::new,
            (),
            res,
        ),
    ensures
        res@.package is None,
        res@.workspace_root is None,
        res@.watch_dirs.len() == 0,
        res@.state is None,
        res@.debounce == duration_millis(250),
        res@.cargo == path_from("cargo"@),
        res@.enable_watcher,
{
}

/// Setting a thing twice keeps the last of the two, but for the directories to watch, which are
/// all kept in the order in which they were set.
pub proof fn law_last_setting_wins<S: Clone + Send + Sync + 'static>(
    builder: HotReloadBuilder<S>,
    root_a: PathBuf,
    root_b: PathBuf,
    once: HotReloadBuilder<S>,
    twice: HotReloadBuilder<S>,
    dir_a: PathBuf,
    dir_b: PathBuf,
    one_dir: HotReloadBuilder<S>,
    two_dirs: HotReloadBuilder<S>,
)
    requires
        call_ensures(HotReloadBuilder::<S>::workspace_root, (builder, root_a), once),
        call_ensures(HotReloadBuilder::<S>::workspace_root, (once, root_b), twice),
        call_ensures(HotReloadBuilder::<S>::watch_dir, (builder, dir_a), one_dir),
        call_ensures(HotReloadBuilder::<S>::watch_dir, (one_dir, dir_b), two_dirs),
    ensures
        twice@.workspace_root == Some(root_b),
        twice@.watch_dirs == builder@.watch_dirs,
        two_dirs@.watch_dirs == builder@.watch_dirs + seq![dir_a, dir_b],
        two_dirs@.workspace_root == builder@.workspace_root,
{
    assert(two_dirs@.watch_dirs =~= builder@.watch_dirs + seq![dir_a, dir_b]);
}

/// A new layer is one that the outside crate made.
proof fn law_new_layers_are_made(layer: LiveReloadLayer)
    requires
        is_new_layer(layer),
    ensures
        call_ensures(new_layer, (), layer),
{
}

} // verus!
