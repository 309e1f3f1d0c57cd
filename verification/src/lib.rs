//! Hot reload for axum: the decisions of the reloader.
//!
//! A host program swaps an axum `Router` at run time by rebuilding the cdylib crate that holds its
//! handlers and loading it again. State owned by the host survives every reload, and requests in
//! flight finish on the generation they started on.
//!
//! The library decides and the driver acts: a startup, a reload and the watcher's debounce loop
//! are state machines that name the next task, take the report on it, and go on. The driver runs
//! cargo, touches files, opens dylibs and serves requests.

use vstd::prelude::*;

pub mod artifact;
pub mod builder;
pub mod error;
pub mod example;
pub mod live;
pub mod paths;
pub mod rebuild;
pub mod startup;
pub mod status;
pub mod text;
pub mod watcher;

pub use artifact::Platform;
pub use builder::{HotReload, HotReloadBuilder};
pub use error::HotReloadError;
pub use live::{LiveService, ReloadStatus};
pub use status::status_handler;

verus! {

/// The exact symbol name that the handlers cdylib must export.
///
/// Signature: `extern "Rust" fn(S) -> axum::Router<()>` where `S` is the state type configured on
/// the [`HotReload`] builder.
pub const BUILD_ROUTER_SYMBOL: &'static str = "axum_hotreload_build_router";

/// Finds the dylib that cargo would produce for `package`, given a workspace root.
pub fn dylib_path(
    workspace_root: &std::path::PathBuf,
    package: &str,
    platform: Platform,
) -> (res: std::path::PathBuf)
    ensures
        res == artifact::built_path(*workspace_root, package@, platform),
        paths::has_no_separator(package@) ==> paths::path_file_name(res) == Some(
            artifact::dylib_file_name(platform, package@),
        ) && paths::lies_in(res, "debug"@),
{
    artifact::built_dylib_path(workspace_root, package, platform)
}

} // verus!
