//! Errors produced by the reloader.

use crate::paths::{display, path_display};
use std::path::PathBuf;
use vstd::prelude::*;
use vstd::std_specs::convert::{FromSpec, FromSpecImpl};
use vstd::string::to_string_from_display_ensures;

verus! {

/// `std::io::Error`, carried as it came.
#[verifier::external_type_specification]
#[verifier::external_body]
pub struct ExIoError(std::io::Error);

/// `libloading::Error`, carried as it came.
#[verifier::external_type_specification]
#[verifier::external_body]
pub struct ExLibloadingError(libloading::Error);

/// `notify::Error`, carried as it came.
#[verifier::external_type_specification]
#[verifier::external_body]
pub struct ExNotifyError(notify::Error);

/// Errors produced by the reloader.
#[derive(Debug)]
pub enum HotReloadError {
    /// `cargo build` ran and failed; this is what it wrote to its standard error.
    Build(String),
    /// There is no dylib at the place where cargo should have put it.
    DylibMissing(PathBuf),
    /// The dylib could not be opened.
    Dlopen(libloading::Error),
    /// The dylib does not export this symbol.
    SymbolMissing(String),
    /// The function that builds the router panicked.
    BuildRouterPanic,
    /// A file or a process could not be worked with.
    Io(std::io::Error),
    /// The file watcher failed.
    Notify(notify::Error),
}

/// What a [`HotReloadError`] says.
#[verifier::ext_equal]
pub enum ErrorView {
    Build(Seq<char>),
    DylibMissing(PathBuf),
    Dlopen(libloading::Error),
    SymbolMissing(Seq<char>),
    BuildRouterPanic,
    Io(std::io::Error),
    Notify(notify::Error),
}

impl View for HotReloadError {
    type V = ErrorView;

    open spec fn view(&self) -> ErrorView {
        match *self {
            HotReloadError::Build(stderr) => ErrorView::Build(stderr@),
            HotReloadError::DylibMissing(path) => ErrorView::DylibMissing(path),
            HotReloadError::Dlopen(e) => ErrorView::Dlopen(e),
            HotReloadError::SymbolMissing(symbol) => ErrorView::SymbolMissing(symbol@),
            HotReloadError::BuildRouterPanic => ErrorView::BuildRouterPanic,
            HotReloadError::Io(e) => ErrorView::Io(e),
            HotReloadError::Notify(e) => ErrorView::Notify(e),
        }
    }
}

/// `text` is what `to_string` gives for the value.
pub open spec fn is_display_of<T: std::fmt::Display>(value: T, text: Seq<char>) -> bool {
    exists|s: String| #[trigger] to_string_from_display_ensures::<T>(&value, s) && s@ == text
}

impl ErrorView {
    /// The message of the error. `detail` is the text of the path or of the error that it carries,
    /// where it carries one.
    pub open spec fn message(self, detail: Seq<char>) -> Seq<char> {
        match self {
            ErrorView::Build(stderr) => "cargo build failed:\n"@ + stderr,
            ErrorView::DylibMissing(_) => "dylib not found at "@ + detail,
            ErrorView::Dlopen(_) => "dlopen failed: "@ + detail,
            ErrorView::SymbolMissing(symbol) => "required symbol `"@ + symbol
                + "` missing from handlers dylib"@,
            ErrorView::BuildRouterPanic => "panic in `axum_hotreload_build_router`"@,
            ErrorView::Io(_) => "io error: "@ + detail,
            ErrorView::Notify(_) => "watcher error: "@ + detail,
        }
    }

    /// `detail` is a text in which the path or the error that this error carries shows itself.
    /// Where it carries none, there is none.
    pub open spec fn is_detailed_by(self, detail: Seq<char>) -> bool {
        match self {
            ErrorView::DylibMissing(path) => detail == path_display(path),
            ErrorView::Dlopen(e) => is_display_of(e, detail),
            ErrorView::Io(e) => is_display_of(e, detail),
            ErrorView::Notify(e) => is_display_of(e, detail),
            _ => detail.len() == 0,
        }
    }

    /// The error carries a path or another error, whose text is part of its message.
    pub open spec fn has_detail(self) -> bool {
        self is DylibMissing || self is Dlopen || self is Io || self is Notify
    }
}

impl HotReloadError {
    /// The message of the error, given the text of the path or of the error that it carries.
    pub fn message_with(&self, detail: &str) -> (res: String)
        ensures
            res@ == self@.message(detail@),
    {
        match self {
            HotReloadError::Build(stderr) => "cargo build failed:\n".to_string().concat(
                stderr.as_str(),
            ),
            HotReloadError::DylibMissing(_) => "dylib not found at ".to_string().concat(detail),
            HotReloadError::Dlopen(_) => "dlopen failed: ".to_string().concat(detail),
            HotReloadError::SymbolMissing(symbol) => "required symbol `".to_string().concat(
                symbol.as_str(),
            ).concat("` missing from handlers dylib"),
            HotReloadError::BuildRouterPanic => "panic in `axum_hotreload_build_router`".to_string(),
            HotReloadError::Io(_) => "io error: ".to_string().concat(detail),
            HotReloadError::Notify(_) => "watcher error: ".to_string().concat(detail),
        }
    }

    /// The text of the path or of the error that this error carries, or nothing where it carries
    /// none.
    pub fn detail(&self) -> (res: String)
        ensures
            self@.is_detailed_by(res@),
    {
        match self {
            HotReloadError::DylibMissing(path) => display(path),
            HotReloadError::Dlopen(e) => e.to_string(),
            HotReloadError::Io(e) => e.to_string(),
            HotReloadError::Notify(e) => e.to_string(),
            _ => String::new(),
        }
    }

    /// The message of the error.
    pub fn message(&self) -> (res: String)
        ensures
            exists|detail: Seq<char>|
                self@.is_detailed_by(detail) && res@ == #[trigger] self@.message(detail),
    {
        let detail = self.detail();
        self.message_with(detail.as_str())
    }
}

impl From<std::io::Error> for HotReloadError {
    fn from(e: std::io::Error) -> (res: HotReloadError) {
        HotReloadError::Io(e)
    }
}

impl FromSpecImpl<std::io::Error> for HotReloadError {
    open spec fn obeys_from_spec() -> bool {
        true
    }

    open spec fn from_spec(e: std::io::Error) -> HotReloadError {
        HotReloadError::Io(e)
    }
}

impl From<notify::Error> for HotReloadError {
    fn from(e: notify::Error) -> (res: HotReloadError) {
        HotReloadError::Notify(e)
    }
}

impl FromSpecImpl<notify::Error> for HotReloadError {
    open spec fn obeys_from_spec() -> bool {
        true
    }

    open spec fn from_spec(e: notify::Error) -> HotReloadError {
        HotReloadError::Notify(e)
    }
}

/// The message of an error that carries neither a path nor another error depends on nothing else.
pub proof fn law_message_without_detail(e: ErrorView, a: Seq<char>, b: Seq<char>)
    requires
        !e.has_detail(),
    ensures
        e.message(a) == e.message(b),
{
}

/// The message of an error begins with what kind of error it is, and holds all of what the error
/// says and nothing else: what cargo wrote, the missing symbol, or the text of the path or of the
/// error that it carries.
pub proof fn law_message(e: HotReloadError, detail: &str, res: String)
    requires
        call_ensures(HotReloadError::message_with, (&e, detail), res),
    ensures
        match e {
            HotReloadError::Build(stderr) => res@ == "cargo build failed:\n"@ + stderr@,
            HotReloadError::DylibMissing(_) => res@ == "dylib not found at "@ + detail@,
            HotReloadError::Dlopen(_) => res@ == "dlopen failed: "@ + detail@,
            HotReloadError::SymbolMissing(symbol) => res@ == "required symbol `"@ + symbol@
                + "` missing from handlers dylib"@,
            HotReloadError::BuildRouterPanic => res@ == "panic in `axum_hotreload_build_router`"@,
            HotReloadError::Io(_) => res@ == "io error: "@ + detail@,
            HotReloadError::Notify(_) => res@ == "watcher error: "@ + detail@,
        },
{
}

/// The text of what an error carries is that of the very path or error in it.
pub proof fn law_detail(e: HotReloadError, res: String)
    requires
        call_ensures(HotReloadError::detail, (&e,), res),
    ensures
        match e {
            HotReloadError::DylibMissing(path) => res@ == path_display(path),
            HotReloadError::Dlopen(e) => exists|s: String| #[trigger]
                to_string_from_display_ensures::<libloading::Error>(&e, s) && s@ == res@,
            HotReloadError::Io(e) => exists|s: String| #[trigger]
                to_string_from_display_ensures::<std::io::Error>(&e, s) && s@ == res@,
            HotReloadError::Notify(e) => exists|s: String| #[trigger]
                to_string_from_display_ensures::<notify::Error>(&e, s) && s@ == res@,
            _ => res@.len() == 0,
        },
{
}

/// Turning an error of the file system or of the watcher into one of the reloader keeps it.
pub proof fn law_conversions_keep_the_error(io: std::io::Error, watch: notify::Error)
    ensures
        <HotReloadError as FromSpec<std::io::Error>>::from_spec(io) == HotReloadError::Io(io),
        <HotReloadError as FromSpec<notify::Error>>::from_spec(watch) == HotReloadError::Notify(
            watch,
        ),
{
}

} // verus!
