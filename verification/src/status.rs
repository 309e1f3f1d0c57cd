//! The status page of the reloader.

use crate::builder::HotReload;
use crate::live::{ReloadStatus, StatusView};
use crate::text::{decimal, decimal_text, text_view};
use std::time::{Duration, Instant};
use vstd::prelude::*;

verus! {

/// `Instant::elapsed` gives the time that has passed since the instant. Nothing is said of it,
/// since it depends on the clock.
pub assume_specification[ Instant::elapsed ](instant: &Instant) -> Duration;

/// The text in which a duration shows itself for debugging.
pub uninterp spec fn duration_debug(d: Duration) -> Seq<char>;

/// The `Debug` text of `Duration`, which depends on the duration alone.
#[verifier::external_body]
fn debug_duration(d: &Duration) -> (res: String)
    ensures
        res@ == duration_debug(*d),
{
    format!("{:?}", d)
}

/// The `Debug` text of an optional value whose own text is given.
pub open spec fn option_debug(inner: Option<Seq<char>>) -> Seq<char> {
    match inner {
        Some(text) => "Some("@ + text + ")"@,
        None => "None"@,
    }
}

/// The last error, where there is one.
pub open spec fn error_text(last_error: Option<Seq<char>>) -> Seq<char> {
    match last_error {
        Some(message) => message,
        None => "<none>"@,
    }
}

/// The status page: a line each for the generation, the time since the last success and the last
/// error.
pub open spec fn status_page(
    generation: u64,
    ago: Option<Seq<char>>,
    last_error: Option<Seq<char>>,
) -> Seq<char> {
    "generation: "@ + decimal(generation as nat) + "\nlast_success_ago: "@ + option_debug(ago)
        + "\nlast_error: "@ + error_text(last_error) + "\n"@
}

/// The page is that of the status as of some moment: it shows the time that has elapsed since the
/// last success, where there was one.
pub open spec fn is_page_of(page: Seq<char>, status: StatusView) -> bool {
    match status.last_success {
        Some(last) => exists|ago: Duration|
            call_ensures(Instant::elapsed, (&last,), ago) && page == status_page(
                status.generation,
                Some(#[trigger] duration_debug(ago)),
                status.last_error,
            ),
        None => page == status_page(status.generation, None, status.last_error),
    }
}

/// Writes the status page, given the text of the time since the last success.
pub fn render_status(generation: u64, ago: Option<String>, last_error: Option<String>) -> (res:
    String)
    ensures
        res@ == status_page(generation, text_view(ago), text_view(last_error)),
{
    let number = decimal_text(generation);
    let since = match ago {
        Some(text) => "Some(".to_string().concat(text.as_str()).concat(")"),
        None => "None".to_string(),
    };
    let error = match last_error {
        Some(message) => message,
        None => "<none>".to_string(),
    };
    "generation: ".to_string().concat(number.as_str()).concat("\nlast_success_ago: ").concat(
        since.as_str(),
    ).concat("\nlast_error: ").concat(error.as_str()).concat("\n")
}

/// The status page for a snapshot, as of now.
pub fn status_text(status: &ReloadStatus) -> (res: String)
    ensures
        is_page_of(res@, status@),
{
    let last_error = status.last_error.clone();
    match status.last_success {
        Some(instant) => {
            let ago = instant.elapsed();
            let shown = debug_duration(&ago);
            let res = render_status(status.generation, Some(shown), last_error);
            assert(res@ == status_page(
                status.generation,
                Some(duration_debug(ago)),
                status@.last_error,
            ));
            res
        },
        None => render_status(status.generation, None, last_error),
    }
}

/// The status page of a running reloader, as of now.
pub fn status_handler<S: Clone + Send + Sync + 'static>(hot: &HotReload<S>) -> (res: String)
    ensures
        is_page_of(res@, hot@.live.status),
{
    status_text(&hot.status())
}

/// The status page has three lines: the generation in decimal notation; the time since the last
/// success as `Some(..)`, or `None` where there is none; and the last error, all of it, or
/// `<none>`.
pub proof fn law_status_page(
    generation: u64,
    ago: Option<String>,
    last_error: Option<String>,
    res: String,
)
    requires
        call_ensures(render_status, (generation, ago, last_error), res),
    ensures
        ({
            let since = match ago {
                Some(text) => "Some("@ + text@ + ")"@,
                None => "None"@,
            };
            let error = match last_error {
                Some(message) => message@,
                None => "<none>"@,
            };
            res@ == "generation: "@ + decimal(generation as nat) + "\nlast_success_ago: "@ + since
                + "\nlast_error: "@ + error + "\n"@
        }),
{
}

/// The page of a snapshot shows the snapshot's own generation and error, and the time that has
/// elapsed since its own last success.
pub proof fn law_page_of_a_snapshot(status: ReloadStatus, res: String)
    requires
        call_ensures(status_text, (&status,), res),
    ensures
        ({
            let error = match status.last_error {
                Some(message) => message@,
                None => "<none>"@,
            };
            let number = decimal(status.generation as nat);
            match status.last_success {
                Some(last) => exists|ago: Duration| #[trigger]
                    call_ensures(Instant::elapsed, (&last,), ago) && res@ == "generation: "@
                        + number + "\nlast_success_ago: "@ + ("Some("@ + duration_debug(ago) + ")"@)
                        + "\nlast_error: "@ + error + "\n"@,
                None => res@ == "generation: "@ + number + "\nlast_success_ago: "@ + "None"@
                    + "\nlast_error: "@ + error + "\n"@,
            }
        }),
{
}

} // verus!
