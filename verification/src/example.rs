//! A small application to try the reloader on: a page that counts its visits.

use crate::text::{decimal, decimal_text};
use std::sync::atomic::{AtomicU64, Ordering};
use std::sync::Arc;
use vstd::prelude::*;

verus! {

/// The state that the host owns: the number of requests so far.
#[derive(Default)]
pub struct AppState {
    pub requests: Arc<AtomicU64>,
}

impl Clone for AppState {
    /// The clone shares the counter.
    fn clone(&self) -> (res: AppState)
        ensures
            res == *self,
    {
        AppState { requests: self.requests.clone() }
    }
}

/// The number of a visit, given how many there were before it.
pub open spec fn visit_number(before: u64) -> u64 {
    if before == u64::MAX {
        0
    } else {
        (before + 1) as u64
    }
}

/// The page as it is shown on the given visit.
pub open spec fn page_text(visit: u64) -> Seq<char> {
    "<!doctype html>
<html>
<head><title>example</title></head>
<body style=\"font-family:ui-sans-serif,system-ui;margin:4rem;color:#444;\">
  <h1>Hello, hot world!</h1>
  <p>Edit <code>example/src/lib.rs</code> and save.</p>
  <p style=\"color:#888;font-size:0.85rem;\">visit #"@
        + decimal(visit as nat) + "</p>
</body>
</html>"@
}

/// Writes the page for the given visit.
pub fn render_page(visit: u64) -> (res: String)
    ensures
        res@ == page_text(visit),
{
    let number = decimal_text(visit);
    "<!doctype html>
<html>
<head><title>example</title></head>
<body style=\"font-family:ui-sans-serif,system-ui;margin:4rem;color:#444;\">
  <h1>Hello, hot world!</h1>
  <p>Edit <code>example/src/lib.rs</code> and save.</p>
  <p style=\"color:#888;font-size:0.85rem;\">visit #".to_string().concat(
        number.as_str(),
    ).concat("</p>
</body>
</html>")
}

/// Writes the page for the visit that comes after that many.
pub fn page_after(before: u64) -> (res: String)
    ensures
        res@ == page_text(visit_number(before)),
{
    render_page(before.wrapping_add(1))
}

/// Counts a visit and writes the page for it: adds one to the counter of the state, and shows the
/// number that comes after what the counter gave. What the counter held is not said, since others
/// may count visits beside this one.
pub fn page(state: &AppState) -> (res: String)
    ensures
        exists|before: u64|
            call_ensures(
                AtomicU64::fetch_add,
                (&*state.requests, 1u64, Ordering::Relaxed),
                before,
            ) && res@ == page_text(#[trigger] visit_number(before)),
{
    let before = state.requests.fetch_add(1, Ordering::Relaxed);
    page_after(before)
}

/// A visit is one more than the visits before it, as long as there is a number for it; behind the
/// last number comes zero.
pub proof fn law_visits_count_up(before: u64)
    ensures
        before < u64::MAX ==> visit_number(before) == before + 1,
        before == u64::MAX ==> visit_number(before) == 0,
{
}

/// Any two pages are the same but for the number of the visit, which stands behind `visit #` and
/// ends its paragraph.
pub proof fn law_pages_differ_in_the_number_alone(a: u64, b: u64, page_a: String, page_b: String)
    requires
        call_ensures(render_page, (a,), page_a),
        call_ensures(render_page, (b,), page_b),
    ensures
        exists|head: Seq<char>, tail: Seq<char>|
            {
                &&& "visit #"@.is_suffix_of(head)
                &&& "</p>"@.is_prefix_of(tail)
                &&& page_a@ == #[trigger] (head + decimal(a as nat) + tail)
                &&& page_b@ == head + decimal(b as nat) + tail
            },
{
    reveal_strlit("visit #");
    reveal_strlit("</p>");
    reveal_strlit("<!doctype html>
<html>
<head><title>example</title></head>
<body style=\"font-family:ui-sans-serif,system-ui;margin:4rem;color:#444;\">
  <h1>Hello, hot world!</h1>
  <p>Edit <code>example/src/lib.rs</code> and save.</p>
  <p style=\"color:#888;font-size:0.85rem;\">visit #");
    reveal_strlit("</p>
</body>
</html>");
    let head =
        "<!doctype html>
<html>
<head><title>example</title></head>
<body style=\"font-family:ui-sans-serif,system-ui;margin:4rem;color:#444;\">
  <h1>Hello, hot world!</h1>
  <p>Edit <code>example/src/lib.rs</code> and save.</p>
  <p style=\"color:#888;font-size:0.85rem;\">visit #"@;
    let tail = "</p>
</body>
</html>"@;
    assert("visit #"@ =~= head.subrange(head.len() - 7, head.len() as int));
    assert("</p>"@ =~= tail.subrange(0, 4));
    assert(page_a@ == head + decimal(a as nat) + tail);
}

/// The page that is written behind `before` visits is the one for the visit that comes next.
pub proof fn law_page_after(before: u64, visit: u64, after: String, page: String)
    requires
        visit == before + 1,
        call_ensures(page_after, (before,), after),
        call_ensures(render_page, (visit,), page),
    ensures
        after@ == page@,
{
}

} // verus!
