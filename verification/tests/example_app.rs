use axum_hotreload::example::{page, page_after, render_page, AppState};

#[test]
fn page_shows_the_visit() {
    let expected = r##"<!doctype html>
<html>
<head><title>example</title></head>
<body style="font-family:ui-sans-serif,system-ui;margin:4rem;color:#444;">
  <h1>Hello, hot world!</h1>
  <p>Edit <code>example/src/lib.rs</code> and save.</p>
  <p style="color:#888;font-size:0.85rem;">visit #41</p>
</body>
</html>"##;
    assert_eq!(render_page(41), expected);
    assert_eq!(page_after(40), expected);
}

#[test]
fn visits_are_counted_from_one() {
    let state = AppState::default();
    assert_eq!(page(&state), render_page(1));
    assert_eq!(page(&state), render_page(2));
}

#[test]
fn clones_share_the_counter() {
    let state = AppState::default();
    let other = state.clone();
    assert_eq!(page(&state), render_page(1));
    assert_eq!(page(&other), render_page(2));
}

#[test]
fn counter_wraps_around() {
    assert_eq!(page_after(u64::MAX), render_page(0));
}
