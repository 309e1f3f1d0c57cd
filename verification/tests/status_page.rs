use axum_hotreload::status::{render_status, status_text};
use axum_hotreload::ReloadStatus;
use std::time::Instant;

#[test]
fn page_has_a_line_for_each_fact() {
    assert_eq!(
        render_status(3, Some("1.5s".to_string()), Some("io error: x".to_string())),
        "generation: 3\nlast_success_ago: Some(1.5s)\nlast_error: io error: x\n"
    );
    assert_eq!(
        render_status(0, None, None),
        "generation: 0\nlast_success_ago: None\nlast_error: <none>\n"
    );
}

#[test]
fn page_of_a_snapshot() {
    let status = ReloadStatus {
        generation: 12,
        last_success: None,
        last_error: Some("e".to_string()),
    };
    assert_eq!(
        status_text(&status),
        "generation: 12\nlast_success_ago: None\nlast_error: e\n"
    );
    let status = ReloadStatus {
        generation: 1,
        last_success: Some(Instant::now()),
        last_error: None,
    };
    let page = status_text(&status);
    assert!(page.starts_with("generation: 1\nlast_success_ago: Some("));
    assert!(page.ends_with("s)\nlast_error: <none>\n"));
}
