use axum_hotreload::HotReloadError;
use std::path::PathBuf;

#[test]
fn messages_of_errors_without_detail() {
    assert_eq!(
        HotReloadError::Build("oops\n".to_string()).message(),
        "cargo build failed:\noops\n"
    );
    assert_eq!(
        HotReloadError::SymbolMissing("sym".to_string()).message(),
        "required symbol `sym` missing from handlers dylib"
    );
    assert_eq!(
        HotReloadError::BuildRouterPanic.message(),
        "panic in `axum_hotreload_build_router`"
    );
}

#[test]
fn messages_of_errors_with_detail() {
    assert_eq!(
        HotReloadError::DylibMissing(PathBuf::from("/a/b.so")).message(),
        "dylib not found at /a/b.so"
    );
    assert_eq!(
        HotReloadError::Dlopen(libloading::Error::DlOpenUnknown).message(),
        "dlopen failed: dlopen failed, but system did not report the error"
    );
    let io = std::io::Error::new(std::io::ErrorKind::Other, "boom");
    assert_eq!(HotReloadError::Io(io).message(), "io error: boom");
    assert_eq!(
        HotReloadError::Notify(notify::Error::generic("bad")).message(),
        "watcher error: bad"
    );
}

#[test]
fn message_with_takes_the_detail_as_given() {
    assert_eq!(
        HotReloadError::Dlopen(libloading::Error::DlOpenUnknown).message_with("x"),
        "dlopen failed: x"
    );
    assert_eq!(
        HotReloadError::BuildRouterPanic.message_with("x"),
        "panic in `axum_hotreload_build_router`"
    );
    assert_eq!(
        HotReloadError::DylibMissing(PathBuf::from("/a")).message_with("x"),
        "dylib not found at x"
    );
}

#[test]
fn outside_errors_convert() {
    let io = std::io::Error::new(std::io::ErrorKind::Other, "boom");
    assert!(matches!(HotReloadError::from(io), HotReloadError::Io(_)));
    assert!(matches!(
        HotReloadError::from(notify::Error::generic("bad")),
        HotReloadError::Notify(_)
    ));
}
