use vector_app::exit::{exit_code, ShutdownKind};

#[test]
fn graceful_shutdown_exits_with_success() {
    assert_eq!(exit_code(ShutdownKind::Graceful), 0);
}

#[test]
fn forced_shutdown_exits_with_unavailable() {
    assert_eq!(exit_code(ShutdownKind::Forced), 69);
}
