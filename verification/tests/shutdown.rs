use vector_app::application::{FinishedApplication, StartedApplication};
use vector_app::config::{ComponentKind, ComponentSpec, Config, ConfigBuilder};
use vector_app::controller::TopologyController;
use vector_app::exit::{exit_code, ShutdownKind};
use vector_app::run_loop::{LoopEvent, ReloadAnswers, Round};
use vector_app::shutdown::StopRace;
use vector_app::signal::{ShutdownError, SignalTo};
use vector_app::topology::RunningTopology;

fn config(keys: &[&str]) -> Config {
    let mut builder = ConfigBuilder::new();
    for key in keys {
        builder = builder.with_component(ComponentSpec::new(key, ComponentKind::Source, ""));
    }
    builder.build().expect("distinct keys")
}

fn controller(keys: &[&str]) -> TopologyController<()> {
    TopologyController::new(RunningTopology::start(config(keys)), Vec::new(), None, ())
}

fn finished(signal: SignalTo) -> FinishedApplication<()> {
    let internal = vec![
        RunningTopology::start(config(&["internal_logs"])),
        RunningTopology::start(config(&["internal_metrics"])),
    ];
    FinishedApplication::new(signal, controller(&["A"]), internal).expect("terminating signal")
}

fn no_answers() -> ReloadAnswers {
    ReloadAnswers {
        resolved_paths: None,
        loaded: Err(Vec::new()),
        validation: Vec::new(),
        verdict: None,
    }
}

fn crash() -> ShutdownError {
    ShutdownError::ComponentCrashed { key: "A".to_string(), error: "boom".to_string() }
}

#[test]
fn exit_codes_are_the_documented_numbers() {
    assert_eq!(exit_code(ShutdownKind::Graceful), 0);
    assert_eq!(exit_code(ShutdownKind::Forced), 69);
    assert_ne!(exit_code(ShutdownKind::Graceful), exit_code(ShutdownKind::Forced));
}

#[test]
fn quit_is_the_forced_exit() {
    assert_eq!(FinishedApplication::<()>::quit(), 69);
}

#[test]
fn stop_depends_on_who_was_first() {
    assert_eq!(FinishedApplication::<()>::stop(StopRace::Drained), 0);
    assert_eq!(FinishedApplication::<()>::stop(StopRace::Interrupted), 69);
    assert_eq!(FinishedApplication::<()>::stop(StopRace::DeadlineExpired), 69);
}

#[test]
fn terminate_once_then_drain_exits_normally() {
    let app = finished(SignalTo::Shutdown(None));
    assert!(app.wants_graceful_stop());
    let order = app.shutdown(1, StopRace::Drained);
    assert_eq!(order.kind, ShutdownKind::Graceful);
    assert_eq!(order.exit_code, 0);
}

#[test]
fn terminate_twice_exits_at_once_with_the_forced_code() {
    let app = finished(SignalTo::Shutdown(None));
    assert!(app.wants_graceful_stop());
    let order = app.shutdown(1, StopRace::Interrupted);
    assert_eq!(order.kind, ShutdownKind::Forced);
    assert_eq!(order.exit_code, 69);
}

#[test]
fn expired_deadline_counts_as_forced() {
    let order = finished(SignalTo::Shutdown(None)).shutdown(1, StopRace::DeadlineExpired);
    assert_eq!(order.kind, ShutdownKind::Forced);
    assert_eq!(order.exit_code, 69);
}

#[test]
fn quit_skips_the_graceful_stop() {
    for race in [StopRace::Drained, StopRace::Interrupted, StopRace::DeadlineExpired] {
        let app = finished(SignalTo::Quit);
        assert!(!app.wants_graceful_stop());
        let order = app.shutdown(1, race);
        assert_eq!(order.kind, ShutdownKind::Forced);
        assert_eq!(order.exit_code, 69);
    }
}

#[test]
fn shutdown_with_error_still_exits_normally_after_the_drain() {
    let order = finished(SignalTo::Shutdown(Some(crash()))).shutdown(1, StopRace::Drained);
    assert_eq!(order.kind, ShutdownKind::Graceful);
    assert_eq!(order.exit_code, 0);
}

#[test]
fn internal_topologies_are_always_handed_back_to_be_stopped() {
    let cases = [
        (SignalTo::Shutdown(None), StopRace::Drained),
        (SignalTo::Shutdown(None), StopRace::Interrupted),
        (SignalTo::Shutdown(Some(crash())), StopRace::DeadlineExpired),
        (SignalTo::Quit, StopRace::Drained),
    ];
    for (signal, race) in cases {
        let order = finished(signal).shutdown(1, race);
        assert_eq!(order.stop_internal.len(), 2);
        assert_eq!(order.stop_internal[0].config().keys(), vec!["internal_logs".to_string()]);
        assert_eq!(order.stop_internal[1].config().keys(), vec!["internal_metrics".to_string()]);
    }
}

#[test]
fn crash_during_running_exits_normally_without_a_second_signal() {
    let app = StartedApplication {
        config_paths: Vec::new(),
        internal_topologies: Vec::new(),
        topology_controller: controller(&["A"]),
        allow_empty_config: false,
    };
    let rounds = vec![Round { event: LoopEvent::Crash(Some(crash())), answers: no_answers() }];
    let order = app.run(rounds, 1, StopRace::Drained).expect("the crash ends the loop");
    assert_eq!(order.exit_code, 0);
    assert_eq!(order.kind, ShutdownKind::Graceful);
}

#[test]
fn crash_during_running_then_second_signal_exits_forced() {
    let app = StartedApplication {
        config_paths: Vec::new(),
        internal_topologies: Vec::new(),
        topology_controller: controller(&["A"]),
        allow_empty_config: false,
    };
    let rounds = vec![Round { event: LoopEvent::Crash(Some(crash())), answers: no_answers() }];
    let order = app.run(rounds, 1, StopRace::Interrupted).expect("the crash ends the loop");
    assert_eq!(order.exit_code, 69);
}

#[test]
fn run_without_an_ending_round_has_no_exit_code() {
    let app = StartedApplication {
        config_paths: Vec::new(),
        internal_topologies: Vec::new(),
        topology_controller: controller(&[]),
        allow_empty_config: true,
    };
    let rounds = vec![Round { event: LoopEvent::SourcesFinished, answers: no_answers() }];
    assert!(app.run(rounds, 1, StopRace::Drained).is_none());
}
