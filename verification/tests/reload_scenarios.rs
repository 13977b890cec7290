use vector_app::application::StartedApplication;
use vector_app::config::{ComponentKind, ComponentSpec, Config, ConfigBuilder};
use vector_app::controller::TopologyController;
use vector_app::run_loop::{LoopEvent, ReloadAnswers, Round};
use vector_app::signal::SignalTo;
use vector_app::topology::RunningTopology;

fn demo_source(name: &str) -> ComponentSpec {
    ComponentSpec::new(name, ComponentKind::Source, "type=demo_logs format=json interval=0.1")
}

fn blackhole(name: &str, inputs: &[&str]) -> ComponentSpec {
    let mut sink = ComponentSpec::new(name, ComponentKind::Sink, "type=blackhole");
    for input in inputs {
        sink = sink.with_input(input);
    }
    sink
}

fn config(components: Vec<ComponentSpec>) -> Config {
    let mut builder = ConfigBuilder::new();
    for component in components {
        builder = builder.with_component(component);
    }
    builder.build().expect("distinct keys")
}

fn single_source_config(source_name: &str) -> Config {
    config(vec![demo_source(source_name), blackhole("blackhole", &[source_name])])
}

fn running(config: Config) -> StartedApplication<()> {
    StartedApplication {
        config_paths: Vec::new(),
        internal_topologies: Vec::new(),
        topology_controller: TopologyController::new(
            RunningTopology::start(config),
            Vec::new(),
            None,
            (),
        ),
        allow_empty_config: false,
    }
}

fn reload_with(app: StartedApplication<()>, signal: SignalTo, next: Config) -> StartedApplication<()> {
    let round = Round {
        event: LoopEvent::Signal(Ok(signal)),
        answers: ReloadAnswers {
            resolved_paths: None,
            loaded: Ok(next),
            validation: Vec::new(),
            verdict: None,
        },
    };
    app.main(vec![round]).expect_err("a reload does not end the run loop")
}

fn component_ids(app: &StartedApplication<()>) -> Vec<String> {
    app.topology_controller.topology.config().keys()
}

#[test]
fn config_reload_updates_components() {
    let runner = running(single_source_config("demo1"));

    let ids = component_ids(&runner);
    assert!(ids.contains(&"demo1".to_string()));
    assert!(ids.contains(&"blackhole".to_string()));
    assert_eq!(ids.len(), 2);

    let runner = reload_with(
        runner,
        SignalTo::ReloadFromDisk,
        config(vec![
            demo_source("demo1"),
            demo_source("demo2"),
            blackhole("blackhole1", &["demo1"]),
            blackhole("blackhole2", &["demo2"]),
        ]),
    );

    let ids = component_ids(&runner);
    assert!(ids.contains(&"demo1".to_string()));
    assert!(ids.contains(&"demo2".to_string()));
    assert!(ids.contains(&"blackhole1".to_string()));
    assert!(ids.contains(&"blackhole2".to_string()));
    assert_eq!(ids.len(), 4);
    let topology = &runner.topology_controller.topology;
    assert_eq!(topology.started_in(&"demo1".to_string()), Some(0));
    assert_eq!(topology.started_in(&"demo2".to_string()), Some(1));

    let runner = reload_with(
        runner,
        SignalTo::ReloadFromDisk,
        config(vec![demo_source("new_demo"), blackhole("new_blackhole", &["new_demo"])]),
    );

    let ids = component_ids(&runner);
    assert!(!ids.contains(&"demo1".to_string()));
    assert!(!ids.contains(&"demo2".to_string()));
    assert!(!ids.contains(&"blackhole1".to_string()));
    assert!(!ids.contains(&"blackhole2".to_string()));
    assert!(ids.contains(&"new_demo".to_string()));
    assert!(ids.contains(&"new_blackhole".to_string()));
    assert_eq!(ids.len(), 2);
}

#[test]
fn watch_mode_auto_reloads() {
    let runner = running(single_source_config("demo"));
    assert_eq!(component_ids(&runner).len(), 2);

    let runner = reload_with(
        runner,
        SignalTo::ReloadFromDisk,
        config(vec![
            demo_source("demo"),
            demo_source("demo2"),
            blackhole("blackhole", &["demo", "demo2"]),
        ]),
    );

    assert_eq!(
        component_ids(&runner),
        vec!["demo".to_string(), "demo2".to_string(), "blackhole".to_string()]
    );
    let topology = &runner.topology_controller.topology;
    assert_eq!(topology.started_in(&"demo".to_string()), Some(0));
    assert_eq!(topology.started_in(&"demo2".to_string()), Some(1));
    assert_eq!(topology.started_in(&"blackhole".to_string()), Some(1));
}
