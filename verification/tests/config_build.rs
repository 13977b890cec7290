use vector_app::config::{
    contains_string, copy_strings, same_strings, ComponentKind, ComponentSpec, Config,
    ConfigBuilder,
};

fn source(key: &str) -> ComponentSpec {
    ComponentSpec::new(key, ComponentKind::Source, "type=demo_logs")
}

fn sink(key: &str, input: &str) -> ComponentSpec {
    ComponentSpec::new(key, ComponentKind::Sink, "type=blackhole").with_input(input)
}

fn built(components: Vec<ComponentSpec>) -> Config {
    let mut builder = ConfigBuilder::new();
    for component in components {
        builder = builder.with_component(component);
    }
    builder.build().expect("distinct keys")
}

#[test]
fn new_builder_has_documented_defaults() {
    let builder = ConfigBuilder::new();
    assert!(builder.components.is_empty());
    assert!(builder.healthchecks_enabled);
    assert!(!builder.require_healthy);
    assert_eq!(builder.graceful_shutdown_secs, None);
    assert!(!builder.api_enabled);
}

#[test]
fn build_keeps_components_in_order() {
    let config = built(vec![source("demo"), sink("blackhole", "demo")]);
    assert_eq!(config.keys(), vec!["demo".to_string(), "blackhole".to_string()]);
    assert_eq!(config.components()[1].inputs, vec!["demo".to_string()]);
    assert_eq!(config.components()[0].kind, ComponentKind::Source);
    assert_eq!(config.components()[0].options, "type=demo_logs");
}

#[test]
fn build_keeps_global_settings() {
    let mut builder = ConfigBuilder::new().with_component(source("demo"));
    builder.healthchecks_enabled = false;
    builder.require_healthy = true;
    builder.graceful_shutdown_secs = Some(60);
    builder.api_enabled = true;
    let config = builder.build().expect("distinct keys");
    assert!(!config.healthchecks_enabled());
    assert!(config.require_healthy());
    assert_eq!(config.graceful_shutdown_secs(), Some(60));
    assert!(config.api_enabled());
}

#[test]
fn build_of_nothing_is_an_empty_config() {
    let config = ConfigBuilder::new().build().expect("nothing to repeat");
    assert!(config.components().is_empty());
    assert!(!config.has_sources());
}

#[test]
fn build_reports_each_repeated_key() {
    let builder = ConfigBuilder::new()
        .with_component(source("a"))
        .with_component(source("b"))
        .with_component(sink("a", "b"))
        .with_component(source("c"))
        .with_component(source("b"))
        .with_component(source("a"));
    let errors = builder.build().expect_err("keys repeat");
    assert_eq!(
        errors,
        vec![
            "duplicate component key: a".to_string(),
            "duplicate component key: b".to_string(),
            "duplicate component key: a".to_string(),
        ]
    );
}

#[test]
fn build_error_names_the_key() {
    let builder = ConfigBuilder::new().with_component(source("in")).with_component(source("in"));
    let errors = builder.build().expect_err("keys repeat");
    assert_eq!(errors, vec!["duplicate component key: in".to_string()]);
}

#[test]
fn has_sources_looks_at_kinds() {
    let only_sink = built(vec![ComponentSpec::new("out", ComponentKind::Sink, "")]);
    assert!(!only_sink.has_sources());
    let transform_and_source = built(vec![
        ComponentSpec::new("t", ComponentKind::Transform, ""),
        source("s"),
    ]);
    assert!(transform_and_source.has_sources());
}

#[test]
fn contains_finds_keys() {
    let config = built(vec![source("demo"), sink("blackhole", "demo")]);
    assert!(config.contains(&"demo".to_string()));
    assert!(config.contains(&"blackhole".to_string()));
    assert!(!config.contains(&"demo2".to_string()));
    assert!(!config.contains(&"".to_string()));
}

#[test]
fn set_require_healthy_follows_policy() {
    let mut config = built(vec![source("demo")]);
    assert!(!config.require_healthy());
    config.set_require_healthy(None);
    assert!(!config.require_healthy());
    config.set_require_healthy(Some(true));
    assert!(config.require_healthy());
    config.set_require_healthy(None);
    assert!(config.require_healthy());
    config.set_require_healthy(Some(false));
    assert!(!config.require_healthy());
}

#[test]
fn set_graceful_shutdown_secs_replaces_limit() {
    let mut config = built(vec![source("demo")]);
    config.set_graceful_shutdown_secs(Some(30));
    assert_eq!(config.graceful_shutdown_secs(), Some(30));
    config.set_graceful_shutdown_secs(None);
    assert_eq!(config.graceful_shutdown_secs(), None);
}

#[test]
fn duplicate_config_equals_original() {
    let config = built(vec![source("demo"), sink("blackhole", "demo")]);
    assert_eq!(config.duplicate(), config);
}

#[test]
fn component_same_as_compares_every_field() {
    let base = sink("out", "in").with_watched_file("/etc/out.vrl");
    assert!(base.same_as(&base.duplicate()));
    assert!(!base.same_as(&sink("other", "in").with_watched_file("/etc/out.vrl")));
    assert!(!base.same_as(&sink("out", "in2").with_watched_file("/etc/out.vrl")));
    assert!(!base.same_as(&sink("out", "in").with_watched_file("/etc/other.vrl")));
    assert!(!base.same_as(&sink("out", "in")));
    let mut other_kind = base.duplicate();
    other_kind.kind = ComponentKind::Transform;
    assert!(!base.same_as(&other_kind));
    let mut other_options = base.duplicate();
    other_options.options = "type=console".to_string();
    assert!(!base.same_as(&other_options));
}

#[test]
fn component_builders_append() {
    let spec = ComponentSpec::new("t", ComponentKind::Transform, "type=remap")
        .with_input("a")
        .with_input("b")
        .with_watched_file("x.vrl")
        .with_watched_file("y.vrl");
    assert_eq!(spec.key, "t");
    assert_eq!(spec.inputs, vec!["a".to_string(), "b".to_string()]);
    assert_eq!(spec.files_to_watch, vec!["x.vrl".to_string(), "y.vrl".to_string()]);
}

#[test]
fn string_list_helpers() {
    let a = vec!["x".to_string(), "y".to_string()];
    let b = vec!["x".to_string(), "z".to_string()];
    let short = vec!["x".to_string()];
    assert!(same_strings(&a, &copy_strings(&a)));
    assert!(!same_strings(&a, &b));
    assert!(!same_strings(&a, &short));
    assert!(same_strings(&Vec::new(), &Vec::new()));
    assert!(contains_string(&a, &"y".to_string()));
    assert!(!contains_string(&a, &"z".to_string()));
    assert!(!contains_string(&Vec::new(), &"x".to_string()));
}
