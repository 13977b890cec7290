use vector_app::config::{ComponentKind, ComponentSpec, Config, ConfigBuilder};
use vector_app::controller::{ReloadOutcome, ReloadStage, TopologyController};
use vector_app::diff::{compute_diff, ConfigDiff};
use vector_app::signal::ShutdownError;
use vector_app::topology::RunningTopology;

fn source(key: &str) -> ComponentSpec {
    ComponentSpec::new(key, ComponentKind::Source, "type=demo_logs")
}

fn config(components: Vec<ComponentSpec>) -> Config {
    let mut builder = ConfigBuilder::new();
    for component in components {
        builder = builder.with_component(component);
    }
    builder.build().expect("distinct keys")
}

fn controller(components: Vec<ComponentSpec>) -> TopologyController<()> {
    TopologyController::new(RunningTopology::start(config(components)), Vec::new(), None, ())
}

fn strings(items: &[&str]) -> Vec<String> {
    items.iter().map(|s| s.to_string()).collect()
}

fn key(k: &str) -> String {
    k.to_string()
}

#[test]
fn started_topology_is_in_epoch_zero() {
    let topology = RunningTopology::start(config(vec![source("A"), source("B")]));
    assert_eq!(topology.epoch(), 0);
    assert_eq!(topology.started_in(&key("A")), Some(0));
    assert_eq!(topology.started_in(&key("B")), Some(0));
    assert_eq!(topology.started_in(&key("C")), None);
    assert!(!topology.is_forced(&key("A")));
    assert!(topology.has_sources());
}

#[test]
fn adding_a_source_leaves_the_old_one_untouched() {
    let mut c = controller(vec![source("A")]);
    let next = config(vec![source("A"), source("B")]);
    let diff = c.topology.diff_to(&next);
    assert_eq!(
        diff,
        ConfigDiff { to_remove: vec![], to_add: strings(&["B"]), to_change: vec![] }
    );
    assert!(!diff.touches(&key("A")));
    assert!(diff.touches(&key("B")));
    let outcome = c.reload(next, Vec::new(), None);
    assert_eq!(outcome, Ok(ReloadOutcome::Applied));
    assert_eq!(c.topology.config().keys(), strings(&["A", "B"]));
    assert_eq!(c.topology.epoch(), 1);
    assert_eq!(c.topology.started_in(&key("A")), Some(0));
    assert_eq!(c.topology.started_in(&key("B")), Some(1));
}

#[test]
fn replacing_all_sources_stops_the_old_and_starts_the_new() {
    let mut c = controller(vec![source("A")]);
    assert_eq!(
        c.reload(config(vec![source("A"), source("B")]), Vec::new(), None),
        Ok(ReloadOutcome::Applied)
    );
    let next = config(vec![source("C")]);
    let diff = c.topology.diff_to(&next);
    assert_eq!(
        diff,
        ConfigDiff { to_remove: strings(&["A", "B"]), to_add: strings(&["C"]), to_change: vec![] }
    );
    assert_eq!(c.reload(next, Vec::new(), None), Ok(ReloadOutcome::Applied));
    assert_eq!(c.topology.config().keys(), strings(&["C"]));
    assert_eq!(c.topology.started_in(&key("A")), None);
    assert_eq!(c.topology.started_in(&key("B")), None);
    assert_eq!(c.topology.started_in(&key("C")), Some(2));
    assert_eq!(c.topology.epoch(), 2);
}

#[test]
fn unchanged_config_is_a_noop() {
    let mut c = controller(vec![source("A"), source("B")]);
    let before = c.topology.duplicate();
    let outcome = c.reload(config(vec![source("A"), source("B")]), Vec::new(), None);
    assert_eq!(outcome, Ok(ReloadOutcome::NoOp));
    assert_eq!(c.topology, before);
    assert_eq!(c.topology.epoch(), 0);
    assert_eq!(c.topology.started_in(&key("A")), Some(0));
    assert_eq!(c.topology.started_in(&key("B")), Some(0));
}

#[test]
fn noop_does_not_consult_the_engine() {
    let mut c = controller(vec![source("A")]);
    let outcome =
        c.reload(config(vec![source("A")]), Vec::new(), Some(ShutdownError::ReloadFailedToRestore));
    assert_eq!(outcome, Ok(ReloadOutcome::NoOp));
}

#[test]
fn reordered_config_is_a_noop() {
    let mut c = controller(vec![source("A"), source("B")]);
    let outcome = c.reload(config(vec![source("B"), source("A")]), Vec::new(), None);
    assert_eq!(outcome, Ok(ReloadOutcome::NoOp));
    assert_eq!(c.topology.config().keys(), strings(&["A", "B"]));
}

#[test]
fn reload_twice_is_applied_then_noop() {
    let mut c = controller(vec![source("A")]);
    let first = c.reload(config(vec![source("A"), source("B")]), Vec::new(), None);
    assert_eq!(first, Ok(ReloadOutcome::Applied));
    let after_first = c.topology.duplicate();
    let second = c.reload(config(vec![source("A"), source("B")]), Vec::new(), None);
    assert_eq!(second, Ok(ReloadOutcome::NoOp));
    assert_eq!(c.topology, after_first);
}

#[test]
fn invalid_config_is_rejected_and_nothing_changes() {
    let mut c = controller(vec![source("A")]);
    let before = c.topology.duplicate();
    let errors = strings(&["sink \"out\" has no inputs"]);
    let outcome = c.reload(config(vec![source("B")]), errors.clone(), None);
    assert_eq!(outcome, Err(errors));
    assert_eq!(c.topology, before);
    assert_eq!(c.topology.config().keys(), strings(&["A"]));
}

#[test]
fn rejection_comes_before_the_diff() {
    let mut c = controller(vec![source("A")]);
    let errors = strings(&["first", "second"]);
    let outcome = c.reload(config(vec![source("A")]), errors.clone(), None);
    assert_eq!(outcome, Err(errors));
}

#[test]
fn fatal_error_leaves_the_record_as_it_was() {
    let mut c = controller(vec![source("A")]);
    let before = c.topology.duplicate();
    let outcome = c.reload(
        config(vec![source("B")]),
        Vec::new(),
        Some(ShutdownError::ReloadFailedToRestore),
    );
    assert_eq!(outcome, Ok(ReloadOutcome::FatalError(ShutdownError::ReloadFailedToRestore)));
    assert_eq!(c.topology, before);
}

#[test]
fn changed_options_restart_the_component() {
    let mut c = controller(vec![source("A"), source("B")]);
    let mut changed = source("B");
    changed.options = "type=demo_logs interval=2".to_string();
    let next = config(vec![source("A"), changed]);
    let diff = c.topology.diff_to(&next);
    assert_eq!(
        diff,
        ConfigDiff { to_remove: vec![], to_add: vec![], to_change: strings(&["B"]) }
    );
    assert_eq!(c.reload(next, Vec::new(), None), Ok(ReloadOutcome::Applied));
    assert_eq!(c.topology.started_in(&key("A")), Some(0));
    assert_eq!(c.topology.started_in(&key("B")), Some(1));
    assert_eq!(c.topology.config().components()[1].options, "type=demo_logs interval=2");
}

#[test]
fn changed_inputs_restart_the_component() {
    let sink = |input: &str| ComponentSpec::new("out", ComponentKind::Sink, "").with_input(input);
    let mut c = controller(vec![source("A"), source("B"), sink("A")]);
    let next = config(vec![source("A"), source("B"), sink("B")]);
    assert_eq!(c.topology.diff_to(&next).to_change, strings(&["out"]));
    assert_eq!(c.reload(next, Vec::new(), None), Ok(ReloadOutcome::Applied));
    assert_eq!(c.topology.started_in(&key("out")), Some(1));
    assert_eq!(c.topology.started_in(&key("A")), Some(0));
}

#[test]
fn changed_kind_restarts_the_component() {
    let mut c = controller(vec![source("A")]);
    let next = config(vec![ComponentSpec::new("A", ComponentKind::Transform, "type=demo_logs")]);
    assert_eq!(c.topology.diff_to(&next).to_change, strings(&["A"]));
    assert_eq!(c.reload(next, Vec::new(), None), Ok(ReloadOutcome::Applied));
    assert!(!c.topology.has_sources());
}

#[test]
fn forced_components_restart_without_a_change() {
    let mut c = controller(vec![source("A"), source("B")]);
    c.topology.extend_reload_set(strings(&["B", "missing"]));
    assert!(c.topology.is_forced(&key("B")));
    assert!(c.topology.is_forced(&key("missing")));
    assert!(!c.topology.is_forced(&key("A")));
    let next = config(vec![source("A"), source("B")]);
    assert_eq!(
        c.topology.diff_to(&next),
        ConfigDiff { to_remove: vec![], to_add: vec![], to_change: strings(&["B"]) }
    );
    assert_eq!(c.reload(next, Vec::new(), None), Ok(ReloadOutcome::Applied));
    assert_eq!(c.topology.started_in(&key("A")), Some(0));
    assert_eq!(c.topology.started_in(&key("B")), Some(1));
}

#[test]
fn forced_set_is_retained_across_reloads() {
    let mut c = controller(vec![source("A"), source("B")]);
    c.topology.extend_reload_set(strings(&["B"]));
    assert_eq!(
        c.reload(config(vec![source("A"), source("B")]), Vec::new(), None),
        Ok(ReloadOutcome::Applied)
    );
    assert!(c.topology.is_forced(&key("B")));
    assert_eq!(
        c.reload(config(vec![source("A"), source("B")]), Vec::new(), None),
        Ok(ReloadOutcome::Applied)
    );
    assert_eq!(c.topology.started_in(&key("B")), Some(2));
    assert_eq!(c.topology.started_in(&key("A")), Some(0));
}

#[test]
fn forced_set_is_a_union() {
    let mut c = controller(vec![source("A")]);
    c.topology.extend_reload_set(strings(&["x", "y", "x"]));
    c.topology.extend_reload_set(strings(&["y", "z"]));
    for k in ["x", "y", "z"] {
        assert!(c.topology.is_forced(&key(k)));
    }
    assert!(!c.topology.is_forced(&key("A")));
}

#[test]
fn forced_set_can_be_replaced() {
    let mut c = controller(vec![source("A"), source("B")]);
    c.topology.extend_reload_set(strings(&["B"]));
    c.topology.replace_reload_set(strings(&["A"]));
    assert!(c.topology.is_forced(&key("A")));
    assert!(!c.topology.is_forced(&key("B")));
    c.topology.replace_reload_set(Vec::new());
    assert_eq!(
        c.reload(config(vec![source("A"), source("B")]), Vec::new(), None),
        Ok(ReloadOutcome::NoOp)
    );
}

#[test]
fn forced_component_that_arrives_is_added_not_changed() {
    let mut c = controller(vec![source("A")]);
    c.topology.extend_reload_set(strings(&["B"]));
    let next = config(vec![source("A"), source("B")]);
    assert_eq!(
        c.topology.diff_to(&next),
        ConfigDiff { to_remove: vec![], to_add: strings(&["B"]), to_change: vec![] }
    );
}

#[test]
fn candidate_is_put_under_the_health_policy() {
    let topology = RunningTopology::start(config(vec![source("A")]));
    let mut c: TopologyController<u8> = TopologyController::new(topology, Vec::new(), Some(true), 7);
    let next = config(vec![source("A"), source("B")]);
    assert!(!next.require_healthy());
    assert!(c.candidate(next.duplicate()).require_healthy());
    assert_eq!(c.reload(next, Vec::new(), None), Ok(ReloadOutcome::Applied));
    assert!(c.topology.config().require_healthy());
    assert_eq!(c.extra_context, 7);
    assert_eq!(c.require_healthy, Some(true));
    assert!(!c.api_running);
}

#[test]
fn candidate_without_policy_keeps_its_flag() {
    let c = controller(vec![source("A")]);
    let mut builder = ConfigBuilder::new().with_component(source("A"));
    builder.require_healthy = true;
    assert!(c.candidate(builder.build().expect("distinct keys")).require_healthy());
}

#[test]
fn stage_reload_tells_the_three_cases_apart() {
    let c = controller(vec![source("A")]);
    let same = config(vec![source("A")]);
    let other = config(vec![source("B")]);
    assert_eq!(c.stage_reload(&same, Vec::new()), ReloadStage::Unchanged);
    assert_eq!(
        c.stage_reload(&other, Vec::new()),
        ReloadStage::Apply(ConfigDiff {
            to_remove: strings(&["A"]),
            to_add: strings(&["B"]),
            to_change: vec![],
        })
    );
    assert_eq!(
        c.stage_reload(&other, strings(&["bad"])),
        ReloadStage::Rejected(strings(&["bad"]))
    );
    assert_eq!(c.topology.config().keys(), strings(&["A"]));
}

#[test]
fn commit_reload_swaps_or_reports() {
    let mut c = controller(vec![source("A")]);
    let fatal = ShutdownError::ComponentCrashed { key: key("B"), error: key("boom") };
    assert_eq!(
        c.commit_reload(config(vec![source("B")]), Some(fatal.clone())),
        ReloadOutcome::FatalError(fatal)
    );
    assert_eq!(c.topology.config().keys(), strings(&["A"]));
    assert_eq!(c.commit_reload(config(vec![source("B")]), None), ReloadOutcome::Applied);
    assert_eq!(c.topology.config().keys(), strings(&["B"]));
    assert_eq!(c.topology.epoch(), 1);
}

#[test]
fn reload_to_empty_config_stops_everything() {
    let mut c = controller(vec![source("A"), source("B")]);
    let next = config(vec![]);
    assert_eq!(c.topology.diff_to(&next).to_remove, strings(&["A", "B"]));
    assert_eq!(c.reload(next, Vec::new(), None), Ok(ReloadOutcome::Applied));
    assert!(c.topology.config().components().is_empty());
    assert!(!c.topology.has_sources());
}

#[test]
fn diff_lists_keep_configuration_order() {
    let old = config(vec![source("a"), source("b"), source("c"), source("d")]);
    let mut changed_c = source("c");
    changed_c.options = "changed".to_string();
    let mut changed_a = source("a");
    changed_a.options = "changed".to_string();
    let new = config(vec![source("z"), changed_c, source("y"), changed_a, source("b")]);
    let diff = compute_diff(&old, &new, &Vec::new());
    assert_eq!(diff.to_remove, strings(&["d"]));
    assert_eq!(diff.to_add, strings(&["z", "y"]));
    assert_eq!(diff.to_change, strings(&["c", "a"]));
    assert!(!diff.is_empty());
    assert!(!diff.touches(&key("b")));
    assert!(compute_diff(&old, &old, &Vec::new()).is_empty());
}

#[test]
fn sequence_of_reloads_is_all_or_nothing_each() {
    let mut c = controller(vec![source("A")]);
    let steps: Vec<(Vec<&str>, Vec<String>, Option<ShutdownError>, Vec<&str>)> = vec![
        (vec!["A", "B"], Vec::new(), None, vec!["A", "B"]),
        (vec!["C"], strings(&["invalid"]), None, vec!["A", "B"]),
        (vec!["C"], Vec::new(), Some(ShutdownError::ReloadFailedToRestore), vec!["A", "B"]),
        (vec!["A", "B"], Vec::new(), None, vec!["A", "B"]),
        (vec!["B", "C"], Vec::new(), None, vec!["B", "C"]),
    ];
    for (wanted, errors, verdict, expected) in steps {
        let before = c.topology.duplicate();
        let next = config(wanted.iter().map(|k| source(k)).collect());
        let outcome = c.reload(next, errors, verdict);
        if outcome == Ok(ReloadOutcome::Applied) {
            assert_eq!(c.topology.config().keys(), strings(&wanted));
        } else {
            assert_eq!(c.topology, before);
        }
        assert_eq!(c.topology.config().keys(), strings(&expected));
    }
    assert_eq!(c.topology.epoch(), 2);
    assert_eq!(c.topology.started_in(&key("B")), Some(1));
    assert_eq!(c.topology.started_in(&key("C")), Some(2));
}
