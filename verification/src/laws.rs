//! What holds of the reload protocol and of the run loop, whatever the
//! inputs.

use crate::config::{
    distinct_keys, has_key, lemma_lookup_at, lemma_position_of, lookup, position_of,
    ComponentSpecView, ConfigView,
};
use crate::controller::{ControllerView, ReloadOutcomeView};
use crate::diff::{
    arrives, diff_of, leaves, lemma_filter_none, lemma_filtered_keys, restarts, stays,
};
use crate::exit::{exit_code_of, ok_code, unavailable_code};
use crate::run_loop::{
    after_begin, after_config_result, after_round, after_rounds, signal_of_round,
    signal_of_rounds, step_of, with_paths, LoopEventView, ReloadAnswersView, RoundView,
    SignalStepView,
};
use crate::shutdown::{shutdown_kind, StopRace};
use crate::signal::{ShutdownErrorView, SignalView};
use crate::topology::{next_epoch, TopologyView};
use vstd::prelude::*;

verus! {

/// Whether `forced` names none of the components `cs`.
pub open spec fn none_forced(cs: Seq<ComponentSpecView>, forced: Set<Seq<char>>) -> bool {
    forall|i: int| 0 <= i < cs.len() ==> !forced.contains((#[trigger] cs[i]).key)
}

/// One request to reload, with what the outside world answers to it: the
/// new configuration, the errors that validating it reports, and the fatal
/// error that applying it ends in, if any.
pub struct ReloadRequest {
    pub new: ConfigView,
    pub errors: Seq<Seq<char>>,
    pub verdict: Option<ShutdownErrorView>,
}

/// The controller after the first `n` of `requests` were served in order.
pub open spec fn after_reloads<X>(
    controller: ControllerView<X>,
    requests: Seq<ReloadRequest>,
    n: nat,
) -> ControllerView<X>
    decreases n,
{
    if n == 0 {
        controller
    } else {
        let request = requests[n - 1];
        after_reloads(controller, requests, (n - 1) as nat).after_reload(
            request.new,
            request.errors,
            request.verdict,
        )
    }
}

/// A reload is all or nothing. Where it returns `Applied`, the candidate
/// runs afterwards and nothing but the topology has changed; in every
/// other case the controller is exactly what it was.
pub proof fn lemma_reload_all_or_nothing<X>(
    controller: ControllerView<X>,
    new: ConfigView,
    errors: Seq<Seq<char>>,
    verdict: Option<ShutdownErrorView>,
)
    ensures
        controller.reload_result(new, errors, verdict) == Ok::<
            ReloadOutcomeView,
            Seq<Seq<char>>,
        >(ReloadOutcomeView::Applied) ==> {
            &&& controller.after_reload(new, errors, verdict).topology
                == controller.topology.reloaded(controller.candidate(new))
            &&& controller.after_reload(new, errors, verdict).topology.config
                == controller.candidate(new)
            &&& controller.after_reload(new, errors, verdict) == (ControllerView {
                topology: controller.topology.reloaded(controller.candidate(new)),
                ..controller
            })
        },
        controller.reload_result(new, errors, verdict) != Ok::<
            ReloadOutcomeView,
            Seq<Seq<char>>,
        >(ReloadOutcomeView::Applied) ==> controller.after_reload(new, errors, verdict)
            == controller,
{
}

/// In any sequence of reloads served in order, each single one is all or
/// nothing: it leaves the controller as it found it, or it leaves its
/// candidate running in place of what ran before.
pub proof fn lemma_reloads_all_or_nothing<X>(
    controller: ControllerView<X>,
    requests: Seq<ReloadRequest>,
    i: nat,
)
    requires
        i < requests.len(),
    ensures
        ({
            let before = after_reloads(controller, requests, i);
            let after = after_reloads(controller, requests, i + 1);
            let candidate = before.candidate(requests[i as int].new);
            ||| after == before
            ||| after == (ControllerView { topology: before.topology.reloaded(candidate), ..before })
        }),
{
    let before = after_reloads(controller, requests, i);
    let request = requests[i as int];
    lemma_reload_all_or_nothing(before, request.new, request.errors, request.verdict);
}

/// A reload keeps a well-formed topology well formed.
pub proof fn lemma_reloaded_wf(topology: TopologyView, new: ConfigView)
    requires
        topology.wf(),
        new.wf(),
    ensures
        topology.reloaded(new).wf(),
{
    let after = topology.reloaded(new);
    assert forall|i: int| 0 <= i < after.since.len() implies #[trigger] after.since[i]
        <= after.epoch by {
        let c = new.components[i];
        if stays(topology.config.components, topology.forced, c) {
            lemma_position_of(topology.config.components, c.key);
        }
    }
}

/// A reload leaves alone what stays: a component that is described as
/// before, and is not marked for a forced restart, keeps the epoch of its
/// start. Every other component of the new configuration was started in the
/// epoch that the reload began.
pub proof fn lemma_reload_touches_only_what_changed(
    topology: TopologyView,
    new: ConfigView,
    i: int,
)
    requires
        topology.wf(),
        new.wf(),
        0 <= i < new.components.len(),
    ensures
        ({
            let c = new.components[i];
            let after = topology.reloaded(new);
            if stays(topology.config.components, topology.forced, c) {
                after.started_in(c.key) == topology.started_in(c.key)
            } else {
                after.started_in(c.key) == Some(next_epoch(topology.epoch))
            }
        }),
{
    lemma_lookup_at(new.components, i);
}

/// What the three lists of a difference name. A component is stopped
/// exactly when it runs and the new configuration has none of its name,
/// started exactly when the new configuration names it and none of that
/// name runs, and restarted exactly when it is there before and after and
/// is described differently or marked for a forced restart. A component
/// that is there before and after, described as before and not marked, is
/// named in none of the lists.
pub proof fn lemma_diff_names(
    old: Seq<ComponentSpecView>,
    new: Seq<ComponentSpecView>,
    forced: Set<Seq<char>>,
    key: Seq<char>,
)
    requires
        distinct_keys(old),
        distinct_keys(new),
    ensures
        diff_of(old, new, forced).to_remove.contains(key) <==> has_key(old, key) && !has_key(
            new,
            key,
        ),
        diff_of(old, new, forced).to_add.contains(key) <==> has_key(new, key) && !has_key(old, key),
        diff_of(old, new, forced).to_change.contains(key) <==> has_key(old, key) && has_key(
            new,
            key,
        ) && (lookup(old, key) != lookup(new, key) || forced.contains(key)),
        has_key(old, key) && lookup(old, key) == lookup(new, key) && !forced.contains(key)
            ==> !diff_of(old, new, forced).touches(key),
{
    let leaving = |c: ComponentSpecView| leaves(new, c);
    let arriving = |c: ComponentSpecView| arrives(old, c);
    let restarting = |c: ComponentSpecView| restarts(old, forced, c);
    lemma_filtered_keys(old, leaving, key);
    lemma_filtered_keys(new, arriving, key);
    lemma_filtered_keys(new, restarting, key);
    if has_key(new, key) {
        lemma_position_of(new, key);
        let at = position_of(new, key);
        lemma_lookup_at(new, at);
        assert forall|i: int| 0 <= i < new.len() && (#[trigger] new[i]).key == key implies i
            == at by {}
        if has_key(old, key) && (lookup(old, key) != lookup(new, key) || forced.contains(key)) {
            assert(new[at].key == key && restarting(new[at]));
        }
        if !has_key(old, key) {
            assert(new[at].key == key && arriving(new[at]));
        }
    }
    if has_key(old, key) && !has_key(new, key) {
        lemma_position_of(old, key);
        let at = position_of(old, key);
        assert(old[at].key == key && leaving(old[at]));
    }
}

/// Between a configuration and itself nothing differs, as long as none of
/// its components is marked for a forced restart.
pub proof fn lemma_diff_of_same(cs: Seq<ComponentSpecView>, forced: Set<Seq<char>>)
    requires
        distinct_keys(cs),
        none_forced(cs, forced),
    ensures
        diff_of(cs, cs, forced).is_empty(),
{
    let leaving = |c: ComponentSpecView| leaves(cs, c);
    let arriving = |c: ComponentSpecView| arrives(cs, c);
    let restarting = |c: ComponentSpecView| restarts(cs, forced, c);
    assert forall|i: int| 0 <= i < cs.len() implies !leaving(#[trigger] cs[i]) && !arriving(cs[i])
        && !restarting(cs[i]) by {
        lemma_lookup_at(cs, i);
    }
    lemma_filter_none(cs, leaving);
    lemma_filter_none(cs, arriving);
    lemma_filter_none(cs, restarting);
}

/// Reloading with the configuration that runs already is a no-op: where
/// the candidate is valid, names the same components as the running
/// configuration and describes them in the same way, and none of them is
/// marked for a forced restart, the reload returns `NoOp` and the
/// controller, and with it every running component, stays exactly as it
/// was.
pub proof fn lemma_unchanged_config_is_noop<X>(
    controller: ControllerView<X>,
    new: ConfigView,
    verdict: Option<ShutdownErrorView>,
)
    requires
        controller.topology.wf(),
        new.components == controller.topology.config.components,
        none_forced(new.components, controller.topology.forced),
    ensures
        controller.reload_result(new, Seq::empty(), verdict) == Ok::<
            ReloadOutcomeView,
            Seq<Seq<char>>,
        >(ReloadOutcomeView::NoOp),
        controller.after_reload(new, Seq::empty(), verdict) == controller,
        forall|key: Seq<char>|
            controller.after_reload(new, Seq::empty(), verdict).topology.started_in(key)
                == controller.topology.started_in(key),
{
    lemma_diff_of_same(new.components, controller.topology.forced);
    assert(controller.candidate(new).components == new.components);
}

/// Reloading twice in a row with the same valid configuration yields
/// `Applied` and then `NoOp`: where the configuration differs from what
/// runs, the engine applies it without a fatal error, and none of its
/// components is marked for a forced restart, the first reload applies it
/// and the second finds nothing to do and changes nothing.
pub proof fn lemma_reload_twice<X>(
    controller: ControllerView<X>,
    new: ConfigView,
    second_verdict: Option<ShutdownErrorView>,
)
    requires
        controller.topology.wf(),
        new.wf(),
        !controller.topology.diff_to(controller.candidate(new)).is_empty(),
        none_forced(new.components, controller.topology.forced),
    ensures
        controller.reload_result(new, Seq::empty(), None) == Ok::<
            ReloadOutcomeView,
            Seq<Seq<char>>,
        >(ReloadOutcomeView::Applied),
        ({
            let once = controller.after_reload(new, Seq::empty(), None);
            &&& once.reload_result(new, Seq::empty(), second_verdict) == Ok::<
                ReloadOutcomeView,
                Seq<Seq<char>>,
            >(ReloadOutcomeView::NoOp)
            &&& once.after_reload(new, Seq::empty(), second_verdict) == once
        }),
{
    let once = controller.after_reload(new, Seq::empty(), None);
    assert(once.topology.config == controller.candidate(new));
    assert(once.candidate(new).components == new.components);
    lemma_diff_of_same(new.components, once.topology.forced);
}

/// Two reloads in a row are served one after the other: the first is all or
/// nothing, and the second is staged against the controller as the first
/// left it, so that it sees either all of the first or none of it.
pub proof fn lemma_reloads_are_serialized<X>(
    controller: ControllerView<X>,
    first: ReloadRequest,
    second: ReloadRequest,
)
    ensures
        ({
            let between = controller.after_reload(first.new, first.errors, first.verdict);
            let requests = seq![first, second];
            &&& between == controller || between == (ControllerView {
                topology: controller.topology.reloaded(controller.candidate(first.new)),
                ..controller
            })
            &&& after_reloads(controller, requests, 1) == between
            &&& after_reloads(controller, requests, 2) == between.after_reload(
                second.new,
                second.errors,
                second.verdict,
            )
        }),
{
    let requests = seq![first, second];
    reveal_with_fuel(after_reloads, 3);
    assert(requests[0] == first);
    assert(requests[1] == second);
    lemma_reload_all_or_nothing(controller, first.new, first.errors, first.verdict);
}

/// Whatever a round of the run loop brings, the running configuration is
/// never left half applied. After the round the same components run as
/// before, each started when it was, or a reload has been applied in full.
/// Only the set of components marked for a forced restart can grow on the
/// way, and only the configuration paths can be replaced.
pub proof fn lemma_round_is_all_or_nothing<X>(controller: ControllerView<X>, round: RoundView)
    ensures
        ({
            let after = after_round(controller, round);
            let before = controller.topology;
            ||| (after.topology.config == before.config && after.topology.since == before.since
                && after.topology.epoch == before.epoch)
            ||| exists|new: ConfigView, forced: Set<Seq<char>>|
                after.topology == (TopologyView { forced, ..before }).reloaded(new)
        }),
        after_round(controller, round).require_healthy == controller.require_healthy,
        after_round(controller, round).api_running == controller.api_running,
        after_round(controller, round).extra_context == controller.extra_context,
        forall|key: Seq<char>|
            controller.topology.forced.contains(key) ==> after_round(
                controller,
                round,
            ).topology.forced.contains(key),
{
    let after = after_round(controller, round);
    let before = controller.topology;
    if let LoopEventView::Signal(received) = round.event {
        let begun = after_begin(controller, received);
        match step_of(received) {
            SignalStepView::LoadFromDisk => {
                let staged = with_paths(begun, round.answers.resolved_paths);
                lemma_config_result_is_all_or_nothing(
                    staged,
                    round.answers.loaded,
                    round.answers,
                );
                if after.topology != staged.topology {
                    let new = staged.candidate(round.answers.loaded->Ok_0);
                    assert(after.topology == (TopologyView {
                        forced: staged.topology.forced,
                        ..before
                    }).reloaded(new));
                }
            },
            SignalStepView::Built(built) => {
                lemma_config_result_is_all_or_nothing(begun, built, round.answers);
                if after.topology != begun.topology {
                    let new = begun.candidate(built->Ok_0);
                    assert(after.topology == (TopologyView {
                        forced: begun.topology.forced,
                        ..before
                    }).reloaded(new));
                }
            },
            _ => {},
        }
    }
}

/// A reload with the result of loading or building a configuration is all
/// or nothing: the controller stays as it was, or the candidate runs in
/// place of what ran before.
pub proof fn lemma_config_result_is_all_or_nothing<X>(
    controller: ControllerView<X>,
    config: Result<ConfigView, Seq<Seq<char>>>,
    answers: ReloadAnswersView,
)
    ensures
        ({
            let after = after_config_result(controller, config, answers);
            ||| after == controller
            ||| config is Ok && after == (ControllerView {
                topology: controller.topology.reloaded(controller.candidate(config->Ok_0)),
                ..controller
            })
        }),
{
    if let Ok(new) = config {
        lemma_reload_all_or_nothing(controller, new, answers.validation, answers.verdict);
    }
}

/// An error on the crash channel always ends the run loop, with a shutdown
/// that carries the error. Where the topology then drains before anything
/// else arrives, the process leaves with the code of a normal end, although
/// an error caused the shutdown; where a signal arrives first, it leaves
/// with the code of a forced one.
pub proof fn lemma_crash_ends_the_loop<X>(controller: ControllerView<X>, round: RoundView)
    requires
        round.event is Crash,
    ensures
        signal_of_round(controller, round) == Some(SignalView::Shutdown(round.event->Crash_0)),
        after_round(controller, round) == controller,
        exit_code_of(
            shutdown_kind(SignalView::Shutdown(round.event->Crash_0), StopRace::Drained),
        ) == ok_code(),
        exit_code_of(
            shutdown_kind(SignalView::Shutdown(round.event->Crash_0), StopRace::Interrupted),
        ) == unavailable_code(),
{
}

/// A run loop that is handed an error on the crash channel has ended by
/// then at the latest: no sequence of rounds with a crash in it leaves the
/// loop running.
pub proof fn lemma_crash_is_never_absorbed<X>(
    controller: ControllerView<X>,
    rounds: Seq<RoundView>,
    i: int,
)
    requires
        0 <= i < rounds.len(),
        rounds[i].event is Crash,
    ensures
        signal_of_rounds(controller, rounds) is Some,
    decreases rounds.len(),
{
    if signal_of_round(controller, rounds[0]) is None {
        assert(i > 0);
        assert(rounds.drop_first()[i - 1] == rounds[i]);
        lemma_crash_is_never_absorbed(
            after_round(controller, rounds[0]),
            rounds.drop_first(),
            i - 1,
        );
    }
}

/// A topology without sources is never shut down because its sources have
/// finished: however often that event is reported, the loop goes on and the
/// controller stays as it was.
pub proof fn lemma_no_sources_never_finish<X>(controller: ControllerView<X>, rounds: Seq<RoundView>)
    requires
        !controller.topology.config.has_sources(),
        forall|i: int| 0 <= i < rounds.len() ==> (#[trigger] rounds[i]).event is SourcesFinished,
    ensures
        signal_of_rounds(controller, rounds) is None,
        after_rounds(controller, rounds) == controller,
    decreases rounds.len(),
{
    if rounds.len() > 0 {
        assert(rounds[0].event is SourcesFinished);
        assert forall|i: int| 0 <= i < rounds.drop_first().len() implies (
        #[trigger] rounds.drop_first()[i]).event is SourcesFinished by {
            assert(rounds.drop_first()[i] == rounds[i + 1]);
        }
        lemma_no_sources_never_finish(controller, rounds.drop_first());
    }
}

/// A candidate that fails validation is never applied: the reload returns
/// the errors, which are those that the validation reported, and the
/// controller stays as it was.
pub proof fn lemma_invalid_config_is_rejected<X>(
    controller: ControllerView<X>,
    new: ConfigView,
    errors: Seq<Seq<char>>,
    verdict: Option<ShutdownErrorView>,
)
    requires
        errors.len() > 0,
    ensures
        controller.reload_result(new, errors, verdict) == Err::<
            ReloadOutcomeView,
            Seq<Seq<char>>,
        >(errors),
        controller.after_reload(new, errors, verdict) == controller,
{
}

} // verus!
