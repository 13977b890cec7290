//! The run loop: what the lifecycle machine does with each event while the
//! pipeline runs, and when it stops running.
//!
//! In every round the caller waits for three things at once: a signal on
//! the signal channel, an error on the crash channel, and, while the
//! topology holds a source, the moment at which all sources have finished.
//! Whichever comes first is handed to the functions of this module, which
//! say whether the loop goes on and what a reload has to do.
//!
//! The work that a reload needs from outside (resolving the configuration
//! paths, loading a configuration, validating a candidate, applying a
//! difference) is the caller's. [`begin_signal`], [`update_paths`] and the
//! reload steps of the controller are the seams between which the caller
//! does that work. [`handle_signal`] and [`StartedApplication::main`] put
//! the steps together for answers that are known beforehand.

use crate::application::{FinishedApplication, StartedApplication};
use crate::config::{
    build_result, config_result_view, Config, ConfigPath, ConfigPathView, ConfigView,
};
use crate::controller::{ControllerView, ReloadOutcome, ReloadOutcomeView, TopologyController};
use crate::signal::{ReceiveError, ShutdownError, ShutdownErrorView, SignalTo, SignalView};
use crate::topology::TopologyView;
use vstd::prelude::*;

verus! {

/// What the outside world answers in the course of one reload.
#[derive(Debug, PartialEq, Eq)]
pub struct ReloadAnswers {
    /// The configuration paths as they resolve now; `None` where they
    /// cannot be resolved.
    pub resolved_paths: Option<Vec<ConfigPath>>,
    /// The configuration that loading from those paths gives, or the errors
    /// of the attempt.
    pub loaded: Result<Config, Vec<String>>,
    /// The errors that validating the candidate reports; none where it is
    /// valid.
    pub validation: Vec<String>,
    /// The fatal error that applying the difference ends in, if any.
    pub verdict: Option<ShutdownError>,
}

/// The mathematical value of a [`ReloadAnswers`].
pub struct ReloadAnswersView {
    pub resolved_paths: Option<Seq<ConfigPathView>>,
    pub loaded: Result<ConfigView, Seq<Seq<char>>>,
    pub validation: Seq<Seq<char>>,
    pub verdict: Option<ShutdownErrorView>,
}

impl View for ReloadAnswers {
    type V = ReloadAnswersView;

    open spec fn view(&self) -> ReloadAnswersView {
        ReloadAnswersView {
            resolved_paths: self.resolved_paths.deep_view(),
            loaded: config_result_view(self.loaded),
            validation: self.validation.deep_view(),
            verdict: self.verdict.deep_view(),
        }
    }
}

/// What is to be done about a signal once it was looked at.
#[derive(Debug, PartialEq, Eq)]
pub enum SignalStep {
    /// Nothing more: the loop ends with the signal where there is one, and
    /// goes on where there is none.
    Done(Option<SignalTo>),
    /// This many signals were dropped because the reader fell behind. The
    /// loop goes on.
    Lagged(u64),
    /// Resolve the configuration paths, load the configuration from disk,
    /// and reload with what comes of it.
    LoadFromDisk,
    /// Reload with this result of building a configuration in memory.
    Built(Result<Config, Vec<String>>),
}

/// The mathematical value of a [`SignalStep`].
pub enum SignalStepView {
    Done(Option<SignalView>),
    Lagged(u64),
    LoadFromDisk,
    Built(Result<ConfigView, Seq<Seq<char>>>),
}

impl View for SignalStep {
    type V = SignalStepView;

    open spec fn view(&self) -> SignalStepView {
        match self {
            SignalStep::Done(signal) => SignalStepView::Done(signal.deep_view()),
            SignalStep::Lagged(n) => SignalStepView::Lagged(*n),
            SignalStep::LoadFromDisk => SignalStepView::LoadFromDisk,
            SignalStep::Built(result) => SignalStepView::Built(config_result_view(*result)),
        }
    }
}

/// What happened first in one round of the run loop.
#[derive(Debug, PartialEq, Eq)]
pub enum LoopEvent {
    /// The signal channel handed over a signal, or failed to.
    Signal(Result<SignalTo, ReceiveError>),
    /// The crash channel handed over an error, or closed.
    Crash(Option<ShutdownError>),
    /// All sources have finished.
    SourcesFinished,
}

/// One round of the run loop: the event, and what the outside world
/// answers if the event leads to a reload.
#[derive(Debug, PartialEq, Eq)]
pub struct Round {
    pub event: LoopEvent,
    pub answers: ReloadAnswers,
}

/// The mathematical value of a [`LoopEvent`].
pub enum LoopEventView {
    Signal(Result<SignalView, ReceiveError>),
    Crash(Option<ShutdownErrorView>),
    SourcesFinished,
}

/// The mathematical value of a [`Round`].
pub struct RoundView {
    pub event: LoopEventView,
    pub answers: ReloadAnswersView,
}

impl View for LoopEvent {
    type V = LoopEventView;

    open spec fn view(&self) -> LoopEventView {
        match self {
            LoopEvent::Signal(received) => LoopEventView::Signal(received_view(*received)),
            LoopEvent::Crash(error) => LoopEventView::Crash(error.deep_view()),
            LoopEvent::SourcesFinished => LoopEventView::SourcesFinished,
        }
    }
}

impl View for Round {
    type V = RoundView;

    open spec fn view(&self) -> RoundView {
        RoundView { event: self.event@, answers: self.answers@ }
    }
}

impl DeepView for Round {
    type V = RoundView;

    open spec fn deep_view(&self) -> RoundView {
        self@
    }
}

/// The view of what the signal channel hands over.
pub open spec fn received_view(received: Result<SignalTo, ReceiveError>) -> Result<
    SignalView,
    ReceiveError,
> {
    match received {
        Ok(signal) => Ok(signal@),
        Err(error) => Err(error),
    }
}

/// What is to be done about what the signal channel handed over.
///
/// A lagging reader is reported and otherwise ignored. A closed channel
/// counts as a request to shut down without an error. `Shutdown` and `Quit`
/// end the loop. The three reload requests lead to a reload: from disk, or
/// with the configuration that the signal brought along.
pub open spec fn step_of(received: Result<SignalView, ReceiveError>) -> SignalStepView {
    match received {
        Ok(SignalView::ReloadComponents(_)) => SignalStepView::LoadFromDisk,
        Ok(SignalView::ReloadFromConfigBuilder(builder)) => SignalStepView::Built(
            build_result(builder),
        ),
        Ok(SignalView::ReloadFromDisk) => SignalStepView::LoadFromDisk,
        Ok(signal) => SignalStepView::Done(Some(signal)),
        Err(ReceiveError::Lagged(n)) => SignalStepView::Lagged(n),
        Err(ReceiveError::Closed) => SignalStepView::Done(Some(SignalView::Shutdown(None))),
    }
}

/// The controller after a signal was looked at: a request to reload named
/// components adds those names to the components that every reload
/// restarts; nothing else touches the controller.
pub open spec fn after_begin<X>(
    controller: ControllerView<X>,
    received: Result<SignalView, ReceiveError>,
) -> ControllerView<X> {
    match received {
        Ok(SignalView::ReloadComponents(keys)) => ControllerView {
            topology: TopologyView {
                forced: controller.topology.forced.union(keys.to_set()),
                ..controller.topology
            },
            ..controller
        },
        _ => controller,
    }
}

/// The controller after the configuration paths were resolved anew: the
/// new paths replace the old ones where there are any.
pub open spec fn with_paths<X>(
    controller: ControllerView<X>,
    resolved: Option<Seq<ConfigPathView>>,
) -> ControllerView<X> {
    match resolved {
        Some(paths) => ControllerView { config_paths: paths, ..controller },
        None => controller,
    }
}

/// The signal that a reload outcome ends the loop with: a fatal error asks
/// for a shutdown that carries the error, every other outcome lets the loop
/// go on.
pub open spec fn signal_after(outcome: ReloadOutcomeView) -> Option<SignalView> {
    match outcome {
        ReloadOutcomeView::FatalError(error) => Some(SignalView::Shutdown(Some(error))),
        _ => None,
    }
}

/// The controller after a reload with the result of loading or building a
/// configuration: a failed load changes nothing, a configuration is
/// reloaded to.
pub open spec fn after_config_result<X>(
    controller: ControllerView<X>,
    config: Result<ConfigView, Seq<Seq<char>>>,
    answers: ReloadAnswersView,
) -> ControllerView<X> {
    match config {
        Ok(new) => controller.after_reload(new, answers.validation, answers.verdict),
        Err(_) => controller,
    }
}

/// The signal, if any, that such a reload ends the loop with.
pub open spec fn signal_after_config_result<X>(
    controller: ControllerView<X>,
    config: Result<ConfigView, Seq<Seq<char>>>,
    answers: ReloadAnswersView,
) -> Option<SignalView> {
    match config {
        Ok(new) => match controller.reload_result(new, answers.validation, answers.verdict) {
            Ok(outcome) => signal_after(outcome),
            Err(_) => None,
        },
        Err(_) => None,
    }
}

/// The controller after a signal was handled to the end.
pub open spec fn after_signal<X>(
    controller: ControllerView<X>,
    received: Result<SignalView, ReceiveError>,
    answers: ReloadAnswersView,
) -> ControllerView<X> {
    let begun = after_begin(controller, received);
    match step_of(received) {
        SignalStepView::LoadFromDisk => after_config_result(
            with_paths(begun, answers.resolved_paths),
            answers.loaded,
            answers,
        ),
        SignalStepView::Built(built) => after_config_result(begun, built, answers),
        _ => begun,
    }
}

/// The signal, if any, that handling a signal ends the loop with.
pub open spec fn signal_of<X>(
    controller: ControllerView<X>,
    received: Result<SignalView, ReceiveError>,
    answers: ReloadAnswersView,
) -> Option<SignalView> {
    let begun = after_begin(controller, received);
    match step_of(received) {
        SignalStepView::Done(signal) => signal,
        SignalStepView::Lagged(_) => None,
        SignalStepView::LoadFromDisk => signal_after_config_result(
            with_paths(begun, answers.resolved_paths),
            answers.loaded,
            answers,
        ),
        SignalStepView::Built(built) => signal_after_config_result(begun, built, answers),
    }
}

/// The controller after one round of the run loop. Only a signal can
/// change it.
pub open spec fn after_round<X>(controller: ControllerView<X>, round: RoundView) -> ControllerView<
    X,
> {
    match round.event {
        LoopEventView::Signal(received) => after_signal(controller, received, round.answers),
        _ => controller,
    }
}

/// The signal, if any, that one round ends the loop with.
///
/// What the crash channel hands over always ends the loop, with a shutdown
/// that carries the error. The end of all sources ends it only while the
/// topology holds a source.
pub open spec fn signal_of_round<X>(controller: ControllerView<X>, round: RoundView) -> Option<
    SignalView,
> {
    match round.event {
        LoopEventView::Signal(received) => signal_of(controller, received, round.answers),
        LoopEventView::Crash(error) => Some(SignalView::Shutdown(error)),
        LoopEventView::SourcesFinished => if controller.topology.config.has_sources() {
            Some(SignalView::Shutdown(None))
        } else {
            None
        },
    }
}

/// The controller after the run loop went through `rounds`, as far as it
/// got: the loop stops at the first round that ends it.
pub open spec fn after_rounds<X>(
    controller: ControllerView<X>,
    rounds: Seq<RoundView>,
) -> ControllerView<X>
    decreases rounds.len(),
{
    if rounds.len() == 0 {
        controller
    } else if signal_of_round(controller, rounds[0]) is Some {
        after_round(controller, rounds[0])
    } else {
        after_rounds(after_round(controller, rounds[0]), rounds.drop_first())
    }
}

/// The signal that the run loop ends with when it goes through `rounds`;
/// `None` where it is still running after the last of them.
pub open spec fn signal_of_rounds<X>(
    controller: ControllerView<X>,
    rounds: Seq<RoundView>,
) -> Option<SignalView>
    decreases rounds.len(),
{
    if rounds.len() == 0 {
        None
    } else if signal_of_round(controller, rounds[0]) is Some {
        signal_of_round(controller, rounds[0])
    } else {
        signal_of_rounds(after_round(controller, rounds[0]), rounds.drop_first())
    }
}

/// Whatever ends a round of the run loop is `Shutdown` or `Quit`: a request
/// to reload never leaves the loop as a signal.
pub proof fn lemma_round_signal_terminates<X>(controller: ControllerView<X>, round: RoundView)
    ensures
        signal_of_round(controller, round) matches Some(signal) ==> signal.is_terminating(),
{
}

/// Looks at what the signal channel handed over and says what is to be
/// done about it. A request to reload named components marks those
/// components for a forced restart right away.
pub fn begin_signal<X>(
    received: Result<SignalTo, ReceiveError>,
    topology_controller: &mut TopologyController<X>,
) -> (step: SignalStep)
    ensures
        step@ == step_of(received_view(received)),
        final(topology_controller)@ == after_begin(
            old(topology_controller)@,
            received_view(received),
        ),
{
    match received {
        Ok(SignalTo::ReloadComponents(components_to_reload)) => {
            topology_controller.topology.extend_reload_set(components_to_reload);
            SignalStep::LoadFromDisk
        },
        Ok(SignalTo::ReloadFromConfigBuilder(config_builder)) => SignalStep::Built(
            config_builder.build(),
        ),
        Ok(SignalTo::ReloadFromDisk) => SignalStep::LoadFromDisk,
        Err(ReceiveError::Lagged(amount)) => SignalStep::Lagged(amount),
        Err(ReceiveError::Closed) => SignalStep::Done(Some(SignalTo::Shutdown(None))),
        Ok(signal) => SignalStep::Done(Some(signal)),
    }
}

/// Takes over the configuration paths as they resolve now; where they do
/// not resolve, the paths in effect stay.
pub fn update_paths<X>(
    topology_controller: &mut TopologyController<X>,
    resolved: Option<Vec<ConfigPath>>,
)
    ensures
        final(topology_controller)@ == with_paths(old(topology_controller)@, resolved.deep_view()),
{
    if let Some(paths) = resolved {
        topology_controller.config_paths = paths;
    }
}

/// What a reload outcome means for the run loop: a fatal error ends it with
/// a shutdown that carries the error, every other outcome lets it go on.
pub fn after_reload(outcome: ReloadOutcome) -> (signal: Option<SignalTo>)
    ensures
        signal.deep_view() == signal_after(outcome@),
{
    match outcome {
        ReloadOutcome::FatalError(error) => Some(SignalTo::Shutdown(Some(error))),
        _ => None,
    }
}

/// Reloads with the result of loading or building a configuration.
///
/// Where there is no configuration, nothing changes and the loop goes on.
/// Where there is one, the controller reloads to it, with `validation` for
/// what validating the candidate reports and `verdict` for what the engine
/// answers if it is asked to apply the difference. Only a fatal error of
/// the engine ends the loop.
pub fn reload_config_from_result<X>(
    topology_controller: &mut TopologyController<X>,
    config: Result<Config, Vec<String>>,
    validation: Vec<String>,
    verdict: Option<ShutdownError>,
) -> (signal: Option<SignalTo>)
    ensures
        final(topology_controller)@ == (match config {
            Ok(new) => old(topology_controller)@.after_reload(
                new@,
                validation.deep_view(),
                verdict.deep_view(),
            ),
            Err(_) => old(topology_controller)@,
        }),
        signal.deep_view() == (match config {
            Ok(new) => match old(topology_controller)@.reload_result(
                new@,
                validation.deep_view(),
                verdict.deep_view(),
            ) {
                Ok(outcome) => signal_after(outcome),
                Err(_) => None,
            },
            Err(_) => None,
        }),
{
    match config {
        Ok(new_config) => match topology_controller.reload(new_config, validation, verdict) {
            Ok(outcome) => after_reload(outcome),
            Err(_) => None,
        },
        Err(_) => None,
    }
}

/// Handles what the signal channel handed over, to the end, for answers
/// that are known beforehand. Returns the signal that ends the run loop, or
/// `None` where the loop goes on.
pub fn handle_signal<X>(
    received: Result<SignalTo, ReceiveError>,
    topology_controller: &mut TopologyController<X>,
    answers: ReloadAnswers,
) -> (signal: Option<SignalTo>)
    ensures
        final(topology_controller)@ == after_signal(
            old(topology_controller)@,
            received_view(received),
            answers@,
        ),
        signal.deep_view() == signal_of(
            old(topology_controller)@,
            received_view(received),
            answers@,
        ),
{
    match begin_signal(received, topology_controller) {
        SignalStep::Done(signal) => signal,
        SignalStep::Lagged(_) => None,
        SignalStep::LoadFromDisk => {
            update_paths(topology_controller, answers.resolved_paths);
            reload_config_from_result(
                topology_controller,
                answers.loaded,
                answers.validation,
                answers.verdict,
            )
        },
        SignalStep::Built(built) => reload_config_from_result(
            topology_controller,
            built,
            answers.validation,
            answers.verdict,
        ),
    }
}

/// What an event on the crash channel means for the run loop: it always
/// ends, with a shutdown that carries the error if there is one.
pub fn on_crash(error: Option<ShutdownError>) -> (signal: SignalTo)
    ensures
        signal@ == SignalView::Shutdown(error.deep_view()),
{
    SignalTo::Shutdown(error)
}

impl<X> StartedApplication<X> {
    /// Whether the end of all sources is waited for in the next round: only
    /// while the topology holds a source.
    pub fn has_sources(&self) -> (armed: bool)
        ensures
            armed == self.topology_controller@.topology.config.has_sources(),
    {
        self.topology_controller.topology.has_sources()
    }

    /// What the end of all sources means for the run loop: it ends with a
    /// shutdown without an error while the topology holds a source, and goes
    /// on otherwise.
    pub fn on_sources_finished(&self) -> (signal: Option<SignalTo>)
        ensures
            signal.deep_view() == (if self.topology_controller@.topology.config.has_sources() {
                Some(SignalView::Shutdown(None))
            } else {
                None
            }),
    {
        if self.has_sources() {
            Some(SignalTo::Shutdown(None))
        } else {
            None
        }
    }

    /// One round of the run loop, for answers that are known beforehand.
    /// Returns the signal that ends the loop, or `None` where it goes on.
    pub fn on_event(&mut self, round: Round) -> (signal: Option<SignalTo>)
        ensures
            final(self).topology_controller@ == after_round(old(self).topology_controller@, round@),
            signal.deep_view() == signal_of_round(old(self).topology_controller@, round@),
            final(self).config_paths == old(self).config_paths,
            final(self).internal_topologies == old(self).internal_topologies,
            final(self).allow_empty_config == old(self).allow_empty_config,
    {
        match round.event {
            LoopEvent::Signal(received) => handle_signal(
                received,
                &mut self.topology_controller,
                round.answers,
            ),
            LoopEvent::Crash(error) => Some(on_crash(error)),
            LoopEvent::SourcesFinished => self.on_sources_finished(),
        }
    }

    /// The run loop, for rounds that are known beforehand. The loop goes
    /// through the rounds in order and stops at the first that ends it.
    ///
    /// Returns the finished application, with the signal that ended the
    /// loop, or the application still running where no round ended it.
    pub fn main(self, rounds: Vec<Round>) -> (end: Result<
        FinishedApplication<X>,
        StartedApplication<X>,
    >)
        ensures
            match end {
                Ok(finished) => {
                    &&& signal_of_rounds(self.topology_controller@, rounds.deep_view()) == Some(
                        finished.signal()@,
                    )
                    &&& finished.topology_controller()@ == after_rounds(
                        self.topology_controller@,
                        rounds.deep_view(),
                    )
                    &&& *finished.internal_topologies() == self.internal_topologies
                },
                Err(running) => {
                    &&& signal_of_rounds(self.topology_controller@, rounds.deep_view()) is None
                    &&& running.topology_controller@ == after_rounds(
                        self.topology_controller@,
                        rounds.deep_view(),
                    )
                    &&& running.config_paths == self.config_paths
                    &&& running.internal_topologies == self.internal_topologies
                    &&& running.allow_empty_config == self.allow_empty_config
                },
            },
    {
        let mut app = self;
        let mut rest = rounds;
        while rest.len() > 0
            invariant
                signal_of_rounds(self.topology_controller@, rounds.deep_view())
                    == signal_of_rounds(app.topology_controller@, rest.deep_view()),
                after_rounds(self.topology_controller@, rounds.deep_view()) == after_rounds(
                    app.topology_controller@,
                    rest.deep_view(),
                ),
                app.config_paths == self.config_paths,
                app.internal_topologies == self.internal_topologies,
                app.allow_empty_config == self.allow_empty_config,
            decreases rest.len(),
        {
            let ghost before = rest.deep_view();
            let round = rest.remove(0);
            assert(before[0] == round@);
            assert(rest.deep_view() =~= before.drop_first());
            let ghost controller = app.topology_controller@;
            if let Some(signal) = app.on_event(round) {
                proof {
                    lemma_round_signal_terminates(controller, round@);
                }
                return Ok(
                    FinishedApplication::around(
                        signal,
                        app.topology_controller,
                        app.internal_topologies,
                    ),
                );
            }
        }
        Err(app)
    }
}

} // verus!
