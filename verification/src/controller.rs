//! The topology controller: the one owner of the running topology, and the
//! reload protocol that it executes.
//!
//! A reload goes through three steps. The candidate configuration is
//! validated: where the validation reports errors the reload is rejected and
//! nothing changes. The candidate is then compared with what runs: where
//! nothing differs the reload is a no-op. Otherwise the pipeline engine is
//! asked to apply the difference, and its verdict decides: on success the
//! candidate replaces the running configuration in one step, on a fatal error
//! the record stays as it was and the error is handed up.
//!
//! Validating and applying are the engine's work. The functions here take
//! what the engine answered as plain values.

use crate::config::{Config, ConfigPath, ConfigPathView, ConfigView};
use crate::diff::{ConfigDiff, ConfigDiffView};
use crate::signal::{ShutdownError, ShutdownErrorView};
use crate::topology::{RunningTopology, TopologyView};
use vstd::prelude::*;

verus! {

/// The result of one reload attempt that was not rejected.
#[derive(Clone, Debug, PartialEq, Eq)]
pub enum ReloadOutcome {
    /// The candidate replaced the running configuration.
    Applied,
    /// The candidate asked for nothing that does not run already.
    NoOp,
    /// The engine cannot go on safely; the process has to shut down.
    FatalError(ShutdownError),
}

/// The mathematical value of a [`ReloadOutcome`].
pub enum ReloadOutcomeView {
    Applied,
    NoOp,
    FatalError(ShutdownErrorView),
}

impl View for ReloadOutcome {
    type V = ReloadOutcomeView;

    open spec fn view(&self) -> ReloadOutcomeView {
        match self {
            ReloadOutcome::Applied => ReloadOutcomeView::Applied,
            ReloadOutcome::NoOp => ReloadOutcomeView::NoOp,
            ReloadOutcome::FatalError(error) => ReloadOutcomeView::FatalError(error@),
        }
    }
}

/// Where a reload stands once the candidate was validated and compared with
/// what runs.
#[derive(Clone, Debug, PartialEq, Eq)]
pub enum ReloadStage {
    /// The candidate is invalid; the errors say why. Nothing is to be done.
    Rejected(Vec<String>),
    /// The candidate asks for nothing that does not run already.
    Unchanged,
    /// The engine has to apply this difference.
    Apply(ConfigDiff),
}

/// The mathematical value of a [`ReloadStage`].
pub enum ReloadStageView {
    Rejected(Seq<Seq<char>>),
    Unchanged,
    Apply(ConfigDiffView),
}

impl View for ReloadStage {
    type V = ReloadStageView;

    open spec fn view(&self) -> ReloadStageView {
        match self {
            ReloadStage::Rejected(errors) => ReloadStageView::Rejected(errors.deep_view()),
            ReloadStage::Unchanged => ReloadStageView::Unchanged,
            ReloadStage::Apply(diff) => ReloadStageView::Apply(diff@),
        }
    }
}

/// The running topology together with what a reload needs beside it.
///
/// `X` is the type of the state that the caller carries along for its own
/// extensions; the controller keeps it and never looks into it.
#[derive(Debug, PartialEq, Eq)]
pub struct TopologyController<X> {
    pub topology: RunningTopology,
    /// The configuration paths currently in effect.
    pub config_paths: Vec<ConfigPath>,
    /// The health policy that every reload imposes on its candidate.
    pub require_healthy: Option<bool>,
    /// Whether an introspection server is held.
    pub api_running: bool,
    pub extra_context: X,
}

/// The mathematical value of a [`TopologyController`].
pub struct ControllerView<X> {
    pub topology: TopologyView,
    pub config_paths: Seq<ConfigPathView>,
    pub require_healthy: Option<bool>,
    pub api_running: bool,
    pub extra_context: X,
}

impl<X> View for TopologyController<X> {
    type V = ControllerView<X>;

    open spec fn view(&self) -> ControllerView<X> {
        ControllerView {
            topology: self.topology@,
            config_paths: self.config_paths.deep_view(),
            require_healthy: self.require_healthy,
            api_running: self.api_running,
            extra_context: self.extra_context,
        }
    }
}

impl<X> ControllerView<X> {
    /// The candidate that a reload works with: `new` under the controller's
    /// health policy.
    pub open spec fn candidate(self, new: ConfigView) -> ConfigView {
        new.with_health_policy(self.require_healthy)
    }

    /// Where a reload to `candidate` stands, given the errors that the
    /// validation reported.
    pub open spec fn stage(self, candidate: ConfigView, errors: Seq<Seq<char>>) -> ReloadStageView {
        if errors.len() > 0 {
            ReloadStageView::Rejected(errors)
        } else if self.topology.diff_to(candidate).is_empty() {
            ReloadStageView::Unchanged
        } else {
            ReloadStageView::Apply(self.topology.diff_to(candidate))
        }
    }

    /// The controller after the engine gave its verdict on applying
    /// `candidate`: unchanged on a fatal error, with the candidate swapped in
    /// otherwise.
    pub open spec fn committed(
        self,
        candidate: ConfigView,
        verdict: Option<ShutdownErrorView>,
    ) -> ControllerView<X> {
        match verdict {
            Some(_) => self,
            None => ControllerView { topology: self.topology.reloaded(candidate), ..self },
        }
    }

    /// The outcome that goes with the engine's verdict.
    pub open spec fn commit_outcome(verdict: Option<ShutdownErrorView>) -> ReloadOutcomeView {
        match verdict {
            Some(error) => ReloadOutcomeView::FatalError(error),
            None => ReloadOutcomeView::Applied,
        }
    }

    /// The controller after a whole reload to `new`, where the validation
    /// reported `errors` and the engine, if it is asked, answers `verdict`.
    pub open spec fn after_reload(
        self,
        new: ConfigView,
        errors: Seq<Seq<char>>,
        verdict: Option<ShutdownErrorView>,
    ) -> ControllerView<X> {
        match self.stage(self.candidate(new), errors) {
            ReloadStageView::Apply(_) => self.committed(self.candidate(new), verdict),
            _ => self,
        }
    }

    /// What a whole reload to `new` returns, under the same answers.
    pub open spec fn reload_result(
        self,
        new: ConfigView,
        errors: Seq<Seq<char>>,
        verdict: Option<ShutdownErrorView>,
    ) -> Result<ReloadOutcomeView, Seq<Seq<char>>> {
        match self.stage(self.candidate(new), errors) {
            ReloadStageView::Rejected(errors) => Err(errors),
            ReloadStageView::Unchanged => Ok(ReloadOutcomeView::NoOp),
            ReloadStageView::Apply(_) => Ok(Self::commit_outcome(verdict)),
        }
    }
}

/// The view of what a reload returns.
pub open spec fn reload_result_view(result: Result<ReloadOutcome, Vec<String>>) -> Result<
    ReloadOutcomeView,
    Seq<Seq<char>>,
> {
    match result {
        Ok(outcome) => Ok(outcome@),
        Err(errors) => Err(errors.deep_view()),
    }
}

impl<X> TopologyController<X> {
    /// A controller for `topology`, with no introspection server held.
    pub fn new(
        topology: RunningTopology,
        config_paths: Vec<ConfigPath>,
        require_healthy: Option<bool>,
        extra_context: X,
    ) -> (controller: TopologyController<X>)
        ensures
            controller@ == (ControllerView {
                topology: topology@,
                config_paths: config_paths.deep_view(),
                require_healthy,
                api_running: false,
                extra_context,
            }),
    {
        TopologyController {
            topology,
            config_paths,
            require_healthy,
            api_running: false,
            extra_context,
        }
    }

    /// Puts `new` under the controller's health policy.
    pub fn candidate(&self, new: Config) -> (candidate: Config)
        ensures
            candidate@ == self@.candidate(new@),
    {
        let mut candidate = new;
        candidate.set_require_healthy(self.require_healthy);
        candidate
    }

    /// First and second step of a reload: rejects the candidate where the
    /// validation reported errors, and otherwise compares it with what runs.
    /// The controller itself is not touched.
    pub fn stage_reload(&self, candidate: &Config, errors: Vec<String>) -> (stage: ReloadStage)
        ensures
            stage@ == self@.stage(candidate@, errors.deep_view()),
    {
        if errors.len() > 0 {
            return ReloadStage::Rejected(errors);
        }
        assert(errors.deep_view().len() == 0);
        let diff = self.topology.diff_to(candidate);
        if diff.is_empty() {
            ReloadStage::Unchanged
        } else {
            ReloadStage::Apply(diff)
        }
    }

    /// Third step of a reload, taken once the engine was asked to apply the
    /// difference. On a fatal error the controller stays as it was and the
    /// error is handed up; otherwise the candidate replaces the running
    /// configuration in one step.
    pub fn commit_reload(&mut self, candidate: Config, verdict: Option<ShutdownError>) -> (outcome:
        ReloadOutcome)
        ensures
            final(self)@ == old(self)@.committed(candidate@, verdict.deep_view()),
            outcome@ == ControllerView::<X>::commit_outcome(verdict.deep_view()),
    {
        match verdict {
            Some(error) => ReloadOutcome::FatalError(error),
            None => {
                self.topology.swap_in(candidate);
                ReloadOutcome::Applied
            },
        }
    }

    /// A whole reload to `new`, for answers that are known beforehand:
    /// `errors` is what the validation reports of the candidate, and
    /// `verdict` is what the engine answers if it is asked to apply the
    /// difference.
    ///
    /// Returns the errors where the candidate is rejected, `NoOp` where it
    /// asks for nothing new, `FatalError` where the engine fails, and
    /// `Applied` otherwise. Only `Applied` changes the controller.
    pub fn reload(&mut self, new: Config, errors: Vec<String>, verdict: Option<ShutdownError>) -> (result:
        Result<ReloadOutcome, Vec<String>>)
        ensures
            final(self)@ == old(self)@.after_reload(new@, errors.deep_view(), verdict.deep_view()),
            reload_result_view(result) == old(self)@.reload_result(
                new@,
                errors.deep_view(),
                verdict.deep_view(),
            ),
    {
        let candidate = self.candidate(new);
        match self.stage_reload(&candidate, errors) {
            ReloadStage::Rejected(errors) => Err(errors),
            ReloadStage::Unchanged => Ok(ReloadOutcome::NoOp),
            ReloadStage::Apply(_) => Ok(self.commit_reload(candidate, verdict)),
        }
    }
}

} // verus!
