//! Switching the active branch.

use crate::commands::RunnableCommand;
use crate::exchange::{Error, Reply, ReplyView, Step, StepView};
use crate::management::{get_step, set_active_step, ActivateStage, DalamudInstallation, ProbeStage};
use crate::sources::ReleaseSource;
use vstd::prelude::*;

verus! {

/// Switch the currently active branch.
#[derive(Debug)]
pub struct Use {
    /// The branch name to use.
    pub branch_name: String,
}

/// The stages of the use command.
#[derive(Clone, Copy, Debug, PartialEq, Eq, Structural)]
pub enum UseStage {
    Start,
    Getting(ProbeStage),
    Activating(ActivateStage),
}

impl DeepView for UseStage {
    type V = UseStage;

    open spec fn deep_view(&self) -> UseStage {
        *self
    }
}

/// What the use command reports.
#[derive(Clone, Copy, Debug, PartialEq, Eq, Structural)]
pub enum UseReport {
    /// The branch is not installed; it can be installed first.
    NotInstalled,
    /// The branch could not be made the active one.
    Failed(Error),
    /// The branch is now the active one.
    Activated,
}

impl DeepView for UseReport {
    type V = UseReport;

    open spec fn deep_view(&self) -> UseReport {
        *self
    }
}

/// Where the command goes once `set_active` has moved.
pub open spec fn use_after_activation(step: StepView<ActivateStage, ()>) -> StepView<
    UseStage,
    UseReport,
> {
    match step {
        StepView::Perform(next, request) => StepView::Perform(UseStage::Activating(next), request),
        StepView::Finish(Ok(_)) => StepView::Finish(Ok(UseReport::Activated)),
        StepView::Finish(Err(error)) => StepView::Finish(Ok(UseReport::Failed(error))),
    }
}

/// Where the command goes once `get` has moved.
pub open spec fn use_after_get(step: StepView<ProbeStage, Option<Seq<char>>>) -> StepView<
    UseStage,
    UseReport,
> {
    match step {
        StepView::Perform(next, request) => StepView::Perform(UseStage::Getting(next), request),
        StepView::Finish(Ok(Some(found))) => use_after_activation(
            set_active_step(found, ActivateStage::Start, None),
        ),
        StepView::Finish(Ok(None)) => StepView::Finish(Ok(UseReport::NotInstalled)),
        StepView::Finish(Err(error)) => StepView::Finish(Err(error)),
    }
}

/// How the use command moves: it gets the installation, and makes it the
/// active one if there is one.
pub open spec fn use_run(branch: Seq<char>, stage: UseStage, reply: Option<ReplyView>) -> StepView<
    UseStage,
    UseReport,
> {
    match stage {
        UseStage::Start => use_after_get(get_step(branch, ProbeStage::Start, None)),
        UseStage::Getting(inner) => use_after_get(get_step(branch, inner, reply)),
        UseStage::Activating(inner) => use_after_activation(set_active_step(branch, inner, reply)),
    }
}

impl Use {
    /// Computes [`use_after_activation`].
    fn after_activation(step: Step<ActivateStage, ()>) -> (next: Step<UseStage, UseReport>)
        ensures
            next.deep_view() == use_after_activation(step.deep_view()),
    {
        match step {
            Step::Perform(stage, request) => Step::Perform(UseStage::Activating(stage), request),
            Step::Finish(Ok(_)) => Step::Finish(Ok(UseReport::Activated)),
            Step::Finish(Err(error)) => Step::Finish(Ok(UseReport::Failed(error))),
        }
    }

    /// Computes [`use_after_get`].
    fn after_get(step: Step<ProbeStage, Option<DalamudInstallation>>) -> (next: Step<
        UseStage,
        UseReport,
    >)
        ensures
            next.deep_view() == use_after_get(step.deep_view()),
    {
        match step {
            Step::Perform(stage, request) => Step::Perform(UseStage::Getting(stage), request),
            Step::Finish(Ok(Some(installation))) => Self::after_activation(
                installation.set_active(ActivateStage::Start, None),
            ),
            Step::Finish(Ok(None)) => Step::Finish(Ok(UseReport::NotInstalled)),
            Step::Finish(Err(error)) => Step::Finish(Err(error)),
        }
    }
}

impl RunnableCommand for Use {
    type Stage = UseStage;

    type Report = UseReport;

    fn begin(&self) -> (stage: UseStage)
        ensures
            stage == UseStage::Start,
    {
        UseStage::Start
    }

    fn run<RS: ReleaseSource>(
        &self,
        release_source: &RS,
        stage: UseStage,
        reply: Option<Reply>,
    ) -> (step: Step<UseStage, UseReport>)
        ensures
            step.deep_view() == use_run(self.branch_name@, stage, reply.deep_view()),
    {
        let branch = self.branch_name.as_str();
        match stage {
            UseStage::Start => Self::after_get(
                DalamudInstallation::get(branch, ProbeStage::Start, None),
            ),
            UseStage::Getting(inner) => Self::after_get(
                DalamudInstallation::get(branch, inner, reply),
            ),
            UseStage::Activating(inner) => {
                let installation = DalamudInstallation { branch_name: self.branch_name.clone() };
                Self::after_activation(installation.set_active(inner, reply))
            },
        }
    }
}

} // verus!
