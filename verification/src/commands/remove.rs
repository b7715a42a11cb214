//! Removing a branch.

use crate::commands::RunnableCommand;
use crate::exchange::{Reply, ReplyView, Step, StepView};
use crate::install::{remove_step, RemoveStage};
use crate::management::{get_step, DalamudInstallation, ProbeStage};
use crate::sources::ReleaseSource;
use vstd::prelude::*;

verus! {

/// Remove a branch from this system.
#[derive(Debug)]
pub struct Remove {
    /// The name of the branch to remove.
    pub branch_name: String,
}

/// The stages of the remove command.
#[derive(Clone, Copy, Debug, PartialEq, Eq, Structural)]
pub enum RemoveCommandStage {
    Start,
    Getting(ProbeStage),
    Removing(RemoveStage),
}

impl DeepView for RemoveCommandStage {
    type V = RemoveCommandStage;

    open spec fn deep_view(&self) -> RemoveCommandStage {
        *self
    }
}

/// What the remove command reports.
#[derive(Clone, Copy, Debug, PartialEq, Eq, Structural)]
pub enum RemoveReport {
    /// The branch is not installed.
    NotInstalled,
    /// The branch has been removed.
    Removed,
}

impl DeepView for RemoveReport {
    type V = RemoveReport;

    open spec fn deep_view(&self) -> RemoveReport {
        *self
    }
}

/// Where the command goes once `remove` has moved.
pub open spec fn remove_after_removal(step: StepView<RemoveStage, ()>) -> StepView<
    RemoveCommandStage,
    RemoveReport,
> {
    match step {
        StepView::Perform(next, request) => StepView::Perform(
            RemoveCommandStage::Removing(next),
            request,
        ),
        StepView::Finish(Ok(_)) => StepView::Finish(Ok(RemoveReport::Removed)),
        StepView::Finish(Err(error)) => StepView::Finish(Err(error)),
    }
}

/// Where the command goes once `get` has moved.
pub open spec fn remove_after_get(branch: Seq<char>, step: StepView<ProbeStage, Option<Seq<char>>>) -> StepView<
    RemoveCommandStage,
    RemoveReport,
> {
    match step {
        StepView::Perform(next, request) => StepView::Perform(
            RemoveCommandStage::Getting(next),
            request,
        ),
        StepView::Finish(Ok(Some(found))) => remove_after_removal(
            remove_step(found, RemoveStage::Start, None),
        ),
        StepView::Finish(Ok(None)) => StepView::Finish(Ok(RemoveReport::NotInstalled)),
        StepView::Finish(Err(error)) => StepView::Finish(Err(error)),
    }
}

/// How the remove command moves: it gets the installation, and removes it
/// if there is one.
pub open spec fn remove_run(
    branch: Seq<char>,
    stage: RemoveCommandStage,
    reply: Option<ReplyView>,
) -> StepView<RemoveCommandStage, RemoveReport> {
    match stage {
        RemoveCommandStage::Start => remove_after_get(
            branch,
            get_step(branch, ProbeStage::Start, None),
        ),
        RemoveCommandStage::Getting(inner) => remove_after_get(
            branch,
            get_step(branch, inner, reply),
        ),
        RemoveCommandStage::Removing(inner) => remove_after_removal(
            remove_step(branch, inner, reply),
        ),
    }
}

impl Remove {
    /// Computes [`remove_after_removal`].
    fn after_removal(step: Step<RemoveStage, ()>) -> (next: Step<RemoveCommandStage, RemoveReport>)
        ensures
            next.deep_view() == remove_after_removal(step.deep_view()),
    {
        match step {
            Step::Perform(stage, request) => Step::Perform(
                RemoveCommandStage::Removing(stage),
                request,
            ),
            Step::Finish(Ok(_)) => Step::Finish(Ok(RemoveReport::Removed)),
            Step::Finish(Err(error)) => Step::Finish(Err(error)),
        }
    }

    /// Computes [`remove_after_get`].
    fn after_get(&self, step: Step<ProbeStage, Option<DalamudInstallation>>) -> (next: Step<
        RemoveCommandStage,
        RemoveReport,
    >)
        ensures
            next.deep_view() == remove_after_get(self.branch_name@, step.deep_view()),
    {
        match step {
            Step::Perform(stage, request) => Step::Perform(
                RemoveCommandStage::Getting(stage),
                request,
            ),
            Step::Finish(Ok(Some(installation))) => Self::after_removal(
                installation.remove(RemoveStage::Start, None),
            ),
            Step::Finish(Ok(None)) => Step::Finish(Ok(RemoveReport::NotInstalled)),
            Step::Finish(Err(error)) => Step::Finish(Err(error)),
        }
    }
}

impl RunnableCommand for Remove {
    type Stage = RemoveCommandStage;

    type Report = RemoveReport;

    fn begin(&self) -> (stage: RemoveCommandStage)
        ensures
            stage == RemoveCommandStage::Start,
    {
        RemoveCommandStage::Start
    }

    fn run<RS: ReleaseSource>(
        &self,
        release_source: &RS,
        stage: RemoveCommandStage,
        reply: Option<Reply>,
    ) -> (step: Step<RemoveCommandStage, RemoveReport>)
        ensures
            step.deep_view() == remove_run(self.branch_name@, stage, reply.deep_view()),
    {
        let branch = self.branch_name.as_str();
        match stage {
            RemoveCommandStage::Start => self.after_get(
                DalamudInstallation::get(branch, ProbeStage::Start, None),
            ),
            RemoveCommandStage::Getting(inner) => self.after_get(
                DalamudInstallation::get(branch, inner, reply),
            ),
            RemoveCommandStage::Removing(inner) => {
                let installation = DalamudInstallation { branch_name: self.branch_name.clone() };
                Self::after_removal(installation.remove(inner, reply))
            },
        }
    }
}

} // verus!
