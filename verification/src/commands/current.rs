//! Reporting the version currently in use.

use crate::commands::RunnableCommand;
use crate::exchange::{Error, Reply, ReplyView, Request, RequestView, Step, StepView};
use crate::sources::ReleaseSource;
use crate::version_manager::{get_current_step, CurrentStage, DalamudVersionManager};
use vstd::prelude::*;

verus! {

/// Output the currently in-use Dalamud version.
#[derive(Clone, Copy, Debug)]
pub struct Current {}

/// The stages of the current command.
#[derive(Debug, PartialEq, Eq)]
pub enum CurrentCommandStage {
    Start,
    Finding(CurrentStage),
    Locating(String),
}

/// The mathematical content of a [`CurrentCommandStage`].
pub enum CurrentCommandStageView {
    Start,
    Finding(CurrentStage),
    Locating(Seq<char>),
}

impl DeepView for CurrentCommandStage {
    type V = CurrentCommandStageView;

    open spec fn deep_view(&self) -> CurrentCommandStageView {
        match self {
            CurrentCommandStage::Start => CurrentCommandStageView::Start,
            CurrentCommandStage::Finding(stage) => CurrentCommandStageView::Finding(*stage),
            CurrentCommandStage::Locating(version) => CurrentCommandStageView::Locating(version@),
        }
    }
}

/// What the current command reports.
#[derive(Debug, PartialEq, Eq)]
pub enum CurrentReport {
    /// The version in use, and where the pointer to it lives.
    Using { version: String, linked_at: String },
    /// No version is in use.
    NotInUse,
    /// The version in use could not be found out.
    Failed(Error),
}

/// The mathematical content of a [`CurrentReport`].
pub enum CurrentReportView {
    Using { version: Seq<char>, linked_at: Seq<char> },
    NotInUse,
    Failed(Error),
}

impl DeepView for CurrentReport {
    type V = CurrentReportView;

    open spec fn deep_view(&self) -> CurrentReportView {
        match self {
            CurrentReport::Using { version, linked_at } => CurrentReportView::Using {
                version: version@,
                linked_at: linked_at@,
            },
            CurrentReport::NotInUse => CurrentReportView::NotInUse,
            CurrentReport::Failed(error) => CurrentReportView::Failed(*error),
        }
    }
}

/// Where the command goes once `get_current` has moved.
pub open spec fn current_after_finding(step: StepView<CurrentStage, Option<Seq<char>>>) -> StepView<
    CurrentCommandStageView,
    CurrentReportView,
> {
    match step {
        StepView::Perform(next, request) => StepView::Perform(
            CurrentCommandStageView::Finding(next),
            request,
        ),
        StepView::Finish(Ok(Some(version))) => StepView::Perform(
            CurrentCommandStageView::Locating(version),
            RequestView::LocateActiveLink,
        ),
        StepView::Finish(Ok(None)) => StepView::Finish(Ok(CurrentReportView::NotInUse)),
        StepView::Finish(Err(error)) => StepView::Finish(Ok(CurrentReportView::Failed(error))),
    }
}

/// How the current command moves: it finds the current version, and if
/// there is one, asks where the pointer to it lives.
pub open spec fn current_run(stage: CurrentCommandStageView, reply: Option<ReplyView>) -> StepView<
    CurrentCommandStageView,
    CurrentReportView,
> {
    match stage {
        CurrentCommandStageView::Start => current_after_finding(
            get_current_step(CurrentStage::Start, None),
        ),
        CurrentCommandStageView::Finding(inner) => current_after_finding(
            get_current_step(inner, reply),
        ),
        CurrentCommandStageView::Locating(version) => match reply {
            Some(ReplyView::Location(linked_at)) => StepView::Finish(
                Ok(CurrentReportView::Using { version, linked_at }),
            ),
            Some(ReplyView::Failed(failure)) => StepView::Finish(Err(failure.surfaced())),
            _ => StepView::Finish(Err(Error::UnexpectedReply)),
        },
    }
}

impl Current {
    /// Computes [`current_after_finding`].
    fn after_finding(step: Step<CurrentStage, Option<String>>) -> (next: Step<
        CurrentCommandStage,
        CurrentReport,
    >)
        ensures
            next.deep_view() == current_after_finding(step.deep_view()),
    {
        match step {
            Step::Perform(stage, request) => Step::Perform(
                CurrentCommandStage::Finding(stage),
                request,
            ),
            Step::Finish(Ok(Some(version))) => Step::Perform(
                CurrentCommandStage::Locating(version),
                Request::LocateActiveLink,
            ),
            Step::Finish(Ok(None)) => Step::Finish(Ok(CurrentReport::NotInUse)),
            Step::Finish(Err(error)) => Step::Finish(Ok(CurrentReport::Failed(error))),
        }
    }
}

impl RunnableCommand for Current {
    type Stage = CurrentCommandStage;

    type Report = CurrentReport;

    fn begin(&self) -> (stage: CurrentCommandStage)
        ensures
            stage.deep_view() == CurrentCommandStageView::Start,
    {
        CurrentCommandStage::Start
    }

    fn run<RS: ReleaseSource>(
        &self,
        release_source: &RS,
        stage: CurrentCommandStage,
        reply: Option<Reply>,
    ) -> (step: Step<CurrentCommandStage, CurrentReport>)
        ensures
            step.deep_view() == current_run(stage.deep_view(), reply.deep_view()),
    {
        match stage {
            CurrentCommandStage::Start => Self::after_finding(
                DalamudVersionManager::get_current(CurrentStage::Start, None),
            ),
            CurrentCommandStage::Finding(inner) => Self::after_finding(
                DalamudVersionManager::get_current(inner, reply),
            ),
            CurrentCommandStage::Locating(version) => match reply {
                Some(Reply::Location(linked_at)) => Step::Finish(
                    Ok(CurrentReport::Using { version, linked_at }),
                ),
                Some(Reply::Failed(failure)) => Step::Finish(Err(failure.surface())),
                _ => Step::Finish(Err(Error::UnexpectedReply)),
            },
        }
    }
}

} // verus!
