//! Reporting the active branch.

use crate::commands::RunnableCommand;
use crate::exchange::{Reply, ReplyView, Step, StepView};
use crate::management::{
    get_active_step, get_location_step, ActiveStage, DalamudInstallation, ProbeStage,
};
use crate::sources::ReleaseSource;
use vstd::prelude::*;

verus! {

/// How the active branch is to be reported.
#[derive(Clone, Copy, Debug, PartialEq, Eq, Structural)]
pub enum OutputFormat {
    /// Output only the name of the active branch.
    Name,
    /// Output the path to the active branch.
    Path,
}

impl Default for OutputFormat {
    fn default() -> (format: Self)
        ensures
            format == OutputFormat::Name,
    {
        OutputFormat::Name
    }
}

/// Get information about the active branch.
#[derive(Clone, Copy, Debug)]
pub struct Active {
    /// The format used for outputting the active branch.
    pub format: OutputFormat,
    /// Report nothing, and succeed, if no branch is set.
    pub empty_if_none: bool,
}

/// The stages of the active command.
#[derive(Debug, PartialEq, Eq)]
pub enum ActiveCommandStage {
    Start,
    Finding(ActiveStage),
    Locating(String, ProbeStage),
}

/// The mathematical content of an [`ActiveCommandStage`].
pub enum ActiveCommandStageView {
    Start,
    Finding(ActiveStage),
    Locating(Seq<char>, ProbeStage),
}

impl DeepView for ActiveCommandStage {
    type V = ActiveCommandStageView;

    open spec fn deep_view(&self) -> ActiveCommandStageView {
        match self {
            ActiveCommandStage::Start => ActiveCommandStageView::Start,
            ActiveCommandStage::Finding(stage) => ActiveCommandStageView::Finding(*stage),
            ActiveCommandStage::Locating(branch, stage) => ActiveCommandStageView::Locating(
                branch@,
                *stage,
            ),
        }
    }
}

/// What the active command reports.
#[derive(Debug, PartialEq, Eq)]
pub enum ActiveReport {
    /// No branch is active, and that was to be passed over in silence.
    Nothing,
    /// No branch is active, or the last active branch was removed behind
    /// the manager's back.
    NoActiveBranch,
    /// The name of the active branch.
    Name(String),
    /// The path of the active branch.
    Path(String),
    /// The active branch could not be located on disk.
    LocationUnknown,
}

/// The mathematical content of an [`ActiveReport`].
pub enum ActiveReportView {
    Nothing,
    NoActiveBranch,
    Name(Seq<char>),
    Path(Seq<char>),
    LocationUnknown,
}

impl DeepView for ActiveReport {
    type V = ActiveReportView;

    open spec fn deep_view(&self) -> ActiveReportView {
        match self {
            ActiveReport::Nothing => ActiveReportView::Nothing,
            ActiveReport::NoActiveBranch => ActiveReportView::NoActiveBranch,
            ActiveReport::Name(name) => ActiveReportView::Name(name@),
            ActiveReport::Path(path) => ActiveReportView::Path(path@),
            ActiveReport::LocationUnknown => ActiveReportView::LocationUnknown,
        }
    }
}

/// Where the command goes once `get_location` has moved for `branch`.
pub open spec fn active_after_location(
    branch: Seq<char>,
    step: StepView<ProbeStage, Option<Seq<char>>>,
) -> StepView<ActiveCommandStageView, ActiveReportView> {
    match step {
        StepView::Perform(next, request) => StepView::Perform(
            ActiveCommandStageView::Locating(branch, next),
            request,
        ),
        StepView::Finish(Ok(Some(path))) => StepView::Finish(Ok(ActiveReportView::Path(path))),
        StepView::Finish(Ok(None)) => StepView::Finish(Ok(ActiveReportView::LocationUnknown)),
        StepView::Finish(Err(error)) => StepView::Finish(Err(error)),
    }
}

/// Where the command goes once `get_active` has moved.
pub open spec fn active_after_finding(
    format: OutputFormat,
    empty_if_none: bool,
    step: StepView<ActiveStage, Option<Seq<char>>>,
) -> StepView<ActiveCommandStageView, ActiveReportView> {
    match step {
        StepView::Perform(next, request) => StepView::Perform(
            ActiveCommandStageView::Finding(next),
            request,
        ),
        StepView::Finish(Ok(Some(branch))) => match format {
            OutputFormat::Name => StepView::Finish(Ok(ActiveReportView::Name(branch))),
            OutputFormat::Path => active_after_location(
                branch,
                get_location_step(branch, ProbeStage::Start, None),
            ),
        },
        StepView::Finish(Ok(None)) => StepView::Finish(
            Ok(
                if empty_if_none {
                    ActiveReportView::Nothing
                } else {
                    ActiveReportView::NoActiveBranch
                },
            ),
        ),
        StepView::Finish(Err(error)) => StepView::Finish(Err(error)),
    }
}

/// How the active command moves: it finds the active branch, and reports
/// its name, or locates it and reports its path.
pub open spec fn active_run(
    format: OutputFormat,
    empty_if_none: bool,
    stage: ActiveCommandStageView,
    reply: Option<ReplyView>,
) -> StepView<ActiveCommandStageView, ActiveReportView> {
    match stage {
        ActiveCommandStageView::Start => active_after_finding(
            format,
            empty_if_none,
            get_active_step(ActiveStage::Start, None),
        ),
        ActiveCommandStageView::Finding(inner) => active_after_finding(
            format,
            empty_if_none,
            get_active_step(inner, reply),
        ),
        ActiveCommandStageView::Locating(branch, inner) => active_after_location(
            branch,
            get_location_step(branch, inner, reply),
        ),
    }
}

impl Active {
    /// Computes [`active_after_location`].
    fn after_location(branch: String, step: Step<ProbeStage, Option<String>>) -> (next: Step<
        ActiveCommandStage,
        ActiveReport,
    >)
        ensures
            next.deep_view() == active_after_location(branch@, step.deep_view()),
    {
        match step {
            Step::Perform(stage, request) => Step::Perform(
                ActiveCommandStage::Locating(branch, stage),
                request,
            ),
            Step::Finish(Ok(Some(path))) => Step::Finish(Ok(ActiveReport::Path(path))),
            Step::Finish(Ok(None)) => Step::Finish(Ok(ActiveReport::LocationUnknown)),
            Step::Finish(Err(error)) => Step::Finish(Err(error)),
        }
    }

    /// Computes [`active_after_finding`].
    fn after_finding(&self, step: Step<ActiveStage, Option<DalamudInstallation>>) -> (next: Step<
        ActiveCommandStage,
        ActiveReport,
    >)
        ensures
            next.deep_view() == active_after_finding(
                self.format,
                self.empty_if_none,
                step.deep_view(),
            ),
    {
        match step {
            Step::Perform(stage, request) => Step::Perform(
                ActiveCommandStage::Finding(stage),
                request,
            ),
            Step::Finish(Ok(Some(installation))) => match self.format {
                OutputFormat::Name => Step::Finish(Ok(ActiveReport::Name(installation.branch_name))),
                OutputFormat::Path => {
                    let located = installation.get_location(ProbeStage::Start, None);
                    Self::after_location(installation.branch_name, located)
                },
            },
            Step::Finish(Ok(None)) => {
                if self.empty_if_none {
                    Step::Finish(Ok(ActiveReport::Nothing))
                } else {
                    Step::Finish(Ok(ActiveReport::NoActiveBranch))
                }
            },
            Step::Finish(Err(error)) => Step::Finish(Err(error)),
        }
    }
}

impl RunnableCommand for Active {
    type Stage = ActiveCommandStage;

    type Report = ActiveReport;

    fn begin(&self) -> (stage: ActiveCommandStage)
        ensures
            stage.deep_view() == ActiveCommandStageView::Start,
    {
        ActiveCommandStage::Start
    }

    fn run<RS: ReleaseSource>(
        &self,
        release_source: &RS,
        stage: ActiveCommandStage,
        reply: Option<Reply>,
    ) -> (step: Step<ActiveCommandStage, ActiveReport>)
        ensures
            step.deep_view() == active_run(
                self.format,
                self.empty_if_none,
                stage.deep_view(),
                reply.deep_view(),
            ),
    {
        match stage {
            ActiveCommandStage::Start => self.after_finding(
                DalamudInstallation::get_active(ActiveStage::Start, None),
            ),
            ActiveCommandStage::Finding(inner) => self.after_finding(
                DalamudInstallation::get_active(inner, reply),
            ),
            ActiveCommandStage::Locating(branch, inner) => {
                let installation = DalamudInstallation { branch_name: branch };
                let located = installation.get_location(inner, reply);
                Self::after_location(installation.branch_name, located)
            },
        }
    }
}

} // verus!
