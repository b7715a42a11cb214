//! Showing the version information of a branch.

use crate::commands::RunnableCommand;
use crate::exchange::{Error, Reply, ReplyView, Request, RequestView, Step, StepView};
use crate::info::{
    get_remote_version_info_step, get_version_info_json_step, get_version_info_step,
    read_remote_text, remote_text, InfoStage, TextStage,
};
use crate::management::{get_step, DalamudInstallation, ProbeStage};
use crate::sources::ReleaseSource;
use crate::text::{trim, trimmed};
use crate::version_info::{DalamudVersionInfo, VersionInfoView};
use vstd::prelude::*;

verus! {

/// Show information about the specified branch.
#[derive(Debug)]
pub struct Info {
    /// The name of the branch to show information for.
    pub branch_name: String,
    /// Output the information as JSON.
    pub json: bool,
    /// Output information about a remote branch instead of the local one.
    pub remote: bool,
}

/// The stages of the info command.
#[derive(Clone, Copy, Debug, PartialEq, Eq, Structural)]
pub enum InfoCommandStage {
    Start,
    Getting(ProbeStage),
    ReadingText(TextStage),
    Reading(InfoStage),
    Fetching,
    FetchingInfo(InfoStage),
}

impl DeepView for InfoCommandStage {
    type V = InfoCommandStage;

    open spec fn deep_view(&self) -> InfoCommandStage {
        *self
    }
}

/// What the info command reports.
#[derive(Debug, PartialEq, Eq)]
pub enum InfoReport {
    /// The branch is not installed locally; the remote one can be asked
    /// about instead.
    NotInstalled,
    /// The local branch has no version information.
    NoVersionInfo,
    /// The version information as the text it is kept as.
    Json(String),
    /// The version information, and whether it is that of the remote
    /// branch.
    Details { info: DalamudVersionInfo, remote: bool },
    /// The remote version information could not be understood.
    Undecodable,
}

/// The mathematical content of an [`InfoReport`].
pub enum InfoReportView {
    NotInstalled,
    NoVersionInfo,
    Json(Seq<char>),
    Details { info: VersionInfoView, remote: bool },
    Undecodable,
}

impl DeepView for InfoReport {
    type V = InfoReportView;

    open spec fn deep_view(&self) -> InfoReportView {
        match self {
            InfoReport::NotInstalled => InfoReportView::NotInstalled,
            InfoReport::NoVersionInfo => InfoReportView::NoVersionInfo,
            InfoReport::Json(text) => InfoReportView::Json(text@),
            InfoReport::Details { info, remote } => InfoReportView::Details {
                info: info@,
                remote: *remote,
            },
            InfoReport::Undecodable => InfoReportView::Undecodable,
        }
    }
}

/// Where the command goes once the local text has moved.
pub open spec fn info_after_text(step: StepView<TextStage, Option<Seq<char>>>) -> StepView<
    InfoCommandStage,
    InfoReportView,
> {
    match step {
        StepView::Perform(next, request) => StepView::Perform(
            InfoCommandStage::ReadingText(next),
            request,
        ),
        StepView::Finish(Ok(Some(text))) => StepView::Finish(Ok(InfoReportView::Json(text))),
        StepView::Finish(Ok(None)) => StepView::Finish(Ok(InfoReportView::NoVersionInfo)),
        StepView::Finish(Err(error)) => StepView::Finish(Err(error)),
    }
}

/// Where the command goes once the local version information has moved.
pub open spec fn info_after_reading(step: StepView<InfoStage, Option<VersionInfoView>>) -> StepView<
    InfoCommandStage,
    InfoReportView,
> {
    match step {
        StepView::Perform(next, request) => StepView::Perform(
            InfoCommandStage::Reading(next),
            request,
        ),
        StepView::Finish(Ok(Some(info))) => StepView::Finish(
            Ok(InfoReportView::Details { info, remote: false }),
        ),
        StepView::Finish(Ok(None)) => StepView::Finish(Ok(InfoReportView::NoVersionInfo)),
        StepView::Finish(Err(error)) => StepView::Finish(Err(error)),
    }
}

/// Where the command goes once the remote version information has moved.
pub open spec fn info_after_fetching(step: StepView<InfoStage, Option<VersionInfoView>>) -> StepView<
    InfoCommandStage,
    InfoReportView,
> {
    match step {
        StepView::Perform(next, request) => StepView::Perform(
            InfoCommandStage::FetchingInfo(next),
            request,
        ),
        StepView::Finish(Ok(Some(info))) => StepView::Finish(
            Ok(InfoReportView::Details { info, remote: true }),
        ),
        StepView::Finish(Ok(None)) => StepView::Finish(Ok(InfoReportView::Undecodable)),
        StepView::Finish(Err(Error::MalformedVersionInfo)) => StepView::Finish(
            Ok(InfoReportView::Undecodable),
        ),
        StepView::Finish(Err(error)) => StepView::Finish(Err(error)),
    }
}

/// Where the command goes once `get` has moved.
pub open spec fn info_after_get(json: bool, step: StepView<ProbeStage, Option<Seq<char>>>) -> StepView<
    InfoCommandStage,
    InfoReportView,
> {
    match step {
        StepView::Perform(next, request) => StepView::Perform(
            InfoCommandStage::Getting(next),
            request,
        ),
        StepView::Finish(Ok(Some(found))) => if json {
            info_after_text(get_version_info_json_step(found, TextStage::Start, None))
        } else {
            info_after_reading(get_version_info_step(found, InfoStage::Start, None))
        },
        StepView::Finish(Ok(None)) => StepView::Finish(Ok(InfoReportView::NotInstalled)),
        StepView::Finish(Err(error)) => StepView::Finish(Err(error)),
    }
}

/// How the info command moves.
///
/// Of a local branch it reports what is stored with the installation; of a
/// remote one, what is published at `info_url`, and then as text it reports
/// the body trimmed, without judging it.
pub open spec fn info_run(
    branch: Seq<char>,
    json: bool,
    remote: bool,
    info_url: Seq<char>,
    stage: InfoCommandStage,
    reply: Option<ReplyView>,
) -> StepView<InfoCommandStage, InfoReportView> {
    match stage {
        InfoCommandStage::Start => if !remote {
            info_after_get(json, get_step(branch, ProbeStage::Start, None))
        } else if json {
            StepView::Perform(InfoCommandStage::Fetching, RequestView::FetchText { url: info_url })
        } else {
            info_after_fetching(get_remote_version_info_step(info_url, InfoStage::Start, None))
        },
        InfoCommandStage::Getting(inner) => info_after_get(json, get_step(branch, inner, reply)),
        InfoCommandStage::ReadingText(inner) => info_after_text(
            get_version_info_json_step(branch, inner, reply),
        ),
        InfoCommandStage::Reading(inner) => info_after_reading(
            get_version_info_step(branch, inner, reply),
        ),
        InfoCommandStage::Fetching => match remote_text(reply) {
            Ok(body) => StepView::Finish(Ok(InfoReportView::Json(trimmed(body)))),
            Err(error) => StepView::Finish(Err(error)),
        },
        InfoCommandStage::FetchingInfo(inner) => info_after_fetching(
            get_remote_version_info_step(info_url, inner, reply),
        ),
    }
}

impl Info {
    /// Computes [`info_after_text`].
    fn after_text(step: Step<TextStage, Option<String>>) -> (next: Step<
        InfoCommandStage,
        InfoReport,
    >)
        ensures
            next.deep_view() == info_after_text(step.deep_view()),
    {
        match step {
            Step::Perform(stage, request) => Step::Perform(
                InfoCommandStage::ReadingText(stage),
                request,
            ),
            Step::Finish(Ok(Some(text))) => Step::Finish(Ok(InfoReport::Json(text))),
            Step::Finish(Ok(None)) => Step::Finish(Ok(InfoReport::NoVersionInfo)),
            Step::Finish(Err(error)) => Step::Finish(Err(error)),
        }
    }

    /// Computes [`info_after_reading`].
    fn after_reading(step: Step<InfoStage, Option<DalamudVersionInfo>>) -> (next: Step<
        InfoCommandStage,
        InfoReport,
    >)
        ensures
            next.deep_view() == info_after_reading(step.deep_view()),
    {
        match step {
            Step::Perform(stage, request) => Step::Perform(
                InfoCommandStage::Reading(stage),
                request,
            ),
            Step::Finish(Ok(Some(info))) => Step::Finish(
                Ok(InfoReport::Details { info, remote: false }),
            ),
            Step::Finish(Ok(None)) => Step::Finish(Ok(InfoReport::NoVersionInfo)),
            Step::Finish(Err(error)) => Step::Finish(Err(error)),
        }
    }

    /// Computes [`info_after_fetching`].
    fn after_fetching(step: Step<InfoStage, Option<DalamudVersionInfo>>) -> (next: Step<
        InfoCommandStage,
        InfoReport,
    >)
        ensures
            next.deep_view() == info_after_fetching(step.deep_view()),
    {
        match step {
            Step::Perform(stage, request) => Step::Perform(
                InfoCommandStage::FetchingInfo(stage),
                request,
            ),
            Step::Finish(Ok(Some(info))) => Step::Finish(
                Ok(InfoReport::Details { info, remote: true }),
            ),
            Step::Finish(Ok(None)) => Step::Finish(Ok(InfoReport::Undecodable)),
            Step::Finish(Err(Error::MalformedVersionInfo)) => Step::Finish(
                Ok(InfoReport::Undecodable),
            ),
            Step::Finish(Err(error)) => Step::Finish(Err(error)),
        }
    }

    /// Computes [`info_after_get`].
    fn after_get(&self, step: Step<ProbeStage, Option<DalamudInstallation>>) -> (next: Step<
        InfoCommandStage,
        InfoReport,
    >)
        ensures
            next.deep_view() == info_after_get(self.json, step.deep_view()),
    {
        match step {
            Step::Perform(stage, request) => Step::Perform(
                InfoCommandStage::Getting(stage),
                request,
            ),
            Step::Finish(Ok(Some(installation))) => {
                if self.json {
                    Self::after_text(installation.get_version_info_json(TextStage::Start, None))
                } else {
                    Self::after_reading(installation.get_version_info(InfoStage::Start, None))
                }
            },
            Step::Finish(Ok(None)) => Step::Finish(Ok(InfoReport::NotInstalled)),
            Step::Finish(Err(error)) => Step::Finish(Err(error)),
        }
    }
}

impl RunnableCommand for Info {
    type Stage = InfoCommandStage;

    type Report = InfoReport;

    fn begin(&self) -> (stage: InfoCommandStage)
        ensures
            stage == InfoCommandStage::Start,
    {
        InfoCommandStage::Start
    }

    fn run<RS: ReleaseSource>(
        &self,
        release_source: &RS,
        stage: InfoCommandStage,
        reply: Option<Reply>,
    ) -> (step: Step<InfoCommandStage, InfoReport>)
        ensures
            step.deep_view() == info_run(
                self.branch_name@,
                self.json,
                self.remote,
                release_source.version_info_url(self.branch_name@),
                stage,
                reply.deep_view(),
            ),
    {
        let branch = self.branch_name.as_str();
        let installation = DalamudInstallation { branch_name: self.branch_name.clone() };
        match stage {
            InfoCommandStage::Start => {
                if !self.remote {
                    self.after_get(DalamudInstallation::get(branch, ProbeStage::Start, None))
                } else if self.json {
                    Step::Perform(
                        InfoCommandStage::Fetching,
                        Request::FetchText { resource: release_source.get_version_info_file(branch) },
                    )
                } else {
                    Self::after_fetching(
                        installation.get_remote_version_info(
                            release_source,
                            InfoStage::Start,
                            None,
                        ),
                    )
                }
            },
            InfoCommandStage::Getting(inner) => self.after_get(
                DalamudInstallation::get(branch, inner, reply),
            ),
            InfoCommandStage::ReadingText(inner) => Self::after_text(
                installation.get_version_info_json(inner, reply),
            ),
            InfoCommandStage::Reading(inner) => Self::after_reading(
                installation.get_version_info(inner, reply),
            ),
            InfoCommandStage::Fetching => match read_remote_text(reply) {
                Ok(body) => Step::Finish(Ok(InfoReport::Json(trim(body.as_str()).to_owned()))),
                Err(error) => Step::Finish(Err(error)),
            },
            InfoCommandStage::FetchingInfo(inner) => Self::after_fetching(
                installation.get_remote_version_info(release_source, inner, reply),
            ),
        }
    }
}

} // verus!
