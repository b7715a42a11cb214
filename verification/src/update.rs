//! Deciding whether an installation is current, and the commands that
//! update one branch or all of them.

use crate::exchange::{Error, Reply, ReplyView, Step, StepView};
use crate::info::{get_remote_version_info_step, get_version_info_step, InfoStage};
use crate::management::DalamudInstallation;
use crate::sources::ReleaseSource;
use crate::version_info::{DalamudVersionInfo, VersionInfoView};
use vstd::prelude::*;

verus! {

/// What is known of the version information on one side of a comparison.
#[derive(Debug, PartialEq, Eq)]
pub enum Availability {
    /// It was obtained.
    Known(DalamudVersionInfo),
    /// There is none.
    Missing,
    /// It could not be obtained.
    Failed(Error),
}

/// The mathematical content of an [`Availability`].
pub enum AvailabilityView {
    Known(VersionInfoView),
    Missing,
    Failed(Error),
}

impl DeepView for Availability {
    type V = AvailabilityView;

    open spec fn deep_view(&self) -> AvailabilityView {
        match self {
            Availability::Known(info) => AvailabilityView::Known(info@),
            Availability::Missing => AvailabilityView::Missing,
            Availability::Failed(error) => AvailabilityView::Failed(*error),
        }
    }
}

/// What the attempt `outcome` to obtain version information made known.
pub open spec fn availability(outcome: Result<Option<VersionInfoView>, Error>) -> AvailabilityView {
    match outcome {
        Ok(Some(info)) => AvailabilityView::Known(info),
        Ok(None) => AvailabilityView::Missing,
        Err(error) => AvailabilityView::Failed(error),
    }
}

/// Computes [`availability`].
pub fn availability_of(outcome: Result<Option<DalamudVersionInfo>, Error>) -> (known: Availability)
    ensures
        known.deep_view() == availability(
            match outcome {
                Ok(info) => Ok(info.deep_view()),
                Err(error) => Err(error),
            },
        ),
{
    match outcome {
        Ok(Some(info)) => Availability::Known(info),
        Ok(None) => Availability::Missing,
        Err(error) => Availability::Failed(error),
    }
}

/// An installation held against what its release source publishes.
#[derive(Debug, PartialEq, Eq)]
pub struct Comparison {
    /// The version information stored with the installation.
    pub local: Availability,
    /// The version information that the release source publishes.
    pub remote: Availability,
    /// Whether the installation is current.
    pub up_to_date: bool,
}

/// The mathematical content of a [`Comparison`].
pub struct ComparisonView {
    pub local: AvailabilityView,
    pub remote: AvailabilityView,
    pub up_to_date: bool,
}

impl DeepView for Comparison {
    type V = ComparisonView;

    open spec fn deep_view(&self) -> ComparisonView {
        ComparisonView {
            local: self.local.deep_view(),
            remote: self.remote.deep_view(),
            up_to_date: self.up_to_date,
        }
    }
}

/// The comparison of `local` with `remote`. An installation is current
/// exactly when both sides are known and equal in every field: where either
/// is missing or could not be obtained, it counts as out of date.
pub open spec fn compared(local: AvailabilityView, remote: AvailabilityView) -> ComparisonView {
    ComparisonView {
        local,
        remote,
        up_to_date: local matches AvailabilityView::Known(mine) && remote
            matches AvailabilityView::Known(theirs) && mine == theirs,
    }
}

/// Computes [`compared`].
pub fn compare(local: Availability, remote: Availability) -> (comparison: Comparison)
    ensures
        comparison.deep_view() == compared(local.deep_view(), remote.deep_view()),
{
    let up_to_date = match (&local, &remote) {
        (Availability::Known(mine), Availability::Known(theirs)) => *mine == *theirs,
        _ => false,
    };
    Comparison { local, remote, up_to_date }
}

/// The stages of comparing an installation with its release source.
#[derive(Debug, PartialEq, Eq)]
pub enum CompareStage {
    Start,
    Local(InfoStage),
    Remote(Availability, InfoStage),
}

/// The mathematical content of a [`CompareStage`].
pub enum CompareStageView {
    Start,
    Local(InfoStage),
    Remote(AvailabilityView, InfoStage),
}

impl DeepView for CompareStage {
    type V = CompareStageView;

    open spec fn deep_view(&self) -> CompareStageView {
        match self {
            CompareStage::Start => CompareStageView::Start,
            CompareStage::Local(stage) => CompareStageView::Local(*stage),
            CompareStage::Remote(local, stage) => CompareStageView::Remote(
                local.deep_view(),
                *stage,
            ),
        }
    }
}

/// Where the comparison goes once the remote side has moved.
pub open spec fn compare_after_remote(
    local: AvailabilityView,
    step: StepView<InfoStage, Option<VersionInfoView>>,
) -> StepView<CompareStageView, ComparisonView> {
    match step {
        StepView::Perform(next, request) => StepView::Perform(
            CompareStageView::Remote(local, next),
            request,
        ),
        StepView::Finish(outcome) => StepView::Finish(Ok(compared(local, availability(outcome)))),
    }
}

/// Where the comparison goes once the local side has moved.
pub open spec fn compare_after_local(
    info_url: Seq<char>,
    step: StepView<InfoStage, Option<VersionInfoView>>,
) -> StepView<CompareStageView, ComparisonView> {
    match step {
        StepView::Perform(next, request) => StepView::Perform(
            CompareStageView::Local(next),
            request,
        ),
        StepView::Finish(outcome) => compare_after_remote(
            availability(outcome),
            get_remote_version_info_step(info_url, InfoStage::Start, None),
        ),
    }
}

/// How `is_up_to_date` moves for `branch`, whose version information is
/// published at `info_url`: the local side first, then the remote side,
/// neither of which can make it fail.
pub open spec fn is_up_to_date_step(
    branch: Seq<char>,
    info_url: Seq<char>,
    stage: CompareStageView,
    reply: Option<ReplyView>,
) -> StepView<CompareStageView, ComparisonView> {
    match stage {
        CompareStageView::Start => compare_after_local(
            info_url,
            get_version_info_step(branch, InfoStage::Start, None),
        ),
        CompareStageView::Local(inner) => compare_after_local(
            info_url,
            get_version_info_step(branch, inner, reply),
        ),
        CompareStageView::Remote(local, inner) => compare_after_remote(
            local,
            get_remote_version_info_step(info_url, inner, reply),
        ),
    }
}

/// Computes [`compare_after_remote`].
fn after_remote(local: Availability, step: Step<InfoStage, Option<DalamudVersionInfo>>) -> (next:
    Step<CompareStage, Comparison>)
    ensures
        next.deep_view() == compare_after_remote(local.deep_view(), step.deep_view()),
{
    match step {
        Step::Perform(stage, request) => Step::Perform(CompareStage::Remote(local, stage), request),
        Step::Finish(outcome) => Step::Finish(Ok(compare(local, availability_of(outcome)))),
    }
}

/// Computes [`compare_after_local`].
fn after_local<RS: ReleaseSource>(
    installation: &DalamudInstallation,
    release_source: &RS,
    step: Step<InfoStage, Option<DalamudVersionInfo>>,
) -> (next: Step<CompareStage, Comparison>)
    ensures
        next.deep_view() == compare_after_local(
            release_source.version_info_url(installation@),
            step.deep_view(),
        ),
{
    match step {
        Step::Perform(stage, request) => Step::Perform(CompareStage::Local(stage), request),
        Step::Finish(outcome) => after_remote(
            availability_of(outcome),
            installation.get_remote_version_info(release_source, InfoStage::Start, None),
        ),
    }
}

/// Whether `installation` matches what `release_source` publishes.
///
/// Failing to obtain either side does not fail the comparison: it is
/// recorded in the result, and the installation counts as out of date.
pub fn is_up_to_date<RS: ReleaseSource>(
    installation: &DalamudInstallation,
    release_source: &RS,
    stage: CompareStage,
    reply: Option<Reply>,
) -> (step: Step<CompareStage, Comparison>)
    ensures
        step.deep_view() == is_up_to_date_step(
            installation@,
            release_source.version_info_url(installation@),
            stage.deep_view(),
            reply.deep_view(),
        ),
{
    match stage {
        CompareStage::Start => after_local(
            installation,
            release_source,
            installation.get_version_info(InfoStage::Start, None),
        ),
        CompareStage::Local(inner) => after_local(
            installation,
            release_source,
            installation.get_version_info(inner, reply),
        ),
        CompareStage::Remote(local, inner) => after_remote(
            local,
            installation.get_remote_version_info(release_source, inner, reply),
        ),
    }
}

} // verus!
