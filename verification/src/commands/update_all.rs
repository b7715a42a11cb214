//! Updating every installed branch.

use crate::commands::list::names_of;
use crate::commands::update::{locators_of, Locators};
use crate::commands::RunnableCommand;
use crate::exchange::{Error, Reply, ReplyView, Step, StepView};
use crate::install::{install_step, InstallStage, Installed, InstalledView};
use crate::management::{get_all_step, DalamudInstallation, ListStage};
use crate::sources::ReleaseSource;
use crate::text::appended;
use crate::update::{
    is_up_to_date, is_up_to_date_step, CompareStage, CompareStageView, Comparison, ComparisonView,
};
use vstd::prelude::*;

verus! {

/// Update all local branches to the latest version.
#[derive(Clone, Copy, Debug)]
pub struct UpdateAll;

/// How far a run over all branches has come: the branches that were found,
/// the comparisons made so far, one for each branch visited, in order, and
/// the branches that have been updated.
#[derive(Debug, PartialEq, Eq)]
pub struct Progress {
    pub names: Vec<String>,
    pub comparisons: Vec<Comparison>,
    pub updated: Vec<String>,
}

/// The mathematical content of a [`Progress`].
pub struct ProgressView {
    pub names: Seq<Seq<char>>,
    pub comparisons: Seq<ComparisonView>,
    pub updated: Seq<Seq<char>>,
}

impl DeepView for Progress {
    type V = ProgressView;

    open spec fn deep_view(&self) -> ProgressView {
        ProgressView {
            names: self.names.deep_view(),
            comparisons: self.comparisons.deep_view(),
            updated: self.updated.deep_view(),
        }
    }
}

/// The stages of the update-all command.
#[derive(Debug, PartialEq, Eq)]
pub enum UpdateAllStage {
    Start,
    Listing(ListStage),
    /// The branch after those already compared is being compared.
    Comparing(Progress, CompareStage),
    /// The branch compared last is being updated.
    Updating(Progress, InstallStage),
}

/// The mathematical content of an [`UpdateAllStage`].
pub enum UpdateAllStageView {
    Start,
    Listing(ListStage),
    Comparing(ProgressView, CompareStageView),
    Updating(ProgressView, InstallStage),
}

impl DeepView for UpdateAllStage {
    type V = UpdateAllStageView;

    open spec fn deep_view(&self) -> UpdateAllStageView {
        match self {
            UpdateAllStage::Start => UpdateAllStageView::Start,
            UpdateAllStage::Listing(stage) => UpdateAllStageView::Listing(*stage),
            UpdateAllStage::Comparing(progress, stage) => UpdateAllStageView::Comparing(
                progress.deep_view(),
                stage.deep_view(),
            ),
            UpdateAllStage::Updating(progress, stage) => UpdateAllStageView::Updating(
                progress.deep_view(),
                *stage,
            ),
        }
    }
}

/// What the update-all command reports.
#[derive(Debug, PartialEq, Eq)]
pub enum UpdateAllReport {
    /// No installations were found.
    NoInstallations,
    /// Every branch was visited; those in `updated` were out of date and
    /// have been updated.
    Finished(Progress),
    /// The update of `branch` failed, and the run ended there.
    Failed { branch: String, progress: Progress },
}

/// The mathematical content of an [`UpdateAllReport`].
pub enum UpdateAllReportView {
    NoInstallations,
    Finished(ProgressView),
    Failed { branch: Seq<char>, progress: ProgressView },
}

impl DeepView for UpdateAllReport {
    type V = UpdateAllReportView;

    open spec fn deep_view(&self) -> UpdateAllReportView {
        match self {
            UpdateAllReport::NoInstallations => UpdateAllReportView::NoInstallations,
            UpdateAllReport::Finished(progress) => UpdateAllReportView::Finished(
                progress.deep_view(),
            ),
            UpdateAllReport::Failed { branch, progress } => UpdateAllReportView::Failed {
                branch: branch@,
                progress: progress.deep_view(),
            },
        }
    }
}

/// Where the run goes when it is done with the branches compared so far:
/// on to comparing the next one, or to the end if none is left.
pub open spec fn all_next(sources: Locators, progress: ProgressView) -> StepView<
    UpdateAllStageView,
    UpdateAllReportView,
> {
    if progress.comparisons.len() >= progress.names.len() {
        StepView::Finish(Ok(UpdateAllReportView::Finished(progress)))
    } else {
        let branch = progress.names[progress.comparisons.len() as int];
        match is_up_to_date_step(branch, (sources.info)(branch), CompareStageView::Start, None) {
            StepView::Perform(next, request) => StepView::Perform(
                UpdateAllStageView::Comparing(progress, next),
                request,
            ),
            StepView::Finish(_) => StepView::Finish(Err(Error::UnexpectedReply)),
        }
    }
}

/// Where the run goes once the install procedure has moved for the branch
/// compared last. One failed update ends the run.
pub open spec fn all_after_install(
    sources: Locators,
    progress: ProgressView,
    step: StepView<InstallStage, InstalledView>,
) -> StepView<UpdateAllStageView, UpdateAllReportView> {
    let branch = progress.names[progress.comparisons.len() - 1];
    match step {
        StepView::Perform(next, request) => StepView::Perform(
            UpdateAllStageView::Updating(progress, next),
            request,
        ),
        StepView::Finish(Ok(_)) => all_next(
            sources,
            ProgressView { updated: progress.updated.push(branch), ..progress },
        ),
        StepView::Finish(Err(_)) => StepView::Finish(
            Ok(UpdateAllReportView::Failed { branch, progress }),
        ),
    }
}

/// Where the run goes once the comparison of the next branch has moved: a
/// branch that is current is passed over, any other is updated.
pub open spec fn all_after_compare(
    sources: Locators,
    progress: ProgressView,
    step: StepView<CompareStageView, ComparisonView>,
) -> StepView<UpdateAllStageView, UpdateAllReportView> {
    let branch = progress.names[progress.comparisons.len() as int];
    match step {
        StepView::Perform(next, request) => StepView::Perform(
            UpdateAllStageView::Comparing(progress, next),
            request,
        ),
        StepView::Finish(Ok(comparison)) => {
            let compared = ProgressView {
                comparisons: progress.comparisons.push(comparison),
                ..progress
            };
            if comparison.up_to_date {
                all_next(sources, compared)
            } else {
                match install_step(
                    branch,
                    (sources.archive)(branch),
                    (sources.info)(branch),
                    InstallStage::Start,
                    None,
                ) {
                    StepView::Perform(next, request) => StepView::Perform(
                        UpdateAllStageView::Updating(compared, next),
                        request,
                    ),
                    StepView::Finish(_) => StepView::Finish(Err(Error::UnexpectedReply)),
                }
            }
        },
        StepView::Finish(Err(error)) => StepView::Finish(Err(error)),
    }
}

/// Where the run goes once `get_all` has moved.
pub open spec fn all_after_listing(
    sources: Locators,
    step: StepView<ListStage, Option<Seq<Seq<char>>>>,
) -> StepView<UpdateAllStageView, UpdateAllReportView> {
    match step {
        StepView::Perform(next, request) => StepView::Perform(
            UpdateAllStageView::Listing(next),
            request,
        ),
        StepView::Finish(Ok(Some(names))) => all_next(
            sources,
            ProgressView {
                names,
                comparisons: Seq::<ComparisonView>::empty(),
                updated: Seq::<Seq<char>>::empty(),
            },
        ),
        StepView::Finish(Ok(None)) => StepView::Finish(Ok(UpdateAllReportView::NoInstallations)),
        StepView::Finish(Err(error)) => StepView::Finish(Err(error)),
    }
}

/// Whether `progress` can be the progress of a run that is comparing.
pub open spec fn comparing_in_range(progress: ProgressView) -> bool {
    progress.comparisons.len() < progress.names.len()
}

/// Whether `progress` can be the progress of a run that is updating.
pub open spec fn updating_in_range(progress: ProgressView) -> bool {
    0 < progress.comparisons.len() <= progress.names.len()
}

/// How the update-all command moves: it gets all installations, and then
/// compares each in turn with the release source and updates those that
/// are out of date. A stage that no run can be in ends the run.
pub open spec fn update_all_run(
    sources: Locators,
    stage: UpdateAllStageView,
    reply: Option<ReplyView>,
) -> StepView<UpdateAllStageView, UpdateAllReportView> {
    match stage {
        UpdateAllStageView::Start => all_after_listing(
            sources,
            get_all_step(ListStage::Start, None),
        ),
        UpdateAllStageView::Listing(inner) => all_after_listing(
            sources,
            get_all_step(inner, reply),
        ),
        UpdateAllStageView::Comparing(progress, inner) => if !comparing_in_range(progress) {
            StepView::Finish(Err(Error::UnexpectedReply))
        } else {
            let branch = progress.names[progress.comparisons.len() as int];
            all_after_compare(
                sources,
                progress,
                is_up_to_date_step(branch, (sources.info)(branch), inner, reply),
            )
        },
        UpdateAllStageView::Updating(progress, inner) => if !updating_in_range(progress) {
            StepView::Finish(Err(Error::UnexpectedReply))
        } else {
            let branch = progress.names[progress.comparisons.len() - 1];
            all_after_install(
                sources,
                progress,
                install_step(
                    branch,
                    (sources.archive)(branch),
                    (sources.info)(branch),
                    inner,
                    reply,
                ),
            )
        },
    }
}

/// Appends `comparison` to `comparisons`.
pub fn with_comparison(comparisons: Vec<Comparison>, comparison: Comparison) -> (extended: Vec<
    Comparison,
>)
    ensures
        extended.deep_view() == comparisons.deep_view().push(comparison.deep_view()),
{
    let mut extended = comparisons;
    let ghost before = extended.deep_view();
    let ghost shallow = extended@;
    extended.push(comparison);
    proof {
        assert forall|i: int| 0 <= i < extended.len() implies extended.deep_view()[i]
            == before.push(comparison.deep_view())[i] by {
            assert(extended.deep_view()[i] == extended[i].deep_view());
            if i < shallow.len() {
                assert(before[i] == shallow[i].deep_view());
            }
        }
        assert(extended.deep_view() =~= before.push(comparison.deep_view()));
    }
    extended
}

impl UpdateAll {
    /// Computes [`all_next`].
    fn next<RS: ReleaseSource>(release_source: &RS, progress: Progress) -> (step: Step<
        UpdateAllStage,
        UpdateAllReport,
    >)
        ensures
            step.deep_view() == all_next(locators_of(release_source), progress.deep_view()),
    {
        let position = progress.comparisons.len();
        if position >= progress.names.len() {
            Step::Finish(Ok(UpdateAllReport::Finished(progress)))
        } else {
            proof {
                assert(progress.names.deep_view()[position as int] == progress.names[position as int]@);
            }
            let installation = DalamudInstallation {
                branch_name: progress.names[position].clone(),
            };
            match is_up_to_date(&installation, release_source, CompareStage::Start, None) {
                Step::Perform(stage, request) => Step::Perform(
                    UpdateAllStage::Comparing(progress, stage),
                    request,
                ),
                Step::Finish(_) => Step::Finish(Err(Error::UnexpectedReply)),
            }
        }
    }

    /// Computes [`all_after_install`].
    fn after_install<RS: ReleaseSource>(
        release_source: &RS,
        progress: Progress,
        step: Step<InstallStage, Installed>,
    ) -> (next: Step<UpdateAllStage, UpdateAllReport>)
        requires
            updating_in_range(progress.deep_view()),
        ensures
            next.deep_view() == all_after_install(
                locators_of(release_source),
                progress.deep_view(),
                step.deep_view(),
            ),
    {
        let position = progress.comparisons.len() - 1;
        proof {
            assert(progress.names.deep_view()[position as int] == progress.names[position as int]@);
        }
        let branch = progress.names[position].clone();
        match step {
            Step::Perform(stage, request) => Step::Perform(
                UpdateAllStage::Updating(progress, stage),
                request,
            ),
            Step::Finish(Ok(_)) => {
                let Progress { names, comparisons, updated } = progress;
                Self::next(
                    release_source,
                    Progress { names, comparisons, updated: appended(updated, branch) },
                )
            },
            Step::Finish(Err(_)) => Step::Finish(Ok(UpdateAllReport::Failed { branch, progress })),
        }
    }

    /// Computes [`all_after_compare`].
    fn after_compare<RS: ReleaseSource>(
        release_source: &RS,
        progress: Progress,
        step: Step<CompareStage, Comparison>,
    ) -> (next: Step<UpdateAllStage, UpdateAllReport>)
        requires
            comparing_in_range(progress.deep_view()),
        ensures
            next.deep_view() == all_after_compare(
                locators_of(release_source),
                progress.deep_view(),
                step.deep_view(),
            ),
    {
        let position = progress.comparisons.len();
        proof {
            assert(progress.names.deep_view()[position as int] == progress.names[position as int]@);
        }
        match step {
            Step::Perform(stage, request) => Step::Perform(
                UpdateAllStage::Comparing(progress, stage),
                request,
            ),
            Step::Finish(Ok(comparison)) => {
                let current = comparison.up_to_date;
                let branch = progress.names[position].clone();
                let Progress { names, comparisons, updated } = progress;
                let compared = Progress {
                    names,
                    comparisons: with_comparison(comparisons, comparison),
                    updated,
                };
                if current {
                    Self::next(release_source, compared)
                } else {
                    match DalamudInstallation::download_branch_impl(
                        branch.as_str(),
                        release_source,
                        InstallStage::Start,
                        None,
                    ) {
                        Step::Perform(stage, request) => Step::Perform(
                            UpdateAllStage::Updating(compared, stage),
                            request,
                        ),
                        Step::Finish(_) => Step::Finish(Err(Error::UnexpectedReply)),
                    }
                }
            },
            Step::Finish(Err(error)) => Step::Finish(Err(error)),
        }
    }

    /// Computes [`all_after_listing`].
    fn after_listing<RS: ReleaseSource>(
        release_source: &RS,
        step: Step<ListStage, Option<Vec<DalamudInstallation>>>,
    ) -> (next: Step<UpdateAllStage, UpdateAllReport>)
        ensures
            next.deep_view() == all_after_listing(locators_of(release_source), step.deep_view()),
    {
        match step {
            Step::Perform(stage, request) => Step::Perform(UpdateAllStage::Listing(stage), request),
            Step::Finish(Ok(Some(installations))) => {
                let progress = Progress {
                    names: names_of(installations),
                    comparisons: Vec::new(),
                    updated: Vec::new(),
                };
                proof {
                    assert(progress.comparisons.deep_view() =~= Seq::<ComparisonView>::empty());
                    assert(progress.updated.deep_view() =~= Seq::<Seq<char>>::empty());
                }
                Self::next(release_source, progress)
            },
            Step::Finish(Ok(None)) => Step::Finish(Ok(UpdateAllReport::NoInstallations)),
            Step::Finish(Err(error)) => Step::Finish(Err(error)),
        }
    }
}

impl RunnableCommand for UpdateAll {
    type Stage = UpdateAllStage;

    type Report = UpdateAllReport;

    fn begin(&self) -> (stage: UpdateAllStage)
        ensures
            stage.deep_view() == UpdateAllStageView::Start,
    {
        UpdateAllStage::Start
    }

    fn run<RS: ReleaseSource>(
        &self,
        release_source: &RS,
        stage: UpdateAllStage,
        reply: Option<Reply>,
    ) -> (step: Step<UpdateAllStage, UpdateAllReport>)
        ensures
            step.deep_view() == update_all_run(
                locators_of(release_source),
                stage.deep_view(),
                reply.deep_view(),
            ),
    {
        match stage {
            UpdateAllStage::Start => Self::after_listing(
                release_source,
                DalamudInstallation::get_all(ListStage::Start, None),
            ),
            UpdateAllStage::Listing(inner) => Self::after_listing(
                release_source,
                DalamudInstallation::get_all(inner, reply),
            ),
            UpdateAllStage::Comparing(progress, inner) => {
                let position = progress.comparisons.len();
                if position >= progress.names.len() {
                    Step::Finish(Err(Error::UnexpectedReply))
                } else {
                    proof {
                        assert(progress.names.deep_view()[position as int]
                            == progress.names[position as int]@);
                    }
                    let installation = DalamudInstallation {
                        branch_name: progress.names[position].clone(),
                    };
                    let comparing = is_up_to_date(&installation, release_source, inner, reply);
                    Self::after_compare(release_source, progress, comparing)
                }
            },
            UpdateAllStage::Updating(progress, inner) => {
                let compared = progress.comparisons.len();
                if compared == 0 || compared > progress.names.len() {
                    Step::Finish(Err(Error::UnexpectedReply))
                } else {
                    proof {
                        assert(progress.names.deep_view()[compared - 1]
                            == progress.names[compared - 1]@);
                    }
                    let installing = DalamudInstallation::download_branch_impl(
                        progress.names[compared - 1].as_str(),
                        release_source,
                        inner,
                        reply,
                    );
                    Self::after_install(release_source, progress, installing)
                }
            },
        }
    }
}

} // verus!
