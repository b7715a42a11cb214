//! Updating a branch to the latest release.

use crate::commands::RunnableCommand;
use crate::exchange::{Reply, ReplyView, Step, StepView};
use crate::install::{install_step, InstallStage, Installed, InstalledView};
use crate::management::{
    get_active_step, get_step, ActiveStage, DalamudInstallation, ProbeStage,
};
use crate::sources::ReleaseSource;
use crate::update::{
    is_up_to_date, is_up_to_date_step, CompareStage, CompareStageView, Comparison, ComparisonView,
};
use vstd::prelude::*;

verus! {

/// Update a local branch to the latest version.
#[derive(Debug)]
pub struct Update {
    /// The branch to update; `None` means the currently active branch.
    pub branch_name: Option<String>,
    /// Update regardless of the local and remote version information.
    pub force: bool,
    /// Do not apply updates, only check for them.
    pub check: bool,
}

/// The stages of the update command.
#[derive(Debug, PartialEq, Eq)]
pub enum UpdateStage {
    Start,
    Inferring(ActiveStage),
    Getting(String, ProbeStage),
    Comparing(String, CompareStage),
    Updating(String, Option<Comparison>, InstallStage),
}

/// The mathematical content of an [`UpdateStage`].
pub enum UpdateStageView {
    Start,
    Inferring(ActiveStage),
    Getting(Seq<char>, ProbeStage),
    Comparing(Seq<char>, CompareStageView),
    Updating(Seq<char>, Option<ComparisonView>, InstallStage),
}

impl DeepView for UpdateStage {
    type V = UpdateStageView;

    open spec fn deep_view(&self) -> UpdateStageView {
        match self {
            UpdateStage::Start => UpdateStageView::Start,
            UpdateStage::Inferring(stage) => UpdateStageView::Inferring(*stage),
            UpdateStage::Getting(branch, stage) => UpdateStageView::Getting(branch@, *stage),
            UpdateStage::Comparing(branch, stage) => UpdateStageView::Comparing(
                branch@,
                stage.deep_view(),
            ),
            UpdateStage::Updating(branch, comparison, stage) => UpdateStageView::Updating(
                branch@,
                comparison.deep_view(),
                *stage,
            ),
        }
    }
}

/// How a run of the update command ended.
#[derive(Debug, PartialEq, Eq)]
pub enum UpdateOutcome {
    /// No branch was named and none is active.
    NoBranch,
    /// The branch is not installed; it can be installed first.
    NotInstalled,
    /// The branch was only checked.
    Checked(Comparison),
    /// The branch is up to date already, and was left alone.
    AlreadyUpToDate(Comparison),
    /// The branch has been updated; without a comparison, by force.
    Updated { comparison: Option<Comparison>, version_info_recorded: bool },
    /// The update failed.
    Failed { comparison: Option<Comparison> },
}

/// The mathematical content of an [`UpdateOutcome`].
pub enum UpdateOutcomeView {
    NoBranch,
    NotInstalled,
    Checked(ComparisonView),
    AlreadyUpToDate(ComparisonView),
    Updated { comparison: Option<ComparisonView>, version_info_recorded: bool },
    Failed { comparison: Option<ComparisonView> },
}

impl DeepView for UpdateOutcome {
    type V = UpdateOutcomeView;

    open spec fn deep_view(&self) -> UpdateOutcomeView {
        match self {
            UpdateOutcome::NoBranch => UpdateOutcomeView::NoBranch,
            UpdateOutcome::NotInstalled => UpdateOutcomeView::NotInstalled,
            UpdateOutcome::Checked(comparison) => UpdateOutcomeView::Checked(
                comparison.deep_view(),
            ),
            UpdateOutcome::AlreadyUpToDate(comparison) => UpdateOutcomeView::AlreadyUpToDate(
                comparison.deep_view(),
            ),
            UpdateOutcome::Updated { comparison, version_info_recorded } => {
                UpdateOutcomeView::Updated {
                    comparison: comparison.deep_view(),
                    version_info_recorded: *version_info_recorded,
                }
            },
            UpdateOutcome::Failed { comparison } => UpdateOutcomeView::Failed {
                comparison: comparison.deep_view(),
            },
        }
    }
}

/// What the update command reports.
#[derive(Debug, PartialEq, Eq)]
pub struct UpdateReport {
    /// The branch the command settled on, if it settled on one.
    pub branch: Option<String>,
    /// How the run ended.
    pub outcome: UpdateOutcome,
}

/// The mathematical content of an [`UpdateReport`].
pub struct UpdateReportView {
    pub branch: Option<Seq<char>>,
    pub outcome: UpdateOutcomeView,
}

impl DeepView for UpdateReport {
    type V = UpdateReportView;

    open spec fn deep_view(&self) -> UpdateReportView {
        UpdateReportView { branch: self.branch.deep_view(), outcome: self.outcome.deep_view() }
    }
}

/// What the command needs of a release source: where it publishes the
/// archive and the version information of each branch.
pub struct Locators {
    pub archive: spec_fn(Seq<char>) -> Seq<char>,
    pub info: spec_fn(Seq<char>) -> Seq<char>,
}

/// The locators of `release_source`.
pub open spec fn locators_of<RS: ReleaseSource>(release_source: &RS) -> Locators {
    Locators {
        archive: |branch: Seq<char>| release_source.archive_url(branch),
        info: |branch: Seq<char>| release_source.version_info_url(branch),
    }
}

/// The report that the run on `branch` ended with `outcome`.
pub open spec fn ended(branch: Seq<char>, outcome: UpdateOutcomeView) -> StepView<
    UpdateStageView,
    UpdateReportView,
> {
    StepView::Finish(Ok(UpdateReportView { branch: Some(branch), outcome }))
}

/// Where the command goes once the install procedure has moved. Why an
/// update failed is not reported.
pub open spec fn update_after_install(
    branch: Seq<char>,
    comparison: Option<ComparisonView>,
    step: StepView<InstallStage, InstalledView>,
) -> StepView<UpdateStageView, UpdateReportView> {
    match step {
        StepView::Perform(next, request) => StepView::Perform(
            UpdateStageView::Updating(branch, comparison, next),
            request,
        ),
        StepView::Finish(Ok(installed)) => ended(
            branch,
            UpdateOutcomeView::Updated {
                comparison,
                version_info_recorded: installed.version_info_recorded,
            },
        ),
        StepView::Finish(Err(_)) => ended(branch, UpdateOutcomeView::Failed { comparison }),
    }
}

/// Where the command goes once the comparison has moved: a check ends on
/// its result; otherwise the branch is updated unless it is current.
pub open spec fn update_after_compare(
    check: bool,
    sources: Locators,
    branch: Seq<char>,
    step: StepView<CompareStageView, ComparisonView>,
) -> StepView<UpdateStageView, UpdateReportView> {
    match step {
        StepView::Perform(next, request) => StepView::Perform(
            UpdateStageView::Comparing(branch, next),
            request,
        ),
        StepView::Finish(Ok(comparison)) => if check {
            ended(branch, UpdateOutcomeView::Checked(comparison))
        } else if comparison.up_to_date {
            ended(branch, UpdateOutcomeView::AlreadyUpToDate(comparison))
        } else {
            update_after_install(
                branch,
                Some(comparison),
                install_step(
                    branch,
                    (sources.archive)(branch),
                    (sources.info)(branch),
                    InstallStage::Start,
                    None,
                ),
            )
        },
        StepView::Finish(Err(error)) => StepView::Finish(Err(error)),
    }
}

/// Where the command goes once `get` has moved: a check compares and so
/// does a plain update, whereas a forced one installs at once.
pub open spec fn update_after_get(
    force: bool,
    check: bool,
    sources: Locators,
    branch: Seq<char>,
    step: StepView<ProbeStage, Option<Seq<char>>>,
) -> StepView<UpdateStageView, UpdateReportView> {
    match step {
        StepView::Perform(next, request) => StepView::Perform(
            UpdateStageView::Getting(branch, next),
            request,
        ),
        StepView::Finish(Ok(Some(_))) => if force && !check {
            update_after_install(
                branch,
                None,
                install_step(
                    branch,
                    (sources.archive)(branch),
                    (sources.info)(branch),
                    InstallStage::Start,
                    None,
                ),
            )
        } else {
            update_after_compare(
                check,
                sources,
                branch,
                is_up_to_date_step(
                    branch,
                    (sources.info)(branch),
                    CompareStageView::Start,
                    None,
                ),
            )
        },
        StepView::Finish(Ok(None)) => ended(branch, UpdateOutcomeView::NotInstalled),
        StepView::Finish(Err(error)) => StepView::Finish(Err(error)),
    }
}

/// Where the command goes once `get_active` has moved.
pub open spec fn update_after_inferring(
    force: bool,
    check: bool,
    sources: Locators,
    step: StepView<ActiveStage, Option<Seq<char>>>,
) -> StepView<UpdateStageView, UpdateReportView> {
    match step {
        StepView::Perform(next, request) => StepView::Perform(
            UpdateStageView::Inferring(next),
            request,
        ),
        StepView::Finish(Ok(Some(branch))) => update_after_get(
            force,
            check,
            sources,
            branch,
            get_step(branch, ProbeStage::Start, None),
        ),
        StepView::Finish(Ok(None)) => StepView::Finish(
            Ok(UpdateReportView { branch: None, outcome: UpdateOutcomeView::NoBranch }),
        ),
        StepView::Finish(Err(error)) => StepView::Finish(Err(error)),
    }
}

/// How the update command moves.
///
/// It settles on a branch, the one named or else the active one; requires
/// it to be installed; and then checks, updates by force, or updates if the
/// comparison with the release source says the branch is out of date.
pub open spec fn update_run(
    name: Option<Seq<char>>,
    force: bool,
    check: bool,
    sources: Locators,
    stage: UpdateStageView,
    reply: Option<ReplyView>,
) -> StepView<UpdateStageView, UpdateReportView> {
    match stage {
        UpdateStageView::Start => match name {
            Some(branch) => update_after_get(
                force,
                check,
                sources,
                branch,
                get_step(branch, ProbeStage::Start, None),
            ),
            None => update_after_inferring(
                force,
                check,
                sources,
                get_active_step(ActiveStage::Start, None),
            ),
        },
        UpdateStageView::Inferring(inner) => update_after_inferring(
            force,
            check,
            sources,
            get_active_step(inner, reply),
        ),
        UpdateStageView::Getting(branch, inner) => update_after_get(
            force,
            check,
            sources,
            branch,
            get_step(branch, inner, reply),
        ),
        UpdateStageView::Comparing(branch, inner) => update_after_compare(
            check,
            sources,
            branch,
            is_up_to_date_step(branch, (sources.info)(branch), inner, reply),
        ),
        UpdateStageView::Updating(branch, comparison, inner) => update_after_install(
            branch,
            comparison,
            install_step(
                branch,
                (sources.archive)(branch),
                (sources.info)(branch),
                inner,
                reply,
            ),
        ),
    }
}

impl Update {
    /// Computes [`ended`].
    fn end(branch: String, outcome: UpdateOutcome) -> (step: Step<UpdateStage, UpdateReport>)
        ensures
            step.deep_view() == ended(branch@, outcome.deep_view()),
    {
        Step::Finish(Ok(UpdateReport { branch: Some(branch), outcome }))
    }

    /// Computes [`update_after_install`].
    fn after_install(
        branch: String,
        comparison: Option<Comparison>,
        step: Step<InstallStage, Installed>,
    ) -> (next: Step<UpdateStage, UpdateReport>)
        ensures
            next.deep_view() == update_after_install(
                branch@,
                comparison.deep_view(),
                step.deep_view(),
            ),
    {
        match step {
            Step::Perform(stage, request) => Step::Perform(
                UpdateStage::Updating(branch, comparison, stage),
                request,
            ),
            Step::Finish(Ok(installed)) => Self::end(
                branch,
                UpdateOutcome::Updated {
                    comparison,
                    version_info_recorded: installed.version_info_recorded,
                },
            ),
            Step::Finish(Err(_)) => Self::end(branch, UpdateOutcome::Failed { comparison }),
        }
    }

    /// Computes [`update_after_compare`].
    fn after_compare<RS: ReleaseSource>(
        &self,
        release_source: &RS,
        branch: String,
        step: Step<CompareStage, Comparison>,
    ) -> (next: Step<UpdateStage, UpdateReport>)
        ensures
            next.deep_view() == update_after_compare(
                self.check,
                locators_of(release_source),
                branch@,
                step.deep_view(),
            ),
    {
        match step {
            Step::Perform(stage, request) => Step::Perform(
                UpdateStage::Comparing(branch, stage),
                request,
            ),
            Step::Finish(Ok(comparison)) => {
                if self.check {
                    Self::end(branch, UpdateOutcome::Checked(comparison))
                } else if comparison.up_to_date {
                    Self::end(branch, UpdateOutcome::AlreadyUpToDate(comparison))
                } else {
                    let installing = DalamudInstallation::download_branch_impl(
                        branch.as_str(),
                        release_source,
                        InstallStage::Start,
                        None,
                    );
                    Self::after_install(branch, Some(comparison), installing)
                }
            },
            Step::Finish(Err(error)) => Step::Finish(Err(error)),
        }
    }

    /// Computes [`update_after_get`].
    fn after_get<RS: ReleaseSource>(
        &self,
        release_source: &RS,
        branch: String,
        step: Step<ProbeStage, Option<DalamudInstallation>>,
    ) -> (next: Step<UpdateStage, UpdateReport>)
        ensures
            next.deep_view() == update_after_get(
                self.force,
                self.check,
                locators_of(release_source),
                branch@,
                step.deep_view(),
            ),
    {
        match step {
            Step::Perform(stage, request) => Step::Perform(
                UpdateStage::Getting(branch, stage),
                request,
            ),
            Step::Finish(Ok(Some(_))) => {
                if self.force && !self.check {
                    let installing = DalamudInstallation::download_branch_impl(
                        branch.as_str(),
                        release_source,
                        InstallStage::Start,
                        None,
                    );
                    Self::after_install(branch, None, installing)
                } else {
                    let installation = DalamudInstallation { branch_name: branch.clone() };
                    let comparing = is_up_to_date(
                        &installation,
                        release_source,
                        CompareStage::Start,
                        None,
                    );
                    self.after_compare(release_source, branch, comparing)
                }
            },
            Step::Finish(Ok(None)) => Self::end(branch, UpdateOutcome::NotInstalled),
            Step::Finish(Err(error)) => Step::Finish(Err(error)),
        }
    }

    /// Computes [`update_after_inferring`].
    fn after_inferring<RS: ReleaseSource>(
        &self,
        release_source: &RS,
        step: Step<ActiveStage, Option<DalamudInstallation>>,
    ) -> (next: Step<UpdateStage, UpdateReport>)
        ensures
            next.deep_view() == update_after_inferring(
                self.force,
                self.check,
                locators_of(release_source),
                step.deep_view(),
            ),
    {
        match step {
            Step::Perform(stage, request) => Step::Perform(UpdateStage::Inferring(stage), request),
            Step::Finish(Ok(Some(active))) => {
                let getting = DalamudInstallation::get(
                    active.branch_name.as_str(),
                    ProbeStage::Start,
                    None,
                );
                self.after_get(release_source, active.branch_name, getting)
            },
            Step::Finish(Ok(None)) => Step::Finish(
                Ok(UpdateReport { branch: None, outcome: UpdateOutcome::NoBranch }),
            ),
            Step::Finish(Err(error)) => Step::Finish(Err(error)),
        }
    }
}

impl RunnableCommand for Update {
    type Stage = UpdateStage;

    type Report = UpdateReport;

    fn begin(&self) -> (stage: UpdateStage)
        ensures
            stage.deep_view() == UpdateStageView::Start,
    {
        UpdateStage::Start
    }

    fn run<RS: ReleaseSource>(
        &self,
        release_source: &RS,
        stage: UpdateStage,
        reply: Option<Reply>,
    ) -> (step: Step<UpdateStage, UpdateReport>)
        ensures
            step.deep_view() == update_run(
                self.branch_name.deep_view(),
                self.force,
                self.check,
                locators_of(release_source),
                stage.deep_view(),
                reply.deep_view(),
            ),
    {
        match stage {
            UpdateStage::Start => match &self.branch_name {
                Some(name) => {
                    let getting = DalamudInstallation::get(name.as_str(), ProbeStage::Start, None);
                    self.after_get(release_source, name.clone(), getting)
                },
                None => self.after_inferring(
                    release_source,
                    DalamudInstallation::get_active(ActiveStage::Start, None),
                ),
            },
            UpdateStage::Inferring(inner) => self.after_inferring(
                release_source,
                DalamudInstallation::get_active(inner, reply),
            ),
            UpdateStage::Getting(branch, inner) => {
                let getting = DalamudInstallation::get(branch.as_str(), inner, reply);
                self.after_get(release_source, branch, getting)
            },
            UpdateStage::Comparing(branch, inner) => {
                let installation = DalamudInstallation { branch_name: branch.clone() };
                let comparing = is_up_to_date(&installation, release_source, inner, reply);
                self.after_compare(release_source, branch, comparing)
            },
            UpdateStage::Updating(branch, comparison, inner) => {
                let installing = DalamudInstallation::download_branch_impl(
                    branch.as_str(),
                    release_source,
                    inner,
                    reply,
                );
                Self::after_install(branch, comparison, installing)
            },
        }
    }
}

} // verus!
