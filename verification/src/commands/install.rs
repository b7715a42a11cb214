//! Installing a branch.

use crate::commands::RunnableCommand;
use crate::exchange::{Error, Reply, ReplyView, Step, StepView};
use crate::info::{get_version_info_step, InfoStage};
use crate::install::{create_step, CreateStage, Installed, InstalledView};
use crate::management::{is_installed_step, DalamudInstallation, ProbeStage};
use crate::sources::ReleaseSource;
use crate::version_info::{DalamudVersionInfo, VersionInfoView};
use vstd::prelude::*;

verus! {

/// Install a Dalamud release from the specified branch.
#[derive(Debug)]
pub struct Install {
    /// The name of the branch to install.
    pub branch_name: String,
}

/// The stages of the install command.
#[derive(Clone, Copy, Debug, PartialEq, Eq, Structural)]
pub enum InstallCommandStage {
    Start,
    Checking(ProbeStage),
    Creating(CreateStage),
    Reading(bool, InfoStage),
}

impl DeepView for InstallCommandStage {
    type V = InstallCommandStage;

    open spec fn deep_view(&self) -> InstallCommandStage {
        *self
    }
}

/// What the install command reports.
#[derive(Debug, PartialEq, Eq)]
pub enum InstallReport {
    /// The branch is installed already; it can be updated instead.
    AlreadyInstalled,
    /// The installation failed.
    Failed(Error),
    /// The branch has been installed.
    Installed {
        /// The assembly version that was installed, where it is known.
        version: Option<String>,
        /// Whether version information was stored with the installation.
        version_info_recorded: bool,
    },
}

/// The mathematical content of an [`InstallReport`].
pub enum InstallReportView {
    AlreadyInstalled,
    Failed(Error),
    Installed { version: Option<Seq<char>>, version_info_recorded: bool },
}

impl DeepView for InstallReport {
    type V = InstallReportView;

    open spec fn deep_view(&self) -> InstallReportView {
        match self {
            InstallReport::AlreadyInstalled => InstallReportView::AlreadyInstalled,
            InstallReport::Failed(error) => InstallReportView::Failed(*error),
            InstallReport::Installed { version, version_info_recorded } => {
                InstallReportView::Installed {
                    version: version.deep_view(),
                    version_info_recorded: *version_info_recorded,
                }
            },
        }
    }
}

/// The assembly version in `info`, if there is any information.
pub open spec fn assembly_version(info: Option<VersionInfoView>) -> Option<Seq<char>> {
    match info {
        Some(info) => Some(info.assembly_version),
        None => None,
    }
}

/// Where the command goes once the fresh installation's version
/// information has moved.
pub open spec fn install_after_read(
    recorded: bool,
    step: StepView<InfoStage, Option<VersionInfoView>>,
) -> StepView<InstallCommandStage, InstallReportView> {
    match step {
        StepView::Perform(next, request) => StepView::Perform(
            InstallCommandStage::Reading(recorded, next),
            request,
        ),
        StepView::Finish(Ok(info)) => StepView::Finish(
            Ok(
                InstallReportView::Installed {
                    version: assembly_version(info),
                    version_info_recorded: recorded,
                },
            ),
        ),
        StepView::Finish(Err(error)) => StepView::Finish(Err(error)),
    }
}

/// Where the command goes once `create` has moved.
pub open spec fn install_after_create(
    branch: Seq<char>,
    step: StepView<CreateStage, InstalledView>,
) -> StepView<InstallCommandStage, InstallReportView> {
    match step {
        StepView::Perform(next, request) => StepView::Perform(
            InstallCommandStage::Creating(next),
            request,
        ),
        StepView::Finish(Ok(installed)) => install_after_read(
            installed.version_info_recorded,
            get_version_info_step(branch, InfoStage::Start, None),
        ),
        StepView::Finish(Err(error)) => StepView::Finish(Ok(InstallReportView::Failed(error))),
    }
}

/// Where the command goes once `is_installed` has moved.
pub open spec fn install_after_check(
    branch: Seq<char>,
    archive_url: Seq<char>,
    info_url: Seq<char>,
    step: StepView<ProbeStage, bool>,
) -> StepView<InstallCommandStage, InstallReportView> {
    match step {
        StepView::Perform(next, request) => StepView::Perform(
            InstallCommandStage::Checking(next),
            request,
        ),
        StepView::Finish(Ok(true)) => StepView::Finish(Ok(InstallReportView::AlreadyInstalled)),
        StepView::Finish(Ok(false)) => install_after_create(
            branch,
            create_step(branch, archive_url, info_url, CreateStage::Start, None),
        ),
        StepView::Finish(Err(error)) => StepView::Finish(Err(error)),
    }
}

/// How the install command moves: it refuses a branch that is installed,
/// creates any other, and looks up the version it installed.
pub open spec fn install_run(
    branch: Seq<char>,
    archive_url: Seq<char>,
    info_url: Seq<char>,
    stage: InstallCommandStage,
    reply: Option<ReplyView>,
) -> StepView<InstallCommandStage, InstallReportView> {
    match stage {
        InstallCommandStage::Start => install_after_check(
            branch,
            archive_url,
            info_url,
            is_installed_step(branch, ProbeStage::Start, None),
        ),
        InstallCommandStage::Checking(inner) => install_after_check(
            branch,
            archive_url,
            info_url,
            is_installed_step(branch, inner, reply),
        ),
        InstallCommandStage::Creating(inner) => install_after_create(
            branch,
            create_step(branch, archive_url, info_url, inner, reply),
        ),
        InstallCommandStage::Reading(recorded, inner) => install_after_read(
            recorded,
            get_version_info_step(branch, inner, reply),
        ),
    }
}

impl Install {
    /// Computes [`install_after_read`].
    fn after_read(recorded: bool, step: Step<InfoStage, Option<DalamudVersionInfo>>) -> (next: Step<
        InstallCommandStage,
        InstallReport,
    >)
        ensures
            next.deep_view() == install_after_read(recorded, step.deep_view()),
    {
        match step {
            Step::Perform(stage, request) => Step::Perform(
                InstallCommandStage::Reading(recorded, stage),
                request,
            ),
            Step::Finish(Ok(Some(info))) => Step::Finish(
                Ok(
                    InstallReport::Installed {
                        version: Some(info.assembly_version),
                        version_info_recorded: recorded,
                    },
                ),
            ),
            Step::Finish(Ok(None)) => Step::Finish(
                Ok(InstallReport::Installed { version: None, version_info_recorded: recorded }),
            ),
            Step::Finish(Err(error)) => Step::Finish(Err(error)),
        }
    }

    /// Computes [`install_after_create`].
    fn after_create(&self, step: Step<CreateStage, Installed>) -> (next: Step<
        InstallCommandStage,
        InstallReport,
    >)
        ensures
            next.deep_view() == install_after_create(self.branch_name@, step.deep_view()),
    {
        match step {
            Step::Perform(stage, request) => Step::Perform(
                InstallCommandStage::Creating(stage),
                request,
            ),
            Step::Finish(Ok(installed)) => {
                let installation = DalamudInstallation { branch_name: self.branch_name.clone() };
                Self::after_read(
                    installed.version_info_recorded,
                    installation.get_version_info(InfoStage::Start, None),
                )
            },
            Step::Finish(Err(error)) => Step::Finish(Ok(InstallReport::Failed(error))),
        }
    }

    /// Computes [`install_after_check`].
    fn after_check<RS: ReleaseSource>(&self, release_source: &RS, step: Step<ProbeStage, bool>) -> (next:
        Step<InstallCommandStage, InstallReport>)
        ensures
            next.deep_view() == install_after_check(
                self.branch_name@,
                release_source.archive_url(self.branch_name@),
                release_source.version_info_url(self.branch_name@),
                step.deep_view(),
            ),
    {
        match step {
            Step::Perform(stage, request) => Step::Perform(
                InstallCommandStage::Checking(stage),
                request,
            ),
            Step::Finish(Ok(present)) => {
                if present {
                    Step::Finish(Ok(InstallReport::AlreadyInstalled))
                } else {
                    self.after_create(
                        DalamudInstallation::create(
                            self.branch_name.as_str(),
                            release_source,
                            CreateStage::Start,
                            None,
                        ),
                    )
                }
            },
            Step::Finish(Err(error)) => Step::Finish(Err(error)),
        }
    }
}

impl RunnableCommand for Install {
    type Stage = InstallCommandStage;

    type Report = InstallReport;

    fn begin(&self) -> (stage: InstallCommandStage)
        ensures
            stage == InstallCommandStage::Start,
    {
        InstallCommandStage::Start
    }

    fn run<RS: ReleaseSource>(
        &self,
        release_source: &RS,
        stage: InstallCommandStage,
        reply: Option<Reply>,
    ) -> (step: Step<InstallCommandStage, InstallReport>)
        ensures
            step.deep_view() == install_run(
                self.branch_name@,
                release_source.archive_url(self.branch_name@),
                release_source.version_info_url(self.branch_name@),
                stage,
                reply.deep_view(),
            ),
    {
        let branch = self.branch_name.as_str();
        match stage {
            InstallCommandStage::Start => self.after_check(
                release_source,
                DalamudInstallation::is_installed(branch, ProbeStage::Start, None),
            ),
            InstallCommandStage::Checking(inner) => self.after_check(
                release_source,
                DalamudInstallation::is_installed(branch, inner, reply),
            ),
            InstallCommandStage::Creating(inner) => self.after_create(
                DalamudInstallation::create(branch, release_source, inner, reply),
            ),
            InstallCommandStage::Reading(recorded, inner) => {
                let installation = DalamudInstallation { branch_name: self.branch_name.clone() };
                Self::after_read(recorded, installation.get_version_info(inner, reply))
            },
        }
    }
}

} // verus!
