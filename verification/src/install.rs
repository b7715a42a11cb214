//! Installing, replacing and removing a branch.
//!
//! The install procedure is shared by `create` and `update`: download the
//! release archive to a private temporary place; only then delete what is
//! installed, if anything; unpack; give up the download; and last try for the
//! version information, whose absence is no failure of the installation.

use crate::exchange::{Error, Reply, ReplyView, Request, RequestView, Step, StepView};
use crate::management::{
    answers_action, is_active_step, performed, probed, read_action, read_probe,
    unset_active_step, ActiveStage, DalamudInstallation, UnsetStage,
};
use crate::sources::ReleaseSource;
use vstd::prelude::*;

verus! {

/// The stages of the install procedure.
#[derive(Clone, Copy, Debug, PartialEq, Eq, Structural)]
pub enum InstallStage {
    Start,
    Locating,
    Downloading,
    Probing,
    Clearing,
    Extracting,
    Discarding,
    FetchingInfo,
}

impl DeepView for InstallStage {
    type V = InstallStage;

    open spec fn deep_view(&self) -> InstallStage {
        *self
    }
}

/// The stages of creating an installation.
#[derive(Clone, Copy, Debug, PartialEq, Eq, Structural)]
pub enum CreateStage {
    Start,
    Probing,
    Installing(InstallStage),
}

impl DeepView for CreateStage {
    type V = CreateStage;

    open spec fn deep_view(&self) -> CreateStage {
        *self
    }
}

/// The stages of removing an installation.
#[derive(Clone, Copy, Debug, PartialEq, Eq, Structural)]
pub enum RemoveStage {
    Start,
    Probing,
    CheckingActive(ActiveStage),
    Unsetting(UnsetStage),
    Deleting,
}

impl DeepView for RemoveStage {
    type V = RemoveStage;

    open spec fn deep_view(&self) -> RemoveStage {
        *self
    }
}

/// A branch that has just been installed.
#[derive(Debug, PartialEq, Eq)]
pub struct Installed {
    /// The new installation.
    pub installation: DalamudInstallation,
    /// Whether version information was stored with it. Without it the
    /// installation cannot later be compared against the release source.
    pub version_info_recorded: bool,
}

/// The mathematical content of an [`Installed`].
pub struct InstalledView {
    pub branch: Seq<char>,
    pub version_info_recorded: bool,
}

impl View for Installed {
    type V = InstalledView;

    open spec fn view(&self) -> InstalledView {
        InstalledView {
            branch: self.installation@,
            version_info_recorded: self.version_info_recorded,
        }
    }
}

impl DeepView for Installed {
    type V = InstalledView;

    open spec fn deep_view(&self) -> InstalledView {
        self@
    }
}

/// How the install procedure moves for `branch`, whose archive is at
/// `archive_url` and whose version information is at `info_url`.
pub open spec fn install_step(
    branch: Seq<char>,
    archive_url: Seq<char>,
    info_url: Seq<char>,
    stage: InstallStage,
    reply: Option<ReplyView>,
) -> StepView<InstallStage, InstalledView> {
    match stage {
        InstallStage::Start => StepView::Perform(
            InstallStage::Locating,
            RequestView::ProbeBranch { branch },
        ),
        InstallStage::Locating => match probed(reply) {
            Ok(_) => StepView::Perform(
                InstallStage::Downloading,
                RequestView::DownloadArchive { url: archive_url },
            ),
            Err(error) => StepView::Finish(Err(error)),
        },
        InstallStage::Downloading => if !answers_action(reply) {
            StepView::Finish(Err(Error::UnexpectedReply))
        } else {
            match performed(reply) {
                Ok(_) => StepView::Perform(
                    InstallStage::Probing,
                    RequestView::ProbeBranch { branch },
                ),
                Err(failure) => StepView::Finish(Err(failure.surfaced())),
            }
        },
        InstallStage::Probing => match probed(reply) {
            Ok((_, true)) => StepView::Perform(
                InstallStage::Clearing,
                RequestView::RemoveBranch { branch },
            ),
            Ok((_, false)) => StepView::Perform(
                InstallStage::Extracting,
                RequestView::ExtractArchive { branch },
            ),
            Err(error) => StepView::Finish(Err(error)),
        },
        InstallStage::Clearing => if !answers_action(reply) {
            StepView::Finish(Err(Error::UnexpectedReply))
        } else {
            match performed(reply) {
                Ok(_) => StepView::Perform(
                    InstallStage::Extracting,
                    RequestView::ExtractArchive { branch },
                ),
                Err(failure) => StepView::Finish(Err(failure.surfaced())),
            }
        },
        InstallStage::Extracting => if !answers_action(reply) {
            StepView::Finish(Err(Error::UnexpectedReply))
        } else {
            match performed(reply) {
                Ok(_) => StepView::Perform(InstallStage::Discarding, RequestView::DiscardArchive),
                Err(failure) => StepView::Finish(Err(failure.surfaced())),
            }
        },
        InstallStage::Discarding => if !answers_action(reply) {
            StepView::Finish(Err(Error::UnexpectedReply))
        } else {
            StepView::Perform(
                InstallStage::FetchingInfo,
                RequestView::DownloadVersionInfo { url: info_url, branch },
            )
        },
        InstallStage::FetchingInfo => if !answers_action(reply) {
            StepView::Finish(Err(Error::UnexpectedReply))
        } else {
            StepView::Finish(
                Ok(InstalledView { branch, version_info_recorded: performed(reply) is Ok }),
            )
        },
    }
}

/// An install step seen from `create`, whose stages wrap those of the
/// install procedure.
pub open spec fn installing(step: StepView<InstallStage, InstalledView>) -> StepView<
    CreateStage,
    InstalledView,
> {
    match step {
        StepView::Perform(next, request) => StepView::Perform(
            CreateStage::Installing(next),
            request,
        ),
        StepView::Finish(outcome) => StepView::Finish(outcome),
    }
}

/// How `create` moves: it refuses a branch that is installed, and installs
/// any other.
pub open spec fn create_step(
    branch: Seq<char>,
    archive_url: Seq<char>,
    info_url: Seq<char>,
    stage: CreateStage,
    reply: Option<ReplyView>,
) -> StepView<CreateStage, InstalledView> {
    match stage {
        CreateStage::Start => StepView::Perform(
            CreateStage::Probing,
            RequestView::ProbeBranch { branch },
        ),
        CreateStage::Probing => match probed(reply) {
            Ok((_, true)) => StepView::Finish(Err(Error::AlreadyExists)),
            Ok((_, false)) => installing(
                install_step(branch, archive_url, info_url, InstallStage::Start, None),
            ),
            Err(error) => StepView::Finish(Err(error)),
        },
        CreateStage::Installing(inner) => installing(
            install_step(branch, archive_url, info_url, inner, reply),
        ),
    }
}

/// Where `remove` goes once the active pointer has been cleared, or was
/// found to need no clearing.
pub open spec fn remove_after_unset(branch: Seq<char>, step: StepView<UnsetStage, ()>) -> StepView<
    RemoveStage,
    (),
> {
    match step {
        StepView::Perform(next, request) => StepView::Perform(RemoveStage::Unsetting(next), request),
        StepView::Finish(Ok(_)) => StepView::Perform(
            RemoveStage::Deleting,
            RequestView::RemoveBranch { branch },
        ),
        StepView::Finish(Err(error)) => StepView::Finish(Err(error)),
    }
}

/// Where `remove` goes once it knows whether its branch is the active one.
pub open spec fn remove_after_check(branch: Seq<char>, step: StepView<ActiveStage, bool>) -> StepView<
    RemoveStage,
    (),
> {
    match step {
        StepView::Perform(next, request) => StepView::Perform(
            RemoveStage::CheckingActive(next),
            request,
        ),
        StepView::Finish(Ok(true)) => remove_after_unset(
            branch,
            unset_active_step(UnsetStage::Start, None),
        ),
        StepView::Finish(Ok(false)) => StepView::Perform(
            RemoveStage::Deleting,
            RequestView::RemoveBranch { branch },
        ),
        StepView::Finish(Err(error)) => StepView::Finish(Err(error)),
    }
}

/// How `remove` moves: it refuses a branch that is not installed; clears the
/// active pointer first if it points at this branch; then deletes the
/// directory.
pub open spec fn remove_step(
    branch: Seq<char>,
    stage: RemoveStage,
    reply: Option<ReplyView>,
) -> StepView<RemoveStage, ()> {
    match stage {
        RemoveStage::Start => StepView::Perform(
            RemoveStage::Probing,
            RequestView::ProbeBranch { branch },
        ),
        RemoveStage::Probing => match probed(reply) {
            Ok((_, true)) => remove_after_check(
                branch,
                is_active_step(branch, ActiveStage::Start, None),
            ),
            Ok((_, false)) => StepView::Finish(Err(Error::NotInstalled)),
            Err(error) => StepView::Finish(Err(error)),
        },
        RemoveStage::CheckingActive(inner) => remove_after_check(
            branch,
            is_active_step(branch, inner, reply),
        ),
        RemoveStage::Unsetting(inner) => remove_after_unset(
            branch,
            unset_active_step(inner, reply),
        ),
        RemoveStage::Deleting => if !answers_action(reply) {
            StepView::Finish(Err(Error::UnexpectedReply))
        } else {
            match performed(reply) {
                Ok(_) => StepView::Finish(Ok(())),
                Err(failure) => StepView::Finish(Err(failure.surfaced())),
            }
        },
    }
}

impl DalamudInstallation {
    /// Downloads the release of `branch_name` and puts it in place of
    /// whatever is installed under that name.
    ///
    /// Nothing installed is deleted before the archive has been downloaded
    /// in full. If unpacking then fails, the branch is left absent.
    pub fn download_branch_impl<RS: ReleaseSource>(
        branch_name: &str,
        release_source: &RS,
        stage: InstallStage,
        reply: Option<Reply>,
    ) -> (step: Step<InstallStage, Installed>)
        ensures
            step.deep_view() == install_step(
                branch_name@,
                release_source.archive_url(branch_name@),
                release_source.version_info_url(branch_name@),
                stage,
                reply.deep_view(),
            ),
    {
        match stage {
            InstallStage::Start => Step::Perform(
                InstallStage::Locating,
                Request::ProbeBranch { branch: branch_name.to_owned() },
            ),
            InstallStage::Locating => match read_probe(reply) {
                Ok(_) => Step::Perform(
                    InstallStage::Downloading,
                    Request::DownloadArchive {
                        resource: release_source.get_release_archive_file(branch_name),
                    },
                ),
                Err(error) => Step::Finish(Err(error)),
            },
            InstallStage::Downloading => match read_action(reply) {
                None => Step::Finish(Err(Error::UnexpectedReply)),
                Some(Ok(_)) => Step::Perform(
                    InstallStage::Probing,
                    Request::ProbeBranch { branch: branch_name.to_owned() },
                ),
                Some(Err(failure)) => Step::Finish(Err(failure.surface())),
            },
            InstallStage::Probing => match read_probe(reply) {
                Ok((_, present)) => {
                    if present {
                        Step::Perform(
                            InstallStage::Clearing,
                            Request::RemoveBranch { branch: branch_name.to_owned() },
                        )
                    } else {
                        Step::Perform(
                            InstallStage::Extracting,
                            Request::ExtractArchive { branch: branch_name.to_owned() },
                        )
                    }
                },
                Err(error) => Step::Finish(Err(error)),
            },
            InstallStage::Clearing => match read_action(reply) {
                None => Step::Finish(Err(Error::UnexpectedReply)),
                Some(Ok(_)) => Step::Perform(
                    InstallStage::Extracting,
                    Request::ExtractArchive { branch: branch_name.to_owned() },
                ),
                Some(Err(failure)) => Step::Finish(Err(failure.surface())),
            },
            InstallStage::Extracting => match read_action(reply) {
                None => Step::Finish(Err(Error::UnexpectedReply)),
                Some(Ok(_)) => Step::Perform(InstallStage::Discarding, Request::DiscardArchive),
                Some(Err(failure)) => Step::Finish(Err(failure.surface())),
            },
            InstallStage::Discarding => match read_action(reply) {
                None => Step::Finish(Err(Error::UnexpectedReply)),
                Some(_) => Step::Perform(
                    InstallStage::FetchingInfo,
                    Request::DownloadVersionInfo {
                        resource: release_source.get_version_info_file(branch_name),
                        branch: branch_name.to_owned(),
                    },
                ),
            },
            InstallStage::FetchingInfo => match read_action(reply) {
                None => Step::Finish(Err(Error::UnexpectedReply)),
                Some(outcome) => Step::Finish(
                    Ok(
                        Installed {
                            installation: DalamudInstallation {
                                branch_name: branch_name.to_owned(),
                            },
                            version_info_recorded: outcome.is_ok(),
                        },
                    ),
                ),
            },
        }
    }

    /// Installs the branch `branch_name`, which must not be installed yet.
    pub fn create<RS: ReleaseSource>(
        branch_name: &str,
        release_source: &RS,
        stage: CreateStage,
        reply: Option<Reply>,
    ) -> (step: Step<CreateStage, Installed>)
        ensures
            step.deep_view() == create_step(
                branch_name@,
                release_source.archive_url(branch_name@),
                release_source.version_info_url(branch_name@),
                stage,
                reply.deep_view(),
            ),
    {
        match stage {
            CreateStage::Start => Step::Perform(
                CreateStage::Probing,
                Request::ProbeBranch { branch: branch_name.to_owned() },
            ),
            CreateStage::Probing => match read_probe(reply) {
                Ok((_, present)) => {
                    if present {
                        Step::Finish(Err(Error::AlreadyExists))
                    } else {
                        Self::wrap_install(
                            Self::download_branch_impl(
                                branch_name,
                                release_source,
                                InstallStage::Start,
                                None,
                            ),
                        )
                    }
                },
                Err(error) => Step::Finish(Err(error)),
            },
            CreateStage::Installing(inner) => Self::wrap_install(
                Self::download_branch_impl(branch_name, release_source, inner, reply),
            ),
        }
    }

    /// Computes [`installing`].
    fn wrap_install(step: Step<InstallStage, Installed>) -> (wrapped: Step<CreateStage, Installed>)
        ensures
            wrapped.deep_view() == installing(step.deep_view()),
    {
        match step {
            Step::Perform(next, request) => Step::Perform(CreateStage::Installing(next), request),
            Step::Finish(outcome) => Step::Finish(outcome),
        }
    }

    /// Replaces this installation by the release that its source currently
    /// publishes.
    ///
    /// The handle is spent: should the procedure fail midway, what it
    /// referred to may be gone. Ask `get` for a fresh one.
    pub fn update<RS: ReleaseSource>(
        &self,
        release_source: &RS,
        stage: InstallStage,
        reply: Option<Reply>,
    ) -> (step: Step<InstallStage, Installed>)
        ensures
            step.deep_view() == install_step(
                self@,
                release_source.archive_url(self@),
                release_source.version_info_url(self@),
                stage,
                reply.deep_view(),
            ),
    {
        Self::download_branch_impl(self.branch_name.as_str(), release_source, stage, reply)
    }

    /// Computes [`remove_after_unset`].
    fn after_unset(&self, step: Step<UnsetStage, ()>) -> (next: Step<RemoveStage, ()>)
        ensures
            next.deep_view() == remove_after_unset(self@, step.deep_view()),
    {
        match step {
            Step::Perform(stage, request) => Step::Perform(RemoveStage::Unsetting(stage), request),
            Step::Finish(Ok(_)) => Step::Perform(
                RemoveStage::Deleting,
                Request::RemoveBranch { branch: self.branch_name.clone() },
            ),
            Step::Finish(Err(error)) => Step::Finish(Err(error)),
        }
    }

    /// Computes [`remove_after_check`].
    fn after_check(&self, step: Step<ActiveStage, bool>) -> (next: Step<RemoveStage, ()>)
        ensures
            next.deep_view() == remove_after_check(self@, step.deep_view()),
    {
        match step {
            Step::Perform(stage, request) => Step::Perform(
                RemoveStage::CheckingActive(stage),
                request,
            ),
            Step::Finish(Ok(active)) => {
                if active {
                    self.after_unset(Self::unset_active(UnsetStage::Start, None))
                } else {
                    Step::Perform(
                        RemoveStage::Deleting,
                        Request::RemoveBranch { branch: self.branch_name.clone() },
                    )
                }
            },
            Step::Finish(Err(error)) => Step::Finish(Err(error)),
        }
    }

    /// Removes this installation from storage, clearing the active pointer
    /// first if it points here.
    pub fn remove(&self, stage: RemoveStage, reply: Option<Reply>) -> (step: Step<RemoveStage, ()>)
        ensures
            step.deep_view() == remove_step(self@, stage, reply.deep_view()),
    {
        match stage {
            RemoveStage::Start => Step::Perform(
                RemoveStage::Probing,
                Request::ProbeBranch { branch: self.branch_name.clone() },
            ),
            RemoveStage::Probing => match read_probe(reply) {
                Ok((_, present)) => {
                    if present {
                        self.after_check(self.is_active(ActiveStage::Start, None))
                    } else {
                        Step::Finish(Err(Error::NotInstalled))
                    }
                },
                Err(error) => Step::Finish(Err(error)),
            },
            RemoveStage::CheckingActive(inner) => self.after_check(self.is_active(inner, reply)),
            RemoveStage::Unsetting(inner) => self.after_unset(Self::unset_active(inner, reply)),
            RemoveStage::Deleting => match read_action(reply) {
                None => Step::Finish(Err(Error::UnexpectedReply)),
                Some(Ok(_)) => Step::Finish(Ok(())),
                Some(Err(failure)) => Step::Finish(Err(failure.surface())),
            },
        }
    }
}

} // verus!
