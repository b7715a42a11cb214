//! Managing versions by branch name alone, with one of them marked as the
//! current version.

use crate::exchange::{Error, Failure, Reply, ReplyView, Request, RequestView, Step, StepView};
use crate::management::{
    answers_action, is_installed_step, performed, probed, read_action, read_probe,
    DalamudInstallation, ListStage, ProbeStage,
};
use crate::net::RemoteResource;
use crate::sources::{
    locator, DistRepository, OFFICIAL_DOWNLOAD_BASE_URL, OFFICIAL_RELEASE_ARCHIVE_FILENAME,
    OFFICIAL_ROOT_BRANCH_NAME, OFFICIAL_VERSION_INFO_FILENAME,
};
use crate::text::{arranged, ascending, ascending_is_arranged, sort};
use vstd::prelude::*;

verus! {

/// Logic for interacting with Dalamud versions.
#[derive(Clone, Copy, Debug)]
pub struct DalamudVersionManager {}

/// The stages of installing a version.
#[derive(Clone, Copy, Debug, PartialEq, Eq, Structural)]
pub enum VersionCreateStage {
    Start,
    Probing,
    Clearing,
    Downloading,
    Extracting,
    FetchingInfo,
    Discarding(bool),
}

impl DeepView for VersionCreateStage {
    type V = VersionCreateStage;

    open spec fn deep_view(&self) -> VersionCreateStage {
        *self
    }
}

/// The stages of finding the current version.
#[derive(Clone, Copy, Debug, PartialEq, Eq, Structural)]
pub enum CurrentStage {
    Start,
    Resolving,
}

impl DeepView for CurrentStage {
    type V = CurrentStage;

    open spec fn deep_view(&self) -> CurrentStage {
        *self
    }
}

/// The stages of making a version the current one.
#[derive(Clone, Copy, Debug, PartialEq, Eq, Structural)]
pub enum SetCurrentStage {
    Start,
    Probing,
    Unlinking,
    Linking,
}

impl DeepView for SetCurrentStage {
    type V = SetCurrentStage;

    open spec fn deep_view(&self) -> SetCurrentStage {
        *self
    }
}

/// The stages of clearing the current version.
#[derive(Clone, Copy, Debug, PartialEq, Eq, Structural)]
pub enum UnsetCurrentStage {
    Start,
    Resolving,
    Removing,
}

impl DeepView for UnsetCurrentStage {
    type V = UnsetCurrentStage;

    open spec fn deep_view(&self) -> UnsetCurrentStage {
        *self
    }
}

/// The stages of removing a version.
#[derive(Clone, Copy, Debug, PartialEq, Eq, Structural)]
pub enum VersionRemoveStage {
    Start,
    Probing,
    FindingCurrent(CurrentStage),
    Unsetting(UnsetCurrentStage),
    Deleting,
}

impl DeepView for VersionRemoveStage {
    type V = VersionRemoveStage;

    open spec fn deep_view(&self) -> VersionRemoveStage {
        *self
    }
}

/// Where the official distribution publishes the archive of `branch`.
pub open spec fn official_archive(branch: Seq<char>) -> Seq<char> {
    locator(
        OFFICIAL_DOWNLOAD_BASE_URL@,
        OFFICIAL_ROOT_BRANCH_NAME@,
        branch,
        OFFICIAL_RELEASE_ARCHIVE_FILENAME@,
    )
}

/// Where the official distribution publishes the version information of
/// `branch`.
pub open spec fn official_info(branch: Seq<char>) -> Seq<char> {
    locator(
        OFFICIAL_DOWNLOAD_BASE_URL@,
        OFFICIAL_ROOT_BRANCH_NAME@,
        branch,
        OFFICIAL_VERSION_INFO_FILENAME@,
    )
}

/// How `create` moves. An installed version is refused unless it is to be
/// replaced, and then it is deleted before anything is downloaded. What it
/// yields is whether version information was stored with the version.
pub open spec fn version_create_step(
    branch: Seq<char>,
    replace_existing: bool,
    stage: VersionCreateStage,
    reply: Option<ReplyView>,
) -> StepView<VersionCreateStage, bool> {
    let download = StepView::Perform(
        VersionCreateStage::Downloading,
        RequestView::DownloadArchive { url: official_archive(branch) },
    );
    if stage == VersionCreateStage::Start {
        StepView::Perform(VersionCreateStage::Probing, RequestView::ProbeBranch { branch })
    } else if stage == VersionCreateStage::Probing {
        match probed(reply) {
            Ok((_, true)) => if replace_existing {
                StepView::Perform(VersionCreateStage::Clearing, RequestView::RemoveBranch { branch })
            } else {
                StepView::Finish(Err(Error::AlreadyExists))
            },
            Ok((_, false)) => download,
            Err(error) => StepView::Finish(Err(error)),
        }
    } else if !answers_action(reply) {
        StepView::Finish(Err(Error::UnexpectedReply))
    } else {
        match (stage, performed(reply)) {
            (VersionCreateStage::FetchingInfo, outcome) => StepView::Perform(
                VersionCreateStage::Discarding(outcome is Ok),
                RequestView::DiscardArchive,
            ),
            (_, Err(failure)) => StepView::Finish(Err(failure.surfaced())),
            (VersionCreateStage::Clearing, Ok(_)) => download,
            (VersionCreateStage::Downloading, Ok(_)) => StepView::Perform(
                VersionCreateStage::Extracting,
                RequestView::ExtractArchive { branch },
            ),
            (VersionCreateStage::Extracting, Ok(_)) => StepView::Perform(
                VersionCreateStage::FetchingInfo,
                RequestView::DownloadVersionInfo { url: official_info(branch), branch },
            ),
            (VersionCreateStage::Discarding(recorded), Ok(_)) => StepView::Finish(Ok(recorded)),
            (_, Ok(_)) => StepView::Finish(Err(Error::UnexpectedReply)),
        }
    }
}

/// How `get_all_installed` moves. Where the versions directory is absent
/// the list is empty; otherwise it holds the entries in ascending order.
pub open spec fn get_all_installed_step(stage: ListStage, reply: Option<ReplyView>) -> StepView<
    ListStage,
    Seq<Seq<char>>,
> {
    match stage {
        ListStage::Start => StepView::Perform(ListStage::Listing, RequestView::ListBranches),
        ListStage::Listing => match reply {
            Some(ReplyView::Entries(Some(names))) => StepView::Finish(Ok(arranged(names))),
            Some(ReplyView::Entries(None)) => StepView::Finish(Ok(Seq::<Seq<char>>::empty())),
            Some(ReplyView::Failed(failure)) => StepView::Finish(Err(failure.surfaced())),
            _ => StepView::Finish(Err(Error::UnexpectedReply)),
        },
    }
}

/// How `get_current` moves. A pointer that is absent or leads nowhere means
/// that no version is current.
pub open spec fn get_current_step(stage: CurrentStage, reply: Option<ReplyView>) -> StepView<
    CurrentStage,
    Option<Seq<char>>,
> {
    match stage {
        CurrentStage::Start => StepView::Perform(
            CurrentStage::Resolving,
            RequestView::ResolveActiveLink,
        ),
        CurrentStage::Resolving => match reply {
            Some(ReplyView::Target(Some(name))) => StepView::Finish(Ok(Some(name))),
            Some(ReplyView::Target(None)) => StepView::Finish(Err(Error::Io)),
            Some(ReplyView::Failed(Failure::NotFound)) => StepView::Finish(Ok(None)),
            Some(ReplyView::Failed(failure)) => StepView::Finish(Err(failure.surfaced())),
            _ => StepView::Finish(Err(Error::UnexpectedReply)),
        },
    }
}

/// How `set_current` moves. Whether the old pointer could be deleted is
/// not looked at; a failure to make the new one is.
pub open spec fn set_current_step(
    branch: Seq<char>,
    stage: SetCurrentStage,
    reply: Option<ReplyView>,
) -> StepView<SetCurrentStage, ()> {
    match stage {
        SetCurrentStage::Start => StepView::Perform(
            SetCurrentStage::Probing,
            RequestView::ProbeBranch { branch },
        ),
        SetCurrentStage::Probing => match probed(reply) {
            Ok((_, true)) => StepView::Perform(
                SetCurrentStage::Unlinking,
                RequestView::RemoveActiveLink,
            ),
            Ok((_, false)) => StepView::Finish(Err(Error::NotInstalled)),
            Err(error) => StepView::Finish(Err(error)),
        },
        SetCurrentStage::Unlinking => if !answers_action(reply) {
            StepView::Finish(Err(Error::UnexpectedReply))
        } else {
            StepView::Perform(SetCurrentStage::Linking, RequestView::CreateActiveLink { branch })
        },
        SetCurrentStage::Linking => if !answers_action(reply) {
            StepView::Finish(Err(Error::UnexpectedReply))
        } else {
            match performed(reply) {
                Ok(_) => StepView::Finish(Ok(())),
                Err(failure) => StepView::Finish(Err(failure.surfaced())),
            }
        },
    }
}

/// How `unset_current` moves. Where the pointer is absent or leads nowhere
/// there is nothing to do; otherwise it is deleted, and a failure to do so
/// is an error.
pub open spec fn unset_current_step(stage: UnsetCurrentStage, reply: Option<ReplyView>) -> StepView<
    UnsetCurrentStage,
    (),
> {
    match stage {
        UnsetCurrentStage::Start => StepView::Perform(
            UnsetCurrentStage::Resolving,
            RequestView::ResolveActiveLink,
        ),
        UnsetCurrentStage::Resolving => match reply {
            Some(ReplyView::Target(_)) => StepView::Perform(
                UnsetCurrentStage::Removing,
                RequestView::RemoveActiveLink,
            ),
            Some(ReplyView::Failed(Failure::NotFound)) => StepView::Finish(Ok(())),
            Some(ReplyView::Failed(failure)) => StepView::Finish(Err(failure.surfaced())),
            _ => StepView::Finish(Err(Error::UnexpectedReply)),
        },
        UnsetCurrentStage::Removing => if !answers_action(reply) {
            StepView::Finish(Err(Error::UnexpectedReply))
        } else {
            match performed(reply) {
                Ok(_) => StepView::Finish(Ok(())),
                Err(failure) => StepView::Finish(Err(failure.surfaced())),
            }
        },
    }
}

/// Where `remove` goes once the current version has been cleared.
pub open spec fn version_remove_after_unset(
    branch: Seq<char>,
    step: StepView<UnsetCurrentStage, ()>,
) -> StepView<VersionRemoveStage, ()> {
    match step {
        StepView::Perform(next, request) => StepView::Perform(
            VersionRemoveStage::Unsetting(next),
            request,
        ),
        StepView::Finish(Ok(_)) => StepView::Perform(
            VersionRemoveStage::Deleting,
            RequestView::RemoveBranch { branch },
        ),
        StepView::Finish(Err(error)) => StepView::Finish(Err(error)),
    }
}

/// Where `remove` goes once it knows the current version.
pub open spec fn version_remove_after_current(
    branch: Seq<char>,
    step: StepView<CurrentStage, Option<Seq<char>>>,
) -> StepView<VersionRemoveStage, ()> {
    match step {
        StepView::Perform(next, request) => StepView::Perform(
            VersionRemoveStage::FindingCurrent(next),
            request,
        ),
        StepView::Finish(Ok(current)) => if current == Some(branch) {
            version_remove_after_unset(branch, unset_current_step(UnsetCurrentStage::Start, None))
        } else {
            StepView::Perform(VersionRemoveStage::Deleting, RequestView::RemoveBranch { branch })
        },
        StepView::Finish(Err(error)) => StepView::Finish(Err(error)),
    }
}

/// How `remove` moves: it refuses a version that is not installed, clears
/// the current version first if it is the one to go, and then deletes the
/// directory.
pub open spec fn version_remove_step(
    branch: Seq<char>,
    stage: VersionRemoveStage,
    reply: Option<ReplyView>,
) -> StepView<VersionRemoveStage, ()> {
    match stage {
        VersionRemoveStage::Start => StepView::Perform(
            VersionRemoveStage::Probing,
            RequestView::ProbeBranch { branch },
        ),
        VersionRemoveStage::Probing => match probed(reply) {
            Ok((_, true)) => version_remove_after_current(
                branch,
                get_current_step(CurrentStage::Start, None),
            ),
            Ok((_, false)) => StepView::Finish(Err(Error::NotInstalled)),
            Err(error) => StepView::Finish(Err(error)),
        },
        VersionRemoveStage::FindingCurrent(inner) => version_remove_after_current(
            branch,
            get_current_step(inner, reply),
        ),
        VersionRemoveStage::Unsetting(inner) => version_remove_after_unset(
            branch,
            unset_current_step(inner, reply),
        ),
        VersionRemoveStage::Deleting => if !answers_action(reply) {
            StepView::Finish(Err(Error::UnexpectedReply))
        } else {
            match performed(reply) {
                Ok(_) => StepView::Finish(Ok(())),
                Err(failure) => StepView::Finish(Err(failure.surfaced())),
            }
        },
    }
}

impl DalamudVersionManager {
    /// The request to download the archive of `branch`.
    fn download(branch: &str) -> (step: Step<VersionCreateStage, bool>)
        ensures
            step.deep_view() == StepView::<VersionCreateStage, bool>::Perform(
                VersionCreateStage::Downloading,
                RequestView::DownloadArchive { url: official_archive(branch@) },
            ),
    {
        let archive = DistRepository::default().get_download_url(branch);
        Step::Perform(
            VersionCreateStage::Downloading,
            Request::DownloadArchive { resource: RemoteResource::from_url(archive.url) },
        )
    }

    /// Installs the version `branch` from the official distribution.
    pub fn create(
        branch: &str,
        replace_existing: bool,
        stage: VersionCreateStage,
        reply: Option<Reply>,
    ) -> (step: Step<VersionCreateStage, bool>)
        ensures
            step.deep_view() == version_create_step(
                branch@,
                replace_existing,
                stage,
                reply.deep_view(),
            ),
    {
        match stage {
            VersionCreateStage::Start => Step::Perform(
                VersionCreateStage::Probing,
                Request::ProbeBranch { branch: branch.to_owned() },
            ),
            VersionCreateStage::Probing => match read_probe(reply) {
                Ok((_, present)) => {
                    if !present {
                        Self::download(branch)
                    } else if replace_existing {
                        Step::Perform(
                            VersionCreateStage::Clearing,
                            Request::RemoveBranch { branch: branch.to_owned() },
                        )
                    } else {
                        Step::Finish(Err(Error::AlreadyExists))
                    }
                },
                Err(error) => Step::Finish(Err(error)),
            },
            VersionCreateStage::Clearing => match read_action(reply) {
                None => Step::Finish(Err(Error::UnexpectedReply)),
                Some(Ok(_)) => Self::download(branch),
                Some(Err(failure)) => Step::Finish(Err(failure.surface())),
            },
            VersionCreateStage::Downloading => match read_action(reply) {
                None => Step::Finish(Err(Error::UnexpectedReply)),
                Some(Ok(_)) => Step::Perform(
                    VersionCreateStage::Extracting,
                    Request::ExtractArchive { branch: branch.to_owned() },
                ),
                Some(Err(failure)) => Step::Finish(Err(failure.surface())),
            },
            VersionCreateStage::Extracting => match read_action(reply) {
                None => Step::Finish(Err(Error::UnexpectedReply)),
                Some(Ok(_)) => {
                    let info = DistRepository::default().get_version_info_url(branch);
                    Step::Perform(
                        VersionCreateStage::FetchingInfo,
                        Request::DownloadVersionInfo {
                            resource: RemoteResource::from_url(info.url),
                            branch: branch.to_owned(),
                        },
                    )
                },
                Some(Err(failure)) => Step::Finish(Err(failure.surface())),
            },
            VersionCreateStage::FetchingInfo => match read_action(reply) {
                None => Step::Finish(Err(Error::UnexpectedReply)),
                Some(outcome) => Step::Perform(
                    VersionCreateStage::Discarding(outcome.is_ok()),
                    Request::DiscardArchive,
                ),
            },
            VersionCreateStage::Discarding(recorded) => match read_action(reply) {
                None => Step::Finish(Err(Error::UnexpectedReply)),
                Some(Ok(_)) => Step::Finish(Ok(recorded)),
                Some(Err(failure)) => Step::Finish(Err(failure.surface())),
            },
        }
    }

    /// Computes [`version_remove_after_unset`].
    fn after_unset(branch: &str, step: Step<UnsetCurrentStage, ()>) -> (next: Step<
        VersionRemoveStage,
        (),
    >)
        ensures
            next.deep_view() == version_remove_after_unset(branch@, step.deep_view()),
    {
        match step {
            Step::Perform(stage, request) => Step::Perform(
                VersionRemoveStage::Unsetting(stage),
                request,
            ),
            Step::Finish(Ok(_)) => Step::Perform(
                VersionRemoveStage::Deleting,
                Request::RemoveBranch { branch: branch.to_owned() },
            ),
            Step::Finish(Err(error)) => Step::Finish(Err(error)),
        }
    }

    /// Computes [`version_remove_after_current`].
    fn after_current(branch: &str, step: Step<CurrentStage, Option<String>>) -> (next: Step<
        VersionRemoveStage,
        (),
    >)
        ensures
            next.deep_view() == version_remove_after_current(branch@, step.deep_view()),
    {
        match step {
            Step::Perform(stage, request) => Step::Perform(
                VersionRemoveStage::FindingCurrent(stage),
                request,
            ),
            Step::Finish(Ok(current)) => {
                let is_current = match current {
                    Some(name) => crate::text::same(name.as_str(), branch),
                    None => false,
                };
                if is_current {
                    Self::after_unset(branch, Self::unset_current(UnsetCurrentStage::Start, None))
                } else {
                    Step::Perform(
                        VersionRemoveStage::Deleting,
                        Request::RemoveBranch { branch: branch.to_owned() },
                    )
                }
            },
            Step::Finish(Err(error)) => Step::Finish(Err(error)),
        }
    }

    /// Removes the version `branch`, clearing the current version first if
    /// it is the one removed.
    pub fn remove(branch: &str, stage: VersionRemoveStage, reply: Option<Reply>) -> (step: Step<
        VersionRemoveStage,
        (),
    >)
        ensures
            step.deep_view() == version_remove_step(branch@, stage, reply.deep_view()),
    {
        match stage {
            VersionRemoveStage::Start => Step::Perform(
                VersionRemoveStage::Probing,
                Request::ProbeBranch { branch: branch.to_owned() },
            ),
            VersionRemoveStage::Probing => match read_probe(reply) {
                Ok((_, present)) => {
                    if present {
                        Self::after_current(branch, Self::get_current(CurrentStage::Start, None))
                    } else {
                        Step::Finish(Err(Error::NotInstalled))
                    }
                },
                Err(error) => Step::Finish(Err(error)),
            },
            VersionRemoveStage::FindingCurrent(inner) => Self::after_current(
                branch,
                Self::get_current(inner, reply),
            ),
            VersionRemoveStage::Unsetting(inner) => Self::after_unset(
                branch,
                Self::unset_current(inner, reply),
            ),
            VersionRemoveStage::Deleting => match read_action(reply) {
                None => Step::Finish(Err(Error::UnexpectedReply)),
                Some(Ok(_)) => Step::Finish(Ok(())),
                Some(Err(failure)) => Step::Finish(Err(failure.surface())),
            },
        }
    }

    /// Whether the version `branch` is installed.
    pub fn is_installed(branch: &str, stage: ProbeStage, reply: Option<Reply>) -> (step: Step<
        ProbeStage,
        bool,
    >)
        ensures
            step.deep_view() == is_installed_step(branch@, stage, reply.deep_view()),
    {
        DalamudInstallation::is_installed(branch, stage, reply)
    }

    /// The names of all installed versions, in ascending order.
    pub fn get_all_installed(stage: ListStage, reply: Option<Reply>) -> (step: Step<
        ListStage,
        Vec<String>,
    >)
        ensures
            step.deep_view() == get_all_installed_step(stage, reply.deep_view()),
            step matches Step::Finish(Ok(listed)) ==> ascending(listed.deep_view()) && (reply
                matches Some(Reply::Entries(Some(entries))) ==> listed.deep_view().to_multiset()
                == entries.deep_view().to_multiset()),
    {
        match stage {
            ListStage::Start => Step::Perform(ListStage::Listing, Request::ListBranches),
            ListStage::Listing => match reply {
                Some(Reply::Entries(Some(names))) => {
                    let ghost entries = names.deep_view();
                    let sorted = sort(names);
                    proof {
                        ascending_is_arranged(entries, sorted.deep_view());
                    }
                    Step::Finish(Ok(sorted))
                },
                Some(Reply::Entries(None)) => {
                    let nothing: Vec<String> = Vec::new();
                    assert(nothing.deep_view() =~= Seq::<Seq<char>>::empty());
                    Step::Finish(Ok(nothing))
                },
                Some(Reply::Failed(failure)) => Step::Finish(Err(failure.surface())),
                _ => Step::Finish(Err(Error::UnexpectedReply)),
            },
        }
    }

    /// The current version, found by following the pointer.
    pub fn get_current(stage: CurrentStage, reply: Option<Reply>) -> (step: Step<
        CurrentStage,
        Option<String>,
    >)
        ensures
            step.deep_view() == get_current_step(stage, reply.deep_view()),
    {
        match stage {
            CurrentStage::Start => Step::Perform(CurrentStage::Resolving, Request::ResolveActiveLink),
            CurrentStage::Resolving => match reply {
                Some(Reply::Target(Some(name))) => Step::Finish(Ok(Some(name))),
                Some(Reply::Target(None)) => Step::Finish(Err(Error::Io)),
                Some(Reply::Failed(Failure::NotFound)) => Step::Finish(Ok(None)),
                Some(Reply::Failed(failure)) => Step::Finish(Err(failure.surface())),
                _ => Step::Finish(Err(Error::UnexpectedReply)),
            },
        }
    }

    /// Makes the version `branch` the current one.
    pub fn set_current(branch: &str, stage: SetCurrentStage, reply: Option<Reply>) -> (step: Step<
        SetCurrentStage,
        (),
    >)
        ensures
            step.deep_view() == set_current_step(branch@, stage, reply.deep_view()),
    {
        match stage {
            SetCurrentStage::Start => Step::Perform(
                SetCurrentStage::Probing,
                Request::ProbeBranch { branch: branch.to_owned() },
            ),
            SetCurrentStage::Probing => match read_probe(reply) {
                Ok((_, present)) => {
                    if present {
                        Step::Perform(SetCurrentStage::Unlinking, Request::RemoveActiveLink)
                    } else {
                        Step::Finish(Err(Error::NotInstalled))
                    }
                },
                Err(error) => Step::Finish(Err(error)),
            },
            SetCurrentStage::Unlinking => match read_action(reply) {
                None => Step::Finish(Err(Error::UnexpectedReply)),
                Some(_) => Step::Perform(
                    SetCurrentStage::Linking,
                    Request::CreateActiveLink { branch: branch.to_owned() },
                ),
            },
            SetCurrentStage::Linking => match read_action(reply) {
                None => Step::Finish(Err(Error::UnexpectedReply)),
                Some(Ok(_)) => Step::Finish(Ok(())),
                Some(Err(failure)) => Step::Finish(Err(failure.surface())),
            },
        }
    }

    /// Clears the current version, if there is one.
    pub fn unset_current(stage: UnsetCurrentStage, reply: Option<Reply>) -> (step: Step<
        UnsetCurrentStage,
        (),
    >)
        ensures
            step.deep_view() == unset_current_step(stage, reply.deep_view()),
    {
        match stage {
            UnsetCurrentStage::Start => Step::Perform(
                UnsetCurrentStage::Resolving,
                Request::ResolveActiveLink,
            ),
            UnsetCurrentStage::Resolving => match reply {
                Some(Reply::Target(_)) => Step::Perform(
                    UnsetCurrentStage::Removing,
                    Request::RemoveActiveLink,
                ),
                Some(Reply::Failed(Failure::NotFound)) => Step::Finish(Ok(())),
                Some(Reply::Failed(failure)) => Step::Finish(Err(failure.surface())),
                _ => Step::Finish(Err(Error::UnexpectedReply)),
            },
            UnsetCurrentStage::Removing => match read_action(reply) {
                None => Step::Finish(Err(Error::UnexpectedReply)),
                Some(Ok(_)) => Step::Finish(Ok(())),
                Some(Err(failure)) => Step::Finish(Err(failure.surface())),
            },
        }
    }
}

} // verus!
