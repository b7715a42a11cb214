//! Branch installations and the procedures that manage them.
//!
//! An installation is a reference to on-disk state, never a cache of it.
//! Each procedure here is one function from the stage it is in and the reply
//! to its last request to its next move; the caller carries out the requests
//! and comes back with the replies, starting in the stage `Start` with no
//! reply.

use crate::exchange::{Error, Failure, Reply, ReplyView, Request, RequestView, Step, StepView};
use vstd::prelude::*;
use vstd::std_specs::cmp::PartialEqSpecImpl;

verus! {

/// A locally installed branch.
#[derive(Debug)]
pub struct DalamudInstallation {
    /// The name of the branch, which is also the name of its directory.
    pub branch_name: String,
}

impl View for DalamudInstallation {
    type V = Seq<char>;

    open spec fn view(&self) -> Seq<char> {
        self.branch_name@
    }
}

impl DeepView for DalamudInstallation {
    type V = Seq<char>;

    open spec fn deep_view(&self) -> Seq<char> {
        self.branch_name@
    }
}

impl PartialEq for DalamudInstallation {
    fn eq(&self, other: &Self) -> (equal: bool) {
        self.branch_name == other.branch_name
    }
}

impl PartialEqSpecImpl for DalamudInstallation {
    open spec fn obeys_eq_spec() -> bool {
        true
    }

    open spec fn eq_spec(&self, other: &Self) -> bool {
        self@ == other@
    }
}

impl Eq for DalamudInstallation {

}

impl Clone for DalamudInstallation {
    fn clone(&self) -> (copy: Self)
        ensures
            copy@ == self@,
    {
        DalamudInstallation { branch_name: self.branch_name.clone() }
    }
}

/// The stages of a procedure that asks once whether a branch is installed.
#[derive(Clone, Copy, Debug, PartialEq, Eq, Structural)]
pub enum ProbeStage {
    Start,
    Probing,
}

impl DeepView for ProbeStage {
    type V = ProbeStage;

    open spec fn deep_view(&self) -> ProbeStage {
        *self
    }
}

/// The stages of listing the installed branches.
#[derive(Clone, Copy, Debug, PartialEq, Eq, Structural)]
pub enum ListStage {
    Start,
    Listing,
}

impl DeepView for ListStage {
    type V = ListStage;

    open spec fn deep_view(&self) -> ListStage {
        *self
    }
}

/// The stages of finding the active branch.
#[derive(Clone, Copy, Debug, PartialEq, Eq, Structural)]
pub enum ActiveStage {
    Start,
    ReadingLink,
    Resolving,
}

impl DeepView for ActiveStage {
    type V = ActiveStage;

    open spec fn deep_view(&self) -> ActiveStage {
        *self
    }
}

/// The stages of clearing the active pointer.
#[derive(Clone, Copy, Debug, PartialEq, Eq, Structural)]
pub enum UnsetStage {
    Start,
    ReadingLink,
    Removing,
}

impl DeepView for UnsetStage {
    type V = UnsetStage;

    open spec fn deep_view(&self) -> UnsetStage {
        *self
    }
}

/// The stages of making a branch the active one.
#[derive(Clone, Copy, Debug, PartialEq, Eq, Structural)]
pub enum ActivateStage {
    Start,
    Probing,
    Unlinking,
    Linking,
}

impl DeepView for ActivateStage {
    type V = ActivateStage;

    open spec fn deep_view(&self) -> ActivateStage {
        *self
    }
}

/// What a reply to `ProbeBranch` says: where the directory lives and whether
/// it exists.
pub open spec fn probed(reply: Option<ReplyView>) -> Result<(Seq<char>, bool), Error> {
    match reply {
        Some(ReplyView::Branch { location, present }) => Ok((location, present)),
        Some(ReplyView::Failed(failure)) => Err(failure.surfaced()),
        _ => Err(Error::UnexpectedReply),
    }
}

/// Computes [`probed`].
pub fn read_probe(reply: Option<Reply>) -> (outcome: Result<(String, bool), Error>)
    ensures
        match outcome {
            Ok((location, present)) => probed(reply.deep_view()) == Ok::<_, Error>(
                (location@, present),
            ),
            Err(error) => probed(reply.deep_view()) == Err::<(Seq<char>, bool), _>(error),
        },
{
    match reply {
        Some(Reply::Branch { location, present }) => Ok((location, present)),
        Some(Reply::Failed(failure)) => Err(failure.surface()),
        _ => Err(Error::UnexpectedReply),
    }
}

/// What a reply to a request that only acts says: that it was done, or why
/// it was not.
pub open spec fn performed(reply: Option<ReplyView>) -> Result<(), Failure> {
    match reply {
        Some(ReplyView::Done) => Ok(()),
        Some(ReplyView::Failed(failure)) => Err(failure),
        _ => Err(Failure::Other),
    }
}

/// Whether `reply` is an answer that a request that only acts can get.
pub open spec fn answers_action(reply: Option<ReplyView>) -> bool {
    reply matches Some(r) && (r is Done || r is Failed)
}

/// How `is_installed` moves.
pub open spec fn is_installed_step(
    branch: Seq<char>,
    stage: ProbeStage,
    reply: Option<ReplyView>,
) -> StepView<ProbeStage, bool> {
    match stage {
        ProbeStage::Start => StepView::Perform(
            ProbeStage::Probing,
            RequestView::ProbeBranch { branch },
        ),
        ProbeStage::Probing => match probed(reply) {
            Ok((_, present)) => StepView::Finish(Ok(present)),
            Err(error) => StepView::Finish(Err(error)),
        },
    }
}

/// How `get` moves.
pub open spec fn get_step(
    branch: Seq<char>,
    stage: ProbeStage,
    reply: Option<ReplyView>,
) -> StepView<ProbeStage, Option<Seq<char>>> {
    match stage {
        ProbeStage::Start => StepView::Perform(
            ProbeStage::Probing,
            RequestView::ProbeBranch { branch },
        ),
        ProbeStage::Probing => match probed(reply) {
            Ok((_, present)) => StepView::Finish(
                Ok(
                    if present {
                        Some(branch)
                    } else {
                        None
                    },
                ),
            ),
            Err(error) => StepView::Finish(Err(error)),
        },
    }
}

/// How `get_location` moves.
pub open spec fn get_location_step(
    branch: Seq<char>,
    stage: ProbeStage,
    reply: Option<ReplyView>,
) -> StepView<ProbeStage, Option<Seq<char>>> {
    match stage {
        ProbeStage::Start => StepView::Perform(
            ProbeStage::Probing,
            RequestView::ProbeBranch { branch },
        ),
        ProbeStage::Probing => match probed(reply) {
            Ok((location, present)) => StepView::Finish(
                Ok(
                    if present {
                        Some(location)
                    } else {
                        None
                    },
                ),
            ),
            Err(error) => StepView::Finish(Err(error)),
        },
    }
}

/// How `get_all` moves. A root that is absent and a root without entries
/// both yield `None`: a list, where there is one, is never empty.
pub open spec fn get_all_step(stage: ListStage, reply: Option<ReplyView>) -> StepView<
    ListStage,
    Option<Seq<Seq<char>>>,
> {
    match stage {
        ListStage::Start => StepView::Perform(ListStage::Listing, RequestView::ListBranches),
        ListStage::Listing => match reply {
            Some(ReplyView::Entries(Some(names))) => StepView::Finish(
                Ok(
                    if names.len() == 0 {
                        None
                    } else {
                        Some(names)
                    },
                ),
            ),
            Some(ReplyView::Entries(None)) => StepView::Finish(Ok(None)),
            Some(ReplyView::Failed(failure)) => StepView::Finish(Err(failure.surfaced())),
            _ => StepView::Finish(Err(Error::UnexpectedReply)),
        },
    }
}

/// How `get_active` moves. A pointer that is absent, and one whose target
/// is gone, both mean that no branch is active.
pub open spec fn get_active_step(stage: ActiveStage, reply: Option<ReplyView>) -> StepView<
    ActiveStage,
    Option<Seq<char>>,
> {
    match stage {
        ActiveStage::Start => StepView::Perform(
            ActiveStage::ReadingLink,
            RequestView::ReadActiveLink,
        ),
        ActiveStage::ReadingLink => match reply {
            Some(ReplyView::Done) => StepView::Perform(
                ActiveStage::Resolving,
                RequestView::ResolveActiveLink,
            ),
            Some(ReplyView::Failed(Failure::NotFound)) => StepView::Finish(Ok(None)),
            Some(ReplyView::Failed(failure)) => StepView::Finish(Err(failure.surfaced())),
            _ => StepView::Finish(Err(Error::UnexpectedReply)),
        },
        ActiveStage::Resolving => match reply {
            Some(ReplyView::Target(Some(name))) => StepView::Finish(Ok(Some(name))),
            Some(ReplyView::Target(None)) => StepView::Finish(Err(Error::Io)),
            Some(ReplyView::Failed(Failure::NotFound)) => StepView::Finish(Ok(None)),
            Some(ReplyView::Failed(failure)) => StepView::Finish(Err(failure.surfaced())),
            _ => StepView::Finish(Err(Error::UnexpectedReply)),
        },
    }
}

/// How `is_active` moves: as `get_active` does, ending on whether the
/// active branch is the one named `branch`.
pub open spec fn is_active_step(
    branch: Seq<char>,
    stage: ActiveStage,
    reply: Option<ReplyView>,
) -> StepView<ActiveStage, bool> {
    match get_active_step(stage, reply) {
        StepView::Perform(next, request) => StepView::Perform(next, request),
        StepView::Finish(Ok(active)) => StepView::Finish(Ok(active == Some(branch))),
        StepView::Finish(Err(error)) => StepView::Finish(Err(error)),
    }
}

/// How `unset_active` moves. That the pointer is already gone is success,
/// whichever request finds it out.
pub open spec fn unset_active_step(stage: UnsetStage, reply: Option<ReplyView>) -> StepView<
    UnsetStage,
    (),
> {
    match stage {
        UnsetStage::Start => StepView::Perform(UnsetStage::ReadingLink, RequestView::ReadActiveLink),
        UnsetStage::ReadingLink => if !answers_action(reply) {
            StepView::Finish(Err(Error::UnexpectedReply))
        } else {
            match performed(reply) {
                Ok(_) => StepView::Perform(UnsetStage::Removing, RequestView::RemoveActiveLink),
                Err(Failure::NotFound) => StepView::Finish(Ok(())),
                Err(failure) => StepView::Finish(Err(failure.surfaced())),
            }
        },
        UnsetStage::Removing => if !answers_action(reply) {
            StepView::Finish(Err(Error::UnexpectedReply))
        } else {
            match performed(reply) {
                Ok(_) => StepView::Finish(Ok(())),
                Err(Failure::NotFound) => StepView::Finish(Ok(())),
                Err(failure) => StepView::Finish(Err(failure.surfaced())),
            }
        },
    }
}

/// How `set_active` moves. The old pointer goes before the new one is made;
/// that there was none is no failure. A refusal to create the pointer for
/// want of privilege is reported as such.
pub open spec fn set_active_step(
    branch: Seq<char>,
    stage: ActivateStage,
    reply: Option<ReplyView>,
) -> StepView<ActivateStage, ()> {
    match stage {
        ActivateStage::Start => StepView::Perform(
            ActivateStage::Probing,
            RequestView::ProbeBranch { branch },
        ),
        ActivateStage::Probing => match probed(reply) {
            Ok((_, true)) => StepView::Perform(
                ActivateStage::Unlinking,
                RequestView::RemoveActiveLink,
            ),
            Ok((_, false)) => StepView::Finish(Err(Error::NotInstalled)),
            Err(error) => StepView::Finish(Err(error)),
        },
        ActivateStage::Unlinking => if !answers_action(reply) {
            StepView::Finish(Err(Error::UnexpectedReply))
        } else {
            match performed(reply) {
                Ok(_) | Err(Failure::NotFound) => StepView::Perform(
                    ActivateStage::Linking,
                    RequestView::CreateActiveLink { branch },
                ),
                Err(failure) => StepView::Finish(Err(failure.surfaced())),
            }
        },
        ActivateStage::Linking => if !answers_action(reply) {
            StepView::Finish(Err(Error::UnexpectedReply))
        } else {
            match performed(reply) {
                Ok(_) => StepView::Finish(Ok(())),
                Err(Failure::PermissionDenied) => StepView::Finish(
                    Err(Error::SymlinkPermissionDenied),
                ),
                Err(failure) => StepView::Finish(Err(failure.surfaced())),
            }
        },
    }
}

/// Reads the reply to a request that only acts.
pub fn read_action(reply: Option<Reply>) -> (outcome: Option<Result<(), Failure>>)
    ensures
        outcome is Some == answers_action(reply.deep_view()),
        outcome is Some ==> outcome->0 == performed(reply.deep_view()),
{
    match reply {
        Some(Reply::Done) => Some(Ok(())),
        Some(Reply::Failed(failure)) => Some(Err(failure)),
        _ => None,
    }
}

/// Turns the names of directory entries into installations.
pub fn installations_of(names: Vec<String>) -> (installations: Vec<DalamudInstallation>)
    ensures
        installations.deep_view() == names.deep_view(),
{
    let mut installations: Vec<DalamudInstallation> = Vec::new();
    let mut i: usize = 0;
    while i < names.len()
        invariant
            i <= names.len(),
            installations.len() == i,
            forall|j: int| 0 <= j < i ==> #[trigger] installations[j]@ == names[j]@,
        decreases names.len() - i,
    {
        installations.push(DalamudInstallation { branch_name: names[i].clone() });
        i = i + 1;
    }
    proof {
        assert forall|j: int| 0 <= j < names.len() implies installations.deep_view()[j]
            == names.deep_view()[j] by {
            assert(installations.deep_view()[j] == installations[j]@);
            assert(names.deep_view()[j] == names[j]@);
        }
        assert(installations.deep_view() =~= names.deep_view());
    }
    installations
}

impl DalamudInstallation {
    /// Whether the branch `branch_name` is installed: true exactly when its
    /// directory exists.
    pub fn is_installed(branch_name: &str, stage: ProbeStage, reply: Option<Reply>) -> (step: Step<
        ProbeStage,
        bool,
    >)
        ensures
            step.deep_view() == is_installed_step(branch_name@, stage, reply.deep_view()),
    {
        match stage {
            ProbeStage::Start => Step::Perform(
                ProbeStage::Probing,
                Request::ProbeBranch { branch: branch_name.to_owned() },
            ),
            ProbeStage::Probing => match read_probe(reply) {
                Ok((_, present)) => Step::Finish(Ok(present)),
                Err(error) => Step::Finish(Err(error)),
            },
        }
    }

    /// The installation of the branch `branch_name`, if it is installed.
    pub fn get(branch_name: &str, stage: ProbeStage, reply: Option<Reply>) -> (step: Step<
        ProbeStage,
        Option<DalamudInstallation>,
    >)
        ensures
            step.deep_view() == get_step(branch_name@, stage, reply.deep_view()),
    {
        match stage {
            ProbeStage::Start => Step::Perform(
                ProbeStage::Probing,
                Request::ProbeBranch { branch: branch_name.to_owned() },
            ),
            ProbeStage::Probing => match read_probe(reply) {
                Ok((_, present)) => {
                    if present {
                        Step::Finish(
                            Ok(Some(DalamudInstallation { branch_name: branch_name.to_owned() })),
                        )
                    } else {
                        Step::Finish(Ok(None))
                    }
                },
                Err(error) => Step::Finish(Err(error)),
            },
        }
    }

    /// Every installed branch, or `None` where there is none.
    pub fn get_all(stage: ListStage, reply: Option<Reply>) -> (step: Step<
        ListStage,
        Option<Vec<DalamudInstallation>>,
    >)
        ensures
            step.deep_view() == get_all_step(stage, reply.deep_view()),
    {
        match stage {
            ListStage::Start => Step::Perform(ListStage::Listing, Request::ListBranches),
            ListStage::Listing => match reply {
                Some(Reply::Entries(Some(names))) => {
                    if names.len() == 0 {
                        Step::Finish(Ok(None))
                    } else {
                        Step::Finish(Ok(Some(installations_of(names))))
                    }
                },
                Some(Reply::Entries(None)) => Step::Finish(Ok(None)),
                Some(Reply::Failed(failure)) => Step::Finish(Err(failure.surface())),
                _ => Step::Finish(Err(Error::UnexpectedReply)),
            },
        }
    }

    /// The active branch, found by following the active pointer.
    pub fn get_active(stage: ActiveStage, reply: Option<Reply>) -> (step: Step<
        ActiveStage,
        Option<DalamudInstallation>,
    >)
        ensures
            step.deep_view() == get_active_step(stage, reply.deep_view()),
    {
        match stage {
            ActiveStage::Start => Step::Perform(ActiveStage::ReadingLink, Request::ReadActiveLink),
            ActiveStage::ReadingLink => match reply {
                Some(Reply::Done) => Step::Perform(
                    ActiveStage::Resolving,
                    Request::ResolveActiveLink,
                ),
                Some(Reply::Failed(Failure::NotFound)) => Step::Finish(Ok(None)),
                Some(Reply::Failed(failure)) => Step::Finish(Err(failure.surface())),
                _ => Step::Finish(Err(Error::UnexpectedReply)),
            },
            ActiveStage::Resolving => match reply {
                Some(Reply::Target(Some(name))) => Step::Finish(
                    Ok(Some(DalamudInstallation { branch_name: name })),
                ),
                Some(Reply::Target(None)) => Step::Finish(Err(Error::Io)),
                Some(Reply::Failed(Failure::NotFound)) => Step::Finish(Ok(None)),
                Some(Reply::Failed(failure)) => Step::Finish(Err(failure.surface())),
                _ => Step::Finish(Err(Error::UnexpectedReply)),
            },
        }
    }

    /// Makes this branch the active one.
    pub fn set_active(&self, stage: ActivateStage, reply: Option<Reply>) -> (step: Step<
        ActivateStage,
        (),
    >)
        ensures
            step.deep_view() == set_active_step(self@, stage, reply.deep_view()),
    {
        match stage {
            ActivateStage::Start => Step::Perform(
                ActivateStage::Probing,
                Request::ProbeBranch { branch: self.branch_name.clone() },
            ),
            ActivateStage::Probing => match read_probe(reply) {
                Ok((_, present)) => {
                    if present {
                        Step::Perform(ActivateStage::Unlinking, Request::RemoveActiveLink)
                    } else {
                        Step::Finish(Err(Error::NotInstalled))
                    }
                },
                Err(error) => Step::Finish(Err(error)),
            },
            ActivateStage::Unlinking => match read_action(reply) {
                None => Step::Finish(Err(Error::UnexpectedReply)),
                Some(Ok(_)) | Some(Err(Failure::NotFound)) => Step::Perform(
                    ActivateStage::Linking,
                    Request::CreateActiveLink { branch: self.branch_name.clone() },
                ),
                Some(Err(failure)) => Step::Finish(Err(failure.surface())),
            },
            ActivateStage::Linking => match read_action(reply) {
                None => Step::Finish(Err(Error::UnexpectedReply)),
                Some(Ok(_)) => Step::Finish(Ok(())),
                Some(Err(Failure::PermissionDenied)) => Step::Finish(
                    Err(Error::SymlinkPermissionDenied),
                ),
                Some(Err(failure)) => Step::Finish(Err(failure.surface())),
            },
        }
    }

    /// Clears the active pointer, if there is one.
    pub fn unset_active(stage: UnsetStage, reply: Option<Reply>) -> (step: Step<UnsetStage, ()>)
        ensures
            step.deep_view() == unset_active_step(stage, reply.deep_view()),
    {
        match stage {
            UnsetStage::Start => Step::Perform(UnsetStage::ReadingLink, Request::ReadActiveLink),
            UnsetStage::ReadingLink => match read_action(reply) {
                None => Step::Finish(Err(Error::UnexpectedReply)),
                Some(Ok(_)) => Step::Perform(UnsetStage::Removing, Request::RemoveActiveLink),
                Some(Err(Failure::NotFound)) => Step::Finish(Ok(())),
                Some(Err(failure)) => Step::Finish(Err(failure.surface())),
            },
            UnsetStage::Removing => match read_action(reply) {
                None => Step::Finish(Err(Error::UnexpectedReply)),
                Some(Ok(_)) => Step::Finish(Ok(())),
                Some(Err(Failure::NotFound)) => Step::Finish(Ok(())),
                Some(Err(failure)) => Step::Finish(Err(failure.surface())),
            },
        }
    }

    /// Whether this branch is the active one.
    pub fn is_active(&self, stage: ActiveStage, reply: Option<Reply>) -> (step: Step<
        ActiveStage,
        bool,
    >)
        ensures
            step.deep_view() == is_active_step(self@, stage, reply.deep_view()),
    {
        match Self::get_active(stage, reply) {
            Step::Perform(next, request) => Step::Perform(next, request),
            Step::Finish(Ok(Some(active))) => Step::Finish(
                Ok(active.branch_name == self.branch_name),
            ),
            Step::Finish(Ok(None)) => Step::Finish(Ok(false)),
            Step::Finish(Err(error)) => Step::Finish(Err(error)),
        }
    }

    /// Where this branch is installed, or `None` if it no longer is.
    pub fn get_location(&self, stage: ProbeStage, reply: Option<Reply>) -> (step: Step<
        ProbeStage,
        Option<String>,
    >)
        ensures
            step.deep_view() == get_location_step(self@, stage, reply.deep_view()),
    {
        match stage {
            ProbeStage::Start => Step::Perform(
                ProbeStage::Probing,
                Request::ProbeBranch { branch: self.branch_name.clone() },
            ),
            ProbeStage::Probing => match read_probe(reply) {
                Ok((location, present)) => {
                    if present {
                        Step::Finish(Ok(Some(location)))
                    } else {
                        Step::Finish(Ok(None))
                    }
                },
                Err(error) => Step::Finish(Err(error)),
            },
        }
    }
}

} // verus!
