//! The commands that manage versions by name alone, through the
//! [`DalamudVersionManager`].

use crate::commands::list::{ListedBranch, ListedBranchView};
use crate::commands::RunnableCommand;
use crate::exchange::{Error, Reply, ReplyView, Step, StepView};
use crate::management::{is_installed_step, ListStage, ProbeStage};
use crate::sources::ReleaseSource;
use crate::text::same;
use crate::version_manager::{
    get_all_installed_step, get_current_step, set_current_step, version_create_step,
    version_remove_step, CurrentStage, DalamudVersionManager, SetCurrentStage, VersionCreateStage,
    VersionRemoveStage,
};
use vstd::prelude::*;

verus! {

/// Install a new version of Dalamud from the specified branch.
#[derive(Debug)]
pub struct Install {
    /// The branch to install from.
    pub branch: String,
    /// Whether to replace an existing installation if it exists.
    pub replace: bool,
}

/// List all installed versions of Dalamud.
#[derive(Clone, Copy, Debug)]
pub struct List {}

/// Remove a Dalamud version from this system.
#[derive(Debug)]
pub struct Remove {
    /// The branch to remove.
    pub branch: String,
}

/// Update an existing Dalamud branch installation to the latest version.
#[derive(Debug)]
pub struct Update {
    /// The branch to install from.
    pub branch: String,
}

/// Switch to a different Dalamud version.
#[derive(Debug)]
pub struct Use {
    /// The branch to use.
    pub branch: String,
}

/// How a command on one version ended.
#[derive(Clone, Copy, Debug, PartialEq, Eq, Structural)]
pub enum Outcome {
    /// The version is not installed; it can be installed first.
    NotInstalled,
    /// What was asked for has been done. For an installation the flag says
    /// whether version information was stored with it.
    Done(bool),
    /// What was asked for failed.
    Failed(Error),
}

impl DeepView for Outcome {
    type V = Outcome;

    open spec fn deep_view(&self) -> Outcome {
        *self
    }
}

/// The stages of a command that requires a version to be installed before
/// it runs a procedure in stage `S` on it.
#[derive(Clone, Copy, Debug, PartialEq, Eq, Structural)]
pub enum Guarded<S> {
    Start,
    Checking(ProbeStage),
    Running(S),
}

impl<S> DeepView for Guarded<S> {
    type V = Guarded<S>;

    open spec fn deep_view(&self) -> Guarded<S> {
        *self
    }
}

/// The stages of the list command.
#[derive(Debug, PartialEq, Eq)]
pub enum VersionListStage {
    Start,
    Listing(ListStage),
    Finding(Vec<String>, CurrentStage),
}

/// The mathematical content of a [`VersionListStage`].
pub enum VersionListStageView {
    Start,
    Listing(ListStage),
    Finding(Seq<Seq<char>>, CurrentStage),
}

impl DeepView for VersionListStage {
    type V = VersionListStageView;

    open spec fn deep_view(&self) -> VersionListStageView {
        match self {
            VersionListStage::Start => VersionListStageView::Start,
            VersionListStage::Listing(stage) => VersionListStageView::Listing(*stage),
            VersionListStage::Finding(names, stage) => VersionListStageView::Finding(
                names.deep_view(),
                *stage,
            ),
        }
    }
}

/// What the list command reports.
#[derive(Debug, PartialEq, Eq)]
pub enum VersionList {
    /// No versions are installed.
    Nothing,
    /// The installed versions in ascending order, the current one marked.
    Versions(Vec<ListedBranch>),
}

/// The mathematical content of a [`VersionList`].
pub enum VersionListView {
    Nothing,
    Versions(Seq<ListedBranchView>),
}

impl DeepView for VersionList {
    type V = VersionListView;

    open spec fn deep_view(&self) -> VersionListView {
        match self {
            VersionList::Nothing => VersionListView::Nothing,
            VersionList::Versions(versions) => VersionListView::Versions(versions.deep_view()),
        }
    }
}

/// The procedure's outcome as the command reports it.
pub open spec fn reported<S, T>(step: StepView<S, T>, done: spec_fn(T) -> bool) -> StepView<S, Outcome> {
    match step {
        StepView::Perform(next, request) => StepView::Perform(next, request),
        StepView::Finish(Ok(value)) => StepView::Finish(Ok(Outcome::Done(done(value)))),
        StepView::Finish(Err(error)) => StepView::Finish(Ok(Outcome::Failed(error))),
    }
}

/// A guarded procedure's outcome as the command reports it.
pub open spec fn guarded<S, T>(step: StepView<S, T>, done: spec_fn(T) -> bool) -> StepView<
    Guarded<S>,
    Outcome,
> {
    match step {
        StepView::Perform(next, request) => StepView::Perform(Guarded::Running(next), request),
        StepView::Finish(Ok(value)) => StepView::Finish(Ok(Outcome::Done(done(value)))),
        StepView::Finish(Err(error)) => StepView::Finish(Ok(Outcome::Failed(error))),
    }
}

/// Where a guarded command goes once `is_installed` has moved, `first`
/// being the first move of the procedure it guards.
pub open spec fn after_guard<S>(step: StepView<ProbeStage, bool>, first: StepView<Guarded<S>, Outcome>) -> StepView<
    Guarded<S>,
    Outcome,
> {
    match step {
        StepView::Perform(next, request) => StepView::Perform(Guarded::Checking(next), request),
        StepView::Finish(Ok(true)) => first,
        StepView::Finish(Ok(false)) => StepView::Finish(Ok(Outcome::NotInstalled)),
        StepView::Finish(Err(error)) => StepView::Finish(Err(error)),
    }
}

/// How the install command moves: as `create` does, reporting its failure
/// rather than failing.
pub open spec fn install_version_run(
    branch: Seq<char>,
    replace: bool,
    stage: VersionCreateStage,
    reply: Option<ReplyView>,
) -> StepView<VersionCreateStage, Outcome> {
    reported(version_create_step(branch, replace, stage, reply), |recorded: bool| recorded)
}

/// How the remove command moves: as `remove` does, reporting its failure
/// rather than failing.
pub open spec fn remove_version_run(
    branch: Seq<char>,
    stage: VersionRemoveStage,
    reply: Option<ReplyView>,
) -> StepView<VersionRemoveStage, Outcome> {
    reported(version_remove_step(branch, stage, reply), |done: ()| true)
}

/// How the update command moves: it requires the version to be installed,
/// and then installs it anew in place of what is there.
pub open spec fn update_version_run(
    branch: Seq<char>,
    stage: Guarded<VersionCreateStage>,
    reply: Option<ReplyView>,
) -> StepView<Guarded<VersionCreateStage>, Outcome> {
    let recorded = |recorded: bool| recorded;
    match stage {
        Guarded::Start => after_guard(
            is_installed_step(branch, ProbeStage::Start, None),
            guarded(version_create_step(branch, true, VersionCreateStage::Start, None), recorded),
        ),
        Guarded::Checking(inner) => after_guard(
            is_installed_step(branch, inner, reply),
            guarded(version_create_step(branch, true, VersionCreateStage::Start, None), recorded),
        ),
        Guarded::Running(inner) => guarded(
            version_create_step(branch, true, inner, reply),
            recorded,
        ),
    }
}

/// How the use command moves: it requires the version to be installed, and
/// then makes it the current one.
pub open spec fn use_version_run(
    branch: Seq<char>,
    stage: Guarded<SetCurrentStage>,
    reply: Option<ReplyView>,
) -> StepView<Guarded<SetCurrentStage>, Outcome> {
    let done = |done: ()| true;
    match stage {
        Guarded::Start => after_guard(
            is_installed_step(branch, ProbeStage::Start, None),
            guarded(set_current_step(branch, SetCurrentStage::Start, None), done),
        ),
        Guarded::Checking(inner) => after_guard(
            is_installed_step(branch, inner, reply),
            guarded(set_current_step(branch, SetCurrentStage::Start, None), done),
        ),
        Guarded::Running(inner) => guarded(set_current_step(branch, inner, reply), done),
    }
}

/// The list of `names`, the one that is `current` marked.
pub open spec fn marked(names: Seq<Seq<char>>, current: Option<Seq<char>>) -> Seq<ListedBranchView> {
    Seq::new(
        names.len(),
        |i: int| ListedBranchView { name: names[i], active: current == Some(names[i]) },
    )
}

/// Where the list command goes once `get_current` has moved.
pub open spec fn version_list_after_finding(
    names: Seq<Seq<char>>,
    step: StepView<CurrentStage, Option<Seq<char>>>,
) -> StepView<VersionListStageView, VersionListView> {
    match step {
        StepView::Perform(next, request) => StepView::Perform(
            VersionListStageView::Finding(names, next),
            request,
        ),
        StepView::Finish(Ok(current)) => StepView::Finish(
            Ok(VersionListView::Versions(marked(names, current))),
        ),
        StepView::Finish(Err(error)) => StepView::Finish(Err(error)),
    }
}

/// Where the list command goes once `get_all_installed` has moved.
pub open spec fn version_list_after_listing(step: StepView<ListStage, Seq<Seq<char>>>) -> StepView<
    VersionListStageView,
    VersionListView,
> {
    match step {
        StepView::Perform(next, request) => StepView::Perform(
            VersionListStageView::Listing(next),
            request,
        ),
        StepView::Finish(Ok(names)) => if names.len() == 0 {
            StepView::Finish(Ok(VersionListView::Nothing))
        } else {
            version_list_after_finding(names, get_current_step(CurrentStage::Start, None))
        },
        StepView::Finish(Err(error)) => StepView::Finish(Err(error)),
    }
}

/// How the list command moves: it lists the installed versions, and if
/// there are any, finds the current one to mark it.
pub open spec fn version_list_run(stage: VersionListStageView, reply: Option<ReplyView>) -> StepView<
    VersionListStageView,
    VersionListView,
> {
    match stage {
        VersionListStageView::Start => version_list_after_listing(
            get_all_installed_step(ListStage::Start, None),
        ),
        VersionListStageView::Listing(inner) => version_list_after_listing(
            get_all_installed_step(inner, reply),
        ),
        VersionListStageView::Finding(names, inner) => version_list_after_finding(
            names,
            get_current_step(inner, reply),
        ),
    }
}

/// Computes [`guarded`] for a procedure that yields whether version
/// information was stored.
fn guard_create(step: Step<VersionCreateStage, bool>) -> (next: Step<
    Guarded<VersionCreateStage>,
    Outcome,
>)
    ensures
        next.deep_view() == guarded(step.deep_view(), |recorded: bool| recorded),
{
    match step {
        Step::Perform(stage, request) => Step::Perform(Guarded::Running(stage), request),
        Step::Finish(Ok(recorded)) => Step::Finish(Ok(Outcome::Done(recorded))),
        Step::Finish(Err(error)) => Step::Finish(Ok(Outcome::Failed(error))),
    }
}

/// Computes [`guarded`] for a procedure that yields nothing.
fn guard_set(step: Step<SetCurrentStage, ()>) -> (next: Step<Guarded<SetCurrentStage>, Outcome>)
    ensures
        next.deep_view() == guarded(step.deep_view(), |done: ()| true),
{
    match step {
        Step::Perform(stage, request) => Step::Perform(Guarded::Running(stage), request),
        Step::Finish(Ok(_)) => Step::Finish(Ok(Outcome::Done(true))),
        Step::Finish(Err(error)) => Step::Finish(Ok(Outcome::Failed(error))),
    }
}

/// Computes [`after_guard`].
fn pass_guard<S>(step: Step<ProbeStage, bool>, first: Step<Guarded<S>, Outcome>) -> (next: Step<
    Guarded<S>,
    Outcome,
>)
    ensures
        next.deep_view() == after_guard(step.deep_view(), first.deep_view()),
{
    match step {
        Step::Perform(stage, request) => Step::Perform(Guarded::Checking(stage), request),
        Step::Finish(Ok(present)) => {
            if present {
                first
            } else {
                Step::Finish(Ok(Outcome::NotInstalled))
            }
        },
        Step::Finish(Err(error)) => Step::Finish(Err(error)),
    }
}

/// Computes [`marked`].
pub fn mark_current(names: Vec<String>, current: Option<String>) -> (versions: Vec<ListedBranch>)
    ensures
        versions.deep_view() == marked(names.deep_view(), current.deep_view()),
{
    let mut versions: Vec<ListedBranch> = Vec::new();
    let mut i: usize = 0;
    while i < names.len()
        invariant
            i <= names.len(),
            versions.len() == i,
            forall|j: int|
                0 <= j < i ==> (#[trigger] versions[j]).deep_view() == marked(
                    names.deep_view(),
                    current.deep_view(),
                )[j],
        decreases names.len() - i,
    {
        let active = match &current {
            Some(name) => same(name.as_str(), names[i].as_str()),
            None => false,
        };
        proof {
            assert(names.deep_view()[i as int] == names[i as int]@);
        }
        versions.push(ListedBranch { name: names[i].clone(), active });
        i = i + 1;
    }
    proof {
        assert forall|j: int| 0 <= j < versions.len() implies versions.deep_view()[j] == marked(
            names.deep_view(),
            current.deep_view(),
        )[j] by {
            assert(versions.deep_view()[j] == versions[j].deep_view());
        }
        assert(versions.deep_view() =~= marked(names.deep_view(), current.deep_view()));
    }
    versions
}

impl RunnableCommand for Install {
    type Stage = VersionCreateStage;

    type Report = Outcome;

    fn begin(&self) -> (stage: VersionCreateStage)
        ensures
            stage == VersionCreateStage::Start,
    {
        VersionCreateStage::Start
    }

    fn run<RS: ReleaseSource>(
        &self,
        release_source: &RS,
        stage: VersionCreateStage,
        reply: Option<Reply>,
    ) -> (step: Step<VersionCreateStage, Outcome>)
        ensures
            step.deep_view() == install_version_run(
                self.branch@,
                self.replace,
                stage,
                reply.deep_view(),
            ),
    {
        match DalamudVersionManager::create(self.branch.as_str(), self.replace, stage, reply) {
            Step::Perform(next, request) => Step::Perform(next, request),
            Step::Finish(Ok(recorded)) => Step::Finish(Ok(Outcome::Done(recorded))),
            Step::Finish(Err(error)) => Step::Finish(Ok(Outcome::Failed(error))),
        }
    }
}

impl RunnableCommand for Remove {
    type Stage = VersionRemoveStage;

    type Report = Outcome;

    fn begin(&self) -> (stage: VersionRemoveStage)
        ensures
            stage == VersionRemoveStage::Start,
    {
        VersionRemoveStage::Start
    }

    fn run<RS: ReleaseSource>(
        &self,
        release_source: &RS,
        stage: VersionRemoveStage,
        reply: Option<Reply>,
    ) -> (step: Step<VersionRemoveStage, Outcome>)
        ensures
            step.deep_view() == remove_version_run(self.branch@, stage, reply.deep_view()),
    {
        match DalamudVersionManager::remove(self.branch.as_str(), stage, reply) {
            Step::Perform(next, request) => Step::Perform(next, request),
            Step::Finish(Ok(_)) => Step::Finish(Ok(Outcome::Done(true))),
            Step::Finish(Err(error)) => Step::Finish(Ok(Outcome::Failed(error))),
        }
    }
}

impl RunnableCommand for Update {
    type Stage = Guarded<VersionCreateStage>;

    type Report = Outcome;

    fn begin(&self) -> (stage: Guarded<VersionCreateStage>)
        ensures
            stage == Guarded::<VersionCreateStage>::Start,
    {
        Guarded::Start
    }

    fn run<RS: ReleaseSource>(
        &self,
        release_source: &RS,
        stage: Guarded<VersionCreateStage>,
        reply: Option<Reply>,
    ) -> (step: Step<Guarded<VersionCreateStage>, Outcome>)
        ensures
            step.deep_view() == update_version_run(self.branch@, stage, reply.deep_view()),
    {
        let branch = self.branch.as_str();
        match stage {
            Guarded::Start => pass_guard(
                DalamudVersionManager::is_installed(branch, ProbeStage::Start, None),
                guard_create(
                    DalamudVersionManager::create(branch, true, VersionCreateStage::Start, None),
                ),
            ),
            Guarded::Checking(inner) => pass_guard(
                DalamudVersionManager::is_installed(branch, inner, reply),
                guard_create(
                    DalamudVersionManager::create(branch, true, VersionCreateStage::Start, None),
                ),
            ),
            Guarded::Running(inner) => guard_create(
                DalamudVersionManager::create(branch, true, inner, reply),
            ),
        }
    }
}

impl RunnableCommand for Use {
    type Stage = Guarded<SetCurrentStage>;

    type Report = Outcome;

    fn begin(&self) -> (stage: Guarded<SetCurrentStage>)
        ensures
            stage == Guarded::<SetCurrentStage>::Start,
    {
        Guarded::Start
    }

    fn run<RS: ReleaseSource>(
        &self,
        release_source: &RS,
        stage: Guarded<SetCurrentStage>,
        reply: Option<Reply>,
    ) -> (step: Step<Guarded<SetCurrentStage>, Outcome>)
        ensures
            step.deep_view() == use_version_run(self.branch@, stage, reply.deep_view()),
    {
        let branch = self.branch.as_str();
        match stage {
            Guarded::Start => pass_guard(
                DalamudVersionManager::is_installed(branch, ProbeStage::Start, None),
                guard_set(DalamudVersionManager::set_current(branch, SetCurrentStage::Start, None)),
            ),
            Guarded::Checking(inner) => pass_guard(
                DalamudVersionManager::is_installed(branch, inner, reply),
                guard_set(DalamudVersionManager::set_current(branch, SetCurrentStage::Start, None)),
            ),
            Guarded::Running(inner) => guard_set(
                DalamudVersionManager::set_current(branch, inner, reply),
            ),
        }
    }
}

impl List {
    /// Computes [`version_list_after_finding`].
    fn after_finding(names: Vec<String>, step: Step<CurrentStage, Option<String>>) -> (next: Step<
        VersionListStage,
        VersionList,
    >)
        ensures
            next.deep_view() == version_list_after_finding(names.deep_view(), step.deep_view()),
    {
        match step {
            Step::Perform(stage, request) => Step::Perform(
                VersionListStage::Finding(names, stage),
                request,
            ),
            Step::Finish(Ok(current)) => Step::Finish(
                Ok(VersionList::Versions(mark_current(names, current))),
            ),
            Step::Finish(Err(error)) => Step::Finish(Err(error)),
        }
    }

    /// Computes [`version_list_after_listing`].
    fn after_listing(step: Step<ListStage, Vec<String>>) -> (next: Step<
        VersionListStage,
        VersionList,
    >)
        ensures
            next.deep_view() == version_list_after_listing(step.deep_view()),
    {
        match step {
            Step::Perform(stage, request) => Step::Perform(
                VersionListStage::Listing(stage),
                request,
            ),
            Step::Finish(Ok(names)) => {
                if names.len() == 0 {
                    Step::Finish(Ok(VersionList::Nothing))
                } else {
                    Self::after_finding(
                        names,
                        DalamudVersionManager::get_current(CurrentStage::Start, None),
                    )
                }
            },
            Step::Finish(Err(error)) => Step::Finish(Err(error)),
        }
    }
}

impl RunnableCommand for List {
    type Stage = VersionListStage;

    type Report = VersionList;

    fn begin(&self) -> (stage: VersionListStage)
        ensures
            stage.deep_view() == VersionListStageView::Start,
    {
        VersionListStage::Start
    }

    fn run<RS: ReleaseSource>(
        &self,
        release_source: &RS,
        stage: VersionListStage,
        reply: Option<Reply>,
    ) -> (step: Step<VersionListStage, VersionList>)
        ensures
            step.deep_view() == version_list_run(stage.deep_view(), reply.deep_view()),
    {
        match stage {
            VersionListStage::Start => Self::after_listing(
                DalamudVersionManager::get_all_installed(ListStage::Start, None),
            ),
            VersionListStage::Listing(inner) => Self::after_listing(
                DalamudVersionManager::get_all_installed(inner, reply),
            ),
            VersionListStage::Finding(names, inner) => Self::after_finding(
                names,
                DalamudVersionManager::get_current(inner, reply),
            ),
        }
    }
}

} // verus!
