//! Listing the installed branches.

use crate::commands::RunnableCommand;
use crate::exchange::{Error, Reply, ReplyView, Step, StepView};
use crate::management::{
    get_all_step, is_active_step, ActiveStage, DalamudInstallation, ListStage,
};
use crate::sources::ReleaseSource;
use vstd::prelude::*;

verus! {

/// List all installed branches of Dalamud.
#[derive(Clone, Copy, Debug)]
pub struct List;

/// One line of the list.
#[derive(Debug, PartialEq, Eq)]
pub struct ListedBranch {
    /// The name of the branch.
    pub name: String,
    /// Whether it is the active one.
    pub active: bool,
}

/// The mathematical content of a [`ListedBranch`].
pub struct ListedBranchView {
    pub name: Seq<char>,
    pub active: bool,
}

impl DeepView for ListedBranch {
    type V = ListedBranchView;

    open spec fn deep_view(&self) -> ListedBranchView {
        ListedBranchView { name: self.name@, active: self.active }
    }
}

/// What the list command reports.
#[derive(Debug, PartialEq, Eq)]
pub enum ListReport {
    /// No branches are installed.
    Nothing,
    /// The installed branches, in the order they were found in.
    Branches(Vec<ListedBranch>),
}

/// The mathematical content of a [`ListReport`].
pub enum ListReportView {
    Nothing,
    Branches(Seq<ListedBranchView>),
}

impl DeepView for ListReport {
    type V = ListReportView;

    open spec fn deep_view(&self) -> ListReportView {
        match self {
            ListReport::Nothing => ListReportView::Nothing,
            ListReport::Branches(branches) => ListReportView::Branches(branches.deep_view()),
        }
    }
}

/// The stages of the list command.
#[derive(Debug, PartialEq, Eq)]
pub enum ListCommandStage {
    Start,
    Listing(ListStage),
    /// The branches `names` have been found; `marks` says of the first of
    /// them whether they are active, and the next one is being asked about.
    Marking { names: Vec<String>, marks: Vec<bool>, stage: ActiveStage },
}

/// The mathematical content of a [`ListCommandStage`].
pub enum ListCommandStageView {
    Start,
    Listing(ListStage),
    Marking { names: Seq<Seq<char>>, marks: Seq<bool>, stage: ActiveStage },
}

impl DeepView for ListCommandStage {
    type V = ListCommandStageView;

    open spec fn deep_view(&self) -> ListCommandStageView {
        match self {
            ListCommandStage::Start => ListCommandStageView::Start,
            ListCommandStage::Listing(stage) => ListCommandStageView::Listing(*stage),
            ListCommandStage::Marking { names, marks, stage } => ListCommandStageView::Marking {
                names: names.deep_view(),
                marks: marks@,
                stage: *stage,
            },
        }
    }
}

/// The list of `names`, each marked as `marks` says; a name without a mark
/// counts as not active.
pub open spec fn listed(names: Seq<Seq<char>>, marks: Seq<bool>) -> Seq<ListedBranchView> {
    Seq::new(
        names.len(),
        |i: int|
            ListedBranchView {
                name: names[i],
                active: if i < marks.len() {
                    marks[i]
                } else {
                    false
                },
            },
    )
}

/// Where the command goes when `marks` has been settled: on to the next
/// name, or to the end if there is none left.
pub open spec fn list_next(names: Seq<Seq<char>>, marks: Seq<bool>) -> StepView<
    ListCommandStageView,
    ListReportView,
> {
    if marks.len() >= names.len() {
        StepView::Finish(Ok(ListReportView::Branches(listed(names, marks))))
    } else {
        match is_active_step(names[marks.len() as int], ActiveStage::Start, None) {
            StepView::Perform(next, request) => StepView::Perform(
                ListCommandStageView::Marking { names, marks, stage: next },
                request,
            ),
            StepView::Finish(_) => StepView::Finish(Err(Error::UnexpectedReply)),
        }
    }
}

/// Where the command goes once `is_active` has moved for the name that is
/// being asked about. A failure to find out counts as not active.
pub open spec fn list_after_mark(
    names: Seq<Seq<char>>,
    marks: Seq<bool>,
    step: StepView<ActiveStage, bool>,
) -> StepView<ListCommandStageView, ListReportView> {
    match step {
        StepView::Perform(next, request) => StepView::Perform(
            ListCommandStageView::Marking { names, marks, stage: next },
            request,
        ),
        StepView::Finish(Ok(active)) => list_next(names, marks.push(active)),
        StepView::Finish(Err(_)) => list_next(names, marks.push(false)),
    }
}

/// Where the command goes once `get_all` has moved.
pub open spec fn list_after_listing(step: StepView<ListStage, Option<Seq<Seq<char>>>>) -> StepView<
    ListCommandStageView,
    ListReportView,
> {
    match step {
        StepView::Perform(next, request) => StepView::Perform(
            ListCommandStageView::Listing(next),
            request,
        ),
        StepView::Finish(Ok(Some(names))) => if names.len() == 0 {
            StepView::Finish(Ok(ListReportView::Nothing))
        } else {
            list_next(names, Seq::<bool>::empty())
        },
        StepView::Finish(Ok(None)) => StepView::Finish(Ok(ListReportView::Nothing)),
        StepView::Finish(Err(error)) => StepView::Finish(Err(error)),
    }
}

/// How the list command moves: it gets all installations, then asks of
/// each in turn whether it is the active one.
pub open spec fn list_run(stage: ListCommandStageView, reply: Option<ReplyView>) -> StepView<
    ListCommandStageView,
    ListReportView,
> {
    match stage {
        ListCommandStageView::Start => list_after_listing(get_all_step(ListStage::Start, None)),
        ListCommandStageView::Listing(inner) => list_after_listing(get_all_step(inner, reply)),
        ListCommandStageView::Marking { names, marks, stage } => if marks.len() >= names.len() {
            list_next(names, marks)
        } else {
            list_after_mark(names, marks, is_active_step(names[marks.len() as int], stage, reply))
        },
    }
}

/// The names of `installations`.
pub fn names_of(installations: Vec<DalamudInstallation>) -> (names: Vec<String>)
    ensures
        names.deep_view() == installations.deep_view(),
{
    let mut names: Vec<String> = Vec::new();
    let mut i: usize = 0;
    while i < installations.len()
        invariant
            i <= installations.len(),
            names.len() == i,
            forall|j: int| 0 <= j < i ==> #[trigger] names[j]@ == installations[j]@,
        decreases installations.len() - i,
    {
        names.push(installations[i].branch_name.clone());
        i = i + 1;
    }
    proof {
        assert forall|j: int| 0 <= j < names.len() implies names.deep_view()[j]
            == installations.deep_view()[j] by {
            assert(names.deep_view()[j] == names[j]@);
            assert(installations.deep_view()[j] == installations[j]@);
        }
        assert(names.deep_view() =~= installations.deep_view());
    }
    names
}

/// Computes [`listed`].
pub fn mark(names: Vec<String>, marks: Vec<bool>) -> (branches: Vec<ListedBranch>)
    ensures
        branches.deep_view() == listed(names.deep_view(), marks@),
{
    let mut branches: Vec<ListedBranch> = Vec::new();
    let mut i: usize = 0;
    while i < names.len()
        invariant
            i <= names.len(),
            branches.len() == i,
            forall|j: int|
                0 <= j < i ==> (#[trigger] branches[j]).deep_view() == listed(
                    names.deep_view(),
                    marks@,
                )[j],
        decreases names.len() - i,
    {
        let active = if i < marks.len() {
            marks[i]
        } else {
            false
        };
        proof {
            assert(names.deep_view()[i as int] == names[i as int]@);
        }
        branches.push(ListedBranch { name: names[i].clone(), active });
        i = i + 1;
    }
    proof {
        assert forall|j: int| 0 <= j < branches.len() implies branches.deep_view()[j] == listed(
            names.deep_view(),
            marks@,
        )[j] by {
            assert(branches.deep_view()[j] == branches[j].deep_view());
        }
        assert(branches.deep_view() =~= listed(names.deep_view(), marks@));
    }
    branches
}

impl List {
    /// Computes [`list_next`].
    fn next(names: Vec<String>, marks: Vec<bool>) -> (step: Step<ListCommandStage, ListReport>)
        ensures
            step.deep_view() == list_next(names.deep_view(), marks@),
    {
        if marks.len() >= names.len() {
            Step::Finish(Ok(ListReport::Branches(mark(names, marks))))
        } else {
            proof {
                assert(names.deep_view()[marks.len() as int] == names[marks.len() as int]@);
            }
            let installation = DalamudInstallation { branch_name: names[marks.len()].clone() };
            match installation.is_active(ActiveStage::Start, None) {
                Step::Perform(stage, request) => Step::Perform(
                    ListCommandStage::Marking { names, marks, stage },
                    request,
                ),
                Step::Finish(_) => Step::Finish(Err(Error::UnexpectedReply)),
            }
        }
    }

    /// Computes [`list_after_mark`].
    fn after_mark(names: Vec<String>, marks: Vec<bool>, step: Step<ActiveStage, bool>) -> (next:
        Step<ListCommandStage, ListReport>)
        ensures
            next.deep_view() == list_after_mark(names.deep_view(), marks@, step.deep_view()),
    {
        let mut marks = marks;
        match step {
            Step::Perform(stage, request) => Step::Perform(
                ListCommandStage::Marking { names, marks, stage },
                request,
            ),
            Step::Finish(Ok(active)) => {
                marks.push(active);
                Self::next(names, marks)
            },
            Step::Finish(Err(_)) => {
                marks.push(false);
                Self::next(names, marks)
            },
        }
    }

    /// Computes [`list_after_listing`].
    fn after_listing(step: Step<ListStage, Option<Vec<DalamudInstallation>>>) -> (next: Step<
        ListCommandStage,
        ListReport,
    >)
        ensures
            next.deep_view() == list_after_listing(step.deep_view()),
    {
        match step {
            Step::Perform(stage, request) => Step::Perform(
                ListCommandStage::Listing(stage),
                request,
            ),
            Step::Finish(Ok(Some(installations))) => {
                if installations.len() == 0 {
                    Step::Finish(Ok(ListReport::Nothing))
                } else {
                    Self::next(names_of(installations), Vec::new())
                }
            },
            Step::Finish(Ok(None)) => Step::Finish(Ok(ListReport::Nothing)),
            Step::Finish(Err(error)) => Step::Finish(Err(error)),
        }
    }
}

impl RunnableCommand for List {
    type Stage = ListCommandStage;

    type Report = ListReport;

    fn begin(&self) -> (stage: ListCommandStage)
        ensures
            stage.deep_view() == ListCommandStageView::Start,
    {
        ListCommandStage::Start
    }

    fn run<RS: ReleaseSource>(
        &self,
        release_source: &RS,
        stage: ListCommandStage,
        reply: Option<Reply>,
    ) -> (step: Step<ListCommandStage, ListReport>)
        ensures
            step.deep_view() == list_run(stage.deep_view(), reply.deep_view()),
    {
        match stage {
            ListCommandStage::Start => Self::after_listing(
                DalamudInstallation::get_all(ListStage::Start, None),
            ),
            ListCommandStage::Listing(inner) => Self::after_listing(
                DalamudInstallation::get_all(inner, reply),
            ),
            ListCommandStage::Marking { names, marks, stage } => {
                if marks.len() >= names.len() {
                    Self::next(names, marks)
                } else {
                    proof {
                        assert(names.deep_view()[marks.len() as int] == names[marks.len() as int]@);
                    }
                    let installation = DalamudInstallation {
                        branch_name: names[marks.len()].clone(),
                    };
                    let step = installation.is_active(stage, reply);
                    Self::after_mark(names, marks, step)
                }
            },
        }
    }
}

} // verus!
