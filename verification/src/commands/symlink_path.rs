//! Reporting where the active pointer lives.

use crate::commands::RunnableCommand;
use crate::exchange::{Error, Reply, ReplyView, Request, RequestView, Step, StepView};
use crate::sources::ReleaseSource;
use vstd::prelude::*;

verus! {

/// Get the path to the symlink that always points to the active branch.
#[derive(Clone, Copy, Debug)]
pub struct SymlinkPath;

/// The stages of the symlink-path command.
#[derive(Clone, Copy, Debug, PartialEq, Eq, Structural)]
pub enum SymlinkPathStage {
    Start,
    Locating,
}

impl DeepView for SymlinkPathStage {
    type V = SymlinkPathStage;

    open spec fn deep_view(&self) -> SymlinkPathStage {
        *self
    }
}

/// How the symlink-path command moves: it asks once, and reports the path
/// it is told.
pub open spec fn symlink_path_run(stage: SymlinkPathStage, reply: Option<ReplyView>) -> StepView<
    SymlinkPathStage,
    Seq<char>,
> {
    match stage {
        SymlinkPathStage::Start => StepView::Perform(
            SymlinkPathStage::Locating,
            RequestView::LocateActiveLink,
        ),
        SymlinkPathStage::Locating => match reply {
            Some(ReplyView::Location(path)) => StepView::Finish(Ok(path)),
            Some(ReplyView::Failed(failure)) => StepView::Finish(Err(failure.surfaced())),
            _ => StepView::Finish(Err(Error::UnexpectedReply)),
        },
    }
}

impl RunnableCommand for SymlinkPath {
    type Stage = SymlinkPathStage;

    type Report = String;

    fn begin(&self) -> (stage: SymlinkPathStage)
        ensures
            stage == SymlinkPathStage::Start,
    {
        SymlinkPathStage::Start
    }

    fn run<RS: ReleaseSource>(
        &self,
        release_source: &RS,
        stage: SymlinkPathStage,
        reply: Option<Reply>,
    ) -> (step: Step<SymlinkPathStage, String>)
        ensures
            step.deep_view() == symlink_path_run(stage, reply.deep_view()),
    {
        match stage {
            SymlinkPathStage::Start => Step::Perform(
                SymlinkPathStage::Locating,
                Request::LocateActiveLink,
            ),
            SymlinkPathStage::Locating => match reply {
                Some(Reply::Location(path)) => Step::Finish(Ok(path)),
                Some(Reply::Failed(failure)) => Step::Finish(Err(failure.surface())),
                _ => Step::Finish(Err(Error::UnexpectedReply)),
            },
        }
    }
}

} // verus!
