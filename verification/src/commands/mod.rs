//! The commands of the manager: what each one asks for, in which order, and
//! what it reports in the end.
//!
//! A command reports; it does not print. How a report is worded and shown
//! is left to the caller.

use crate::exchange::{Reply, Step};
use crate::sources::ReleaseSource;
use vstd::prelude::*;

pub mod active;
pub mod current;
pub mod info;
pub mod install;
pub mod list;
pub mod remove;
pub mod select;
pub mod symlink_path;
pub mod update;
pub mod update_all;
pub mod versions;

pub use active::{Active, OutputFormat};
pub use current::Current;
pub use info::Info;
pub use install::Install;
pub use list::List;
pub use remove::Remove;
pub use select::Use;
pub use symlink_path::SymlinkPath;
pub use update::Update;
pub use update_all::UpdateAll;

verus! {

/// A command that can be run, one move at a time.
pub trait RunnableCommand {
    /// Where a run of the command stands.
    type Stage: DeepView;

    /// What the command reports when it is over.
    type Report: DeepView;

    /// The stage a run begins in.
    fn begin(&self) -> Self::Stage;

    /// The next move of a run that is in `stage` and has just been given
    /// `reply`; a run begins in [`RunnableCommand::begin`] with no reply.
    fn run<RS: ReleaseSource>(
        &self,
        release_source: &RS,
        stage: Self::Stage,
        reply: Option<Reply>,
    ) -> Step<Self::Stage, Self::Report>;
}

} // verus!
