//! A model of what the library's requests act on, and of what it means for
//! a procedure to run against it.
//!
//! Nothing here is executed. The model says what a caller that performs
//! every request faithfully, on storage that does not fail on its own,
//! reports back and leaves behind; the laws of the library are stated over
//! it.

use crate::exchange::{Error, Failure, ReplyView, RequestView, StepView};
use crate::version_info::VersionInfoView;
use vstd::prelude::*;

verus! {

/// The directory of an installed branch.
pub struct Folder {
    /// The archive whose contents were unpacked into it.
    pub archive: Seq<u8>,
    /// The text of its version-information file, if it has one.
    pub version_file: Option<Seq<char>>,
}

/// Storage and the release host, as far as the library's requests can tell.
pub struct World {
    /// The installed branches, by name.
    pub branches: Map<Seq<char>, Folder>,
    /// The branch whose directory the active pointer points at, if the
    /// pointer exists. The directory itself may be gone.
    pub pointer: Option<Seq<char>>,
    /// The archive that has been downloaded and not yet given up.
    pub staged: Option<Seq<u8>>,
    /// The archives that the release host serves, by URL.
    pub archives: Map<Seq<char>, Seq<u8>>,
    /// The texts that the release host serves, by URL.
    pub texts: Map<Seq<char>, Seq<char>>,
    /// Where the directory of each branch lives.
    pub place: spec_fn(Seq<char>) -> Seq<char>,
    /// Where the active pointer lives.
    pub pointer_place: Seq<char>,
    /// How the caller decodes version information.
    pub decoder: spec_fn(Seq<char>) -> Option<VersionInfoView>,
}

impl World {
    /// Whether `branch` is installed.
    pub open spec fn installed(self, branch: Seq<char>) -> bool {
        self.branches.dom().contains(branch)
    }

    /// The active branch: the one the pointer points at, provided its
    /// directory exists.
    pub open spec fn active(self) -> Option<Seq<char>> {
        match self.pointer {
            Some(branch) => if self.installed(branch) {
                Some(branch)
            } else {
                None
            },
            None => None,
        }
    }

    /// This world with the active pointer set to `pointer`.
    pub open spec fn with_pointer(self, pointer: Option<Seq<char>>) -> World {
        World { pointer, ..self }
    }

    /// This world with the directories `branches`.
    pub open spec fn with_branches(self, branches: Map<Seq<char>, Folder>) -> World {
        World { branches, ..self }
    }

    /// This world with `staged` as the downloaded archive.
    pub open spec fn with_staged(self, staged: Option<Seq<u8>>) -> World {
        World { staged, ..self }
    }

    /// Whether the names `names` are the installed branches, each once.
    pub open spec fn lists(self, names: Seq<Seq<char>>) -> bool {
        names.no_duplicates() && names.to_set() == self.branches.dom()
    }
}

/// Whether performing `request` in the world `before` may be answered by
/// `reply`, leaving the world `after`.
pub open spec fn answers(before: World, request: RequestView, reply: ReplyView, after: World) -> bool {
    match request {
        RequestView::ProbeBranch { branch } => {
            &&& reply == ReplyView::Branch {
                location: (before.place)(branch),
                present: before.installed(branch),
            }
            &&& after == before
        },
        RequestView::ListBranches => {
            &&& after == before
            &&& match reply {
                ReplyView::Entries(Some(names)) => before.lists(names),
                ReplyView::Entries(None) => before.branches.dom() == Set::<Seq<char>>::empty(),
                _ => false,
            }
        },
        RequestView::ReadActiveLink => {
            &&& after == before
            &&& reply == if before.pointer is Some {
                ReplyView::Done
            } else {
                ReplyView::Failed(Failure::NotFound)
            }
        },
        RequestView::ResolveActiveLink => {
            &&& after == before
            &&& reply == match before.active() {
                Some(branch) => ReplyView::Target(Some(branch)),
                None => ReplyView::Failed(Failure::NotFound),
            }
        },
        RequestView::RemoveActiveLink => if before.pointer is Some {
            reply == ReplyView::Done && after == before.with_pointer(None)
        } else {
            reply == ReplyView::Failed(Failure::NotFound) && after == before
        },
        RequestView::CreateActiveLink { branch } => if before.pointer is None {
            reply == ReplyView::Done && after == before.with_pointer(Some(branch))
        } else {
            reply == ReplyView::Failed(Failure::Other) && after == before
        },
        RequestView::LocateActiveLink => {
            reply == ReplyView::Location(before.pointer_place) && after == before
        },
        RequestView::DownloadArchive { url } => if before.archives.dom().contains(url) {
            reply == ReplyView::Done && after == before.with_staged(Some(before.archives[url]))
        } else {
            reply == ReplyView::Failed(Failure::Network) && after == before
        },
        RequestView::RemoveBranch { branch } => if before.installed(branch) {
            reply == ReplyView::Done && after == before.with_branches(
                before.branches.remove(branch),
            )
        } else {
            reply == ReplyView::Failed(Failure::NotFound) && after == before
        },
        RequestView::ExtractArchive { branch } => match before.staged {
            Some(archive) => {
                &&& reply == ReplyView::Done
                &&& after == before.with_branches(
                    before.branches.insert(
                        branch,
                        Folder {
                            archive,
                            version_file: if before.installed(branch) {
                                before.branches[branch].version_file
                            } else {
                                None
                            },
                        },
                    ),
                )
            },
            None => reply == ReplyView::Failed(Failure::NotFound) && after == before,
        },
        RequestView::DiscardArchive => {
            reply == ReplyView::Done && after == before.with_staged(None)
        },
        RequestView::DownloadVersionInfo { url, branch } => if !before.texts.dom().contains(url) {
            reply == ReplyView::Failed(Failure::Network) && after == before
        } else if !before.installed(branch) {
            reply == ReplyView::Failed(Failure::NotFound) && after == before
        } else {
            &&& reply == ReplyView::Done
            &&& after == before.with_branches(
                before.branches.insert(
                    branch,
                    Folder {
                        archive: before.branches[branch].archive,
                        version_file: Some(before.texts[url]),
                    },
                ),
            )
        },
        RequestView::ReadVersionInfo { branch } => {
            &&& after == before
            &&& reply == ReplyView::Text(
                if before.installed(branch) {
                    before.branches[branch].version_file
                } else {
                    None
                },
            )
        },
        RequestView::FetchText { url } => {
            &&& after == before
            &&& reply == if before.texts.dom().contains(url) {
                ReplyView::Text(Some(before.texts[url]))
            } else {
                ReplyView::Failed(Failure::Network)
            }
        },
        RequestView::DecodeVersionInfo { text } => {
            reply == ReplyView::Decoded((before.decoder)(text)) && after == before
        },
    }
}

/// Whether the procedure `procedure`, about to make the move `step` in the
/// world `start`, can end with `outcome` in the world `end` within `fuel`
/// requests, each answered as [`answers`] allows.
pub open spec fn run<S, T>(
    procedure: spec_fn(S, Option<ReplyView>) -> StepView<S, T>,
    start: World,
    step: StepView<S, T>,
    outcome: Result<T, Error>,
    end: World,
    fuel: nat,
) -> bool
    decreases fuel,
{
    match step {
        StepView::Finish(result) => result == outcome && end == start,
        StepView::Perform(stage, request) => fuel > 0 && exists|reply: ReplyView, next: World|
            {
                &&& #[trigger] answers(start, request, reply, next)
                &&& run(
                    procedure,
                    next,
                    procedure(stage, Some(reply)),
                    outcome,
                    end,
                    (fuel - 1) as nat,
                )
            },
    }
}

/// One of the answers that the model allows to `request` in `world`.
pub open spec fn answer(world: World, request: RequestView) -> (ReplyView, World) {
    choose|answer: (ReplyView, World)| answers(world, request, answer.0, answer.1)
}

/// Where the procedure `procedure`, about to make the move `step` in the
/// world `start`, stands after at most `fuel` requests, each answered by
/// [`answer`].
pub open spec fn replay<S, T>(
    procedure: spec_fn(S, Option<ReplyView>) -> StepView<S, T>,
    start: World,
    step: StepView<S, T>,
    fuel: nat,
) -> (StepView<S, T>, World)
    decreases fuel,
{
    match step {
        StepView::Finish(_) => (step, start),
        StepView::Perform(stage, request) => if fuel == 0 {
            (step, start)
        } else {
            let (reply, next) = answer(start, request);
            replay(procedure, next, procedure(stage, Some(reply)), (fuel - 1) as nat)
        },
    }
}

/// Whether the procedure `procedure`, run from its stage `first` in the
/// world `start`, can end with `outcome` in the world `end` within `fuel`
/// requests.
pub open spec fn performs<S, T>(
    procedure: spec_fn(S, Option<ReplyView>) -> StepView<S, T>,
    first: S,
    start: World,
    outcome: Result<T, Error>,
    end: World,
    fuel: nat,
) -> bool {
    run(procedure, start, procedure(first, None), outcome, end, fuel)
}

} // verus!
