//! The vocabulary spoken between the library and the caller that performs
//! its requests: what can be asked, what can be answered, and how a
//! procedure reports its next move.

use crate::net::RemoteResource;
use crate::version_info::{DalamudVersionInfo, VersionInfoView};
use vstd::prelude::*;

verus! {

/// Why the caller could not carry out a request.
#[derive(Clone, Copy, Debug, PartialEq, Eq, Structural)]
pub enum Failure {
    /// What the request names does not exist.
    NotFound,
    /// The platform refused for want of privilege.
    PermissionDenied,
    /// The remote host could not be reached or answered without success.
    Network,
    /// The platform supplies no base directory to store anything under.
    StorageUnavailable,
    /// Any other filesystem failure.
    Other,
}

/// Why a procedure ended without its result.
#[derive(Clone, Copy, Debug, PartialEq, Eq, Structural)]
pub enum Error {
    /// A branch was required to be installed and is not.
    NotInstalled,
    /// A branch was required to be absent and is installed.
    AlreadyExists,
    /// Something the caller was asked to touch does not exist.
    NotFound,
    /// A filesystem failure other than absence.
    Io,
    /// A download failed.
    Network,
    /// Version information was present but could not be understood.
    MalformedVersionInfo,
    /// The active pointer could not be created for want of privilege.
    SymlinkPermissionDenied,
    /// The platform supplies no base directory.
    StorageUnavailable,
    /// A reply did not fit the request it was given for.
    UnexpectedReply,
}

impl Failure {
    /// The error a failure becomes when nothing recovers from it.
    pub open spec fn surfaced(self) -> Error {
        match self {
            Failure::NotFound => Error::NotFound,
            Failure::PermissionDenied => Error::Io,
            Failure::Network => Error::Network,
            Failure::StorageUnavailable => Error::StorageUnavailable,
            Failure::Other => Error::Io,
        }
    }

    /// Computes [`Failure::surfaced`].
    pub fn surface(self) -> (error: Error)
        ensures
            error == self.surfaced(),
    {
        match self {
            Failure::NotFound => Error::NotFound,
            Failure::PermissionDenied => Error::Io,
            Failure::Network => Error::Network,
            Failure::StorageUnavailable => Error::StorageUnavailable,
            Failure::Other => Error::Io,
        }
    }
}

/// Something the caller is asked to do on the library's behalf.
///
/// Branches are named, never located: where a branch lives on disk is the
/// caller's knowledge.
#[derive(Clone, Debug, PartialEq, Eq)]
pub enum Request {
    /// Resolve the directory of `branch` and report whether it exists.
    ProbeBranch { branch: String },
    /// Report the names of the entries under the branches root.
    ListBranches,
    /// Read the active pointer itself, without following it.
    ReadActiveLink,
    /// Follow the active pointer and report the name of the directory it
    /// resolves to.
    ResolveActiveLink,
    /// Delete the active pointer.
    RemoveActiveLink,
    /// Point the active pointer at the directory of `branch`.
    CreateActiveLink { branch: String },
    /// Report where the active pointer lives.
    LocateActiveLink,
    /// Download `resource` to a private temporary place.
    DownloadArchive { resource: RemoteResource },
    /// Delete the directory of `branch` and everything in it.
    RemoveBranch { branch: String },
    /// Unpack the downloaded archive into the directory of `branch`.
    ExtractArchive { branch: String },
    /// Give up the temporary place of the downloaded archive.
    DiscardArchive,
    /// Download `resource` to the version-information file of `branch`.
    DownloadVersionInfo { resource: RemoteResource, branch: String },
    /// Report the text of the version-information file of `branch`.
    ReadVersionInfo { branch: String },
    /// Fetch `resource` and report its body as text.
    FetchText { resource: RemoteResource },
    /// Decode `text` as version information.
    DecodeVersionInfo { text: String },
}

/// The mathematical content of a [`Request`].
pub enum RequestView {
    ProbeBranch { branch: Seq<char> },
    ListBranches,
    ReadActiveLink,
    ResolveActiveLink,
    RemoveActiveLink,
    CreateActiveLink { branch: Seq<char> },
    LocateActiveLink,
    DownloadArchive { url: Seq<char> },
    RemoveBranch { branch: Seq<char> },
    ExtractArchive { branch: Seq<char> },
    DiscardArchive,
    DownloadVersionInfo { url: Seq<char>, branch: Seq<char> },
    ReadVersionInfo { branch: Seq<char> },
    FetchText { url: Seq<char> },
    DecodeVersionInfo { text: Seq<char> },
}

impl View for Request {
    type V = RequestView;

    open spec fn view(&self) -> RequestView {
        match self {
            Request::ProbeBranch { branch } => RequestView::ProbeBranch { branch: branch@ },
            Request::ListBranches => RequestView::ListBranches,
            Request::ReadActiveLink => RequestView::ReadActiveLink,
            Request::ResolveActiveLink => RequestView::ResolveActiveLink,
            Request::RemoveActiveLink => RequestView::RemoveActiveLink,
            Request::CreateActiveLink { branch } => RequestView::CreateActiveLink {
                branch: branch@,
            },
            Request::LocateActiveLink => RequestView::LocateActiveLink,
            Request::DownloadArchive { resource } => RequestView::DownloadArchive {
                url: resource@,
            },
            Request::RemoveBranch { branch } => RequestView::RemoveBranch { branch: branch@ },
            Request::ExtractArchive { branch } => RequestView::ExtractArchive { branch: branch@ },
            Request::DiscardArchive => RequestView::DiscardArchive,
            Request::DownloadVersionInfo { resource, branch } => RequestView::DownloadVersionInfo {
                url: resource@,
                branch: branch@,
            },
            Request::ReadVersionInfo { branch } => RequestView::ReadVersionInfo {
                branch: branch@,
            },
            Request::FetchText { resource } => RequestView::FetchText { url: resource@ },
            Request::DecodeVersionInfo { text } => RequestView::DecodeVersionInfo { text: text@ },
        }
    }
}

/// What the caller reports back after carrying out a [`Request`].
#[derive(Clone, Debug, PartialEq, Eq)]
pub enum Reply {
    /// The request was carried out; there is nothing to report.
    Done,
    /// The request could not be carried out.
    Failed(Failure),
    /// Where a branch's directory lives, and whether it exists.
    Branch { location: String, present: bool },
    /// The entries under the branches root; `None` where the root itself is
    /// absent.
    Entries(Option<Vec<String>>),
    /// The name of the directory the active pointer resolves to; `None`
    /// where the resolved path has no name that is text.
    Target(Option<String>),
    /// A path.
    Location(String),
    /// Text that was read or fetched; `None` where the file is absent.
    Text(Option<String>),
    /// Decoded version information; `None` where the text did not decode.
    Decoded(Option<DalamudVersionInfo>),
}

/// The mathematical content of a [`Reply`].
pub enum ReplyView {
    Done,
    Failed(Failure),
    Branch { location: Seq<char>, present: bool },
    Entries(Option<Seq<Seq<char>>>),
    Target(Option<Seq<char>>),
    Location(Seq<char>),
    Text(Option<Seq<char>>),
    Decoded(Option<VersionInfoView>),
}

impl View for Reply {
    type V = ReplyView;

    open spec fn view(&self) -> ReplyView {
        match self {
            Reply::Done => ReplyView::Done,
            Reply::Failed(failure) => ReplyView::Failed(*failure),
            Reply::Branch { location, present } => ReplyView::Branch {
                location: location@,
                present: *present,
            },
            Reply::Entries(names) => ReplyView::Entries(names.deep_view()),
            Reply::Target(name) => ReplyView::Target(name.deep_view()),
            Reply::Location(path) => ReplyView::Location(path@),
            Reply::Text(text) => ReplyView::Text(text.deep_view()),
            Reply::Decoded(info) => ReplyView::Decoded(info.deep_view()),
        }
    }
}

impl DeepView for Reply {
    type V = ReplyView;

    open spec fn deep_view(&self) -> ReplyView {
        self@
    }
}

/// The next move of a procedure that is in stage `S` and yields a `T`.
#[derive(Debug, PartialEq, Eq)]
pub enum Step<S, T> {
    /// Carry out the request, then resume in the given stage with its reply.
    Perform(S, Request),
    /// The procedure is over.
    Finish(Result<T, Error>),
}

/// The mathematical content of a [`Step`].
pub enum StepView<S, T> {
    Perform(S, RequestView),
    Finish(Result<T, Error>),
}

impl<S: DeepView, T: DeepView> DeepView for Step<S, T> {
    type V = StepView<S::V, T::V>;

    open spec fn deep_view(&self) -> StepView<S::V, T::V> {
        match self {
            Step::Perform(stage, request) => StepView::Perform(stage.deep_view(), request@),
            Step::Finish(Ok(value)) => StepView::Finish(Ok(value.deep_view())),
            Step::Finish(Err(error)) => StepView::Finish(Err(*error)),
        }
    }
}

} // verus!
