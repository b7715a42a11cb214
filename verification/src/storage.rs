//! Where the manager keeps its state: the layout of its directories under
//! the base directories that the platform assigns to an application.
//!
//! Paths are named here, not resolved: which directory the platform assigns
//! is known only when the program runs.

use crate::text::appended;
use vstd::prelude::*;

verus! {

/// The name of the directory that holds the installed branches.
///
/// Any change to it breaks compatibility with existing installations.
pub const DALAMUD_BRANCHES_DIRNAME: &'static str = "dalamud-branches";

/// A name that the branches directory does not go by any more; what is
/// left under it is cleared away.
pub const DALAMUD_BRANCHES_DIRNAME_OLD: &'static str = "dalamud-versions";

/// The name of the symlink to the active branch.
///
/// Any change to it breaks compatibility with existing installations.
pub const ACTIVE_DALAMUD_VERSION_DIRNAME: &'static str = "active";

/// The name of the version-information file inside an installed branch.
///
/// Any change to it breaks compatibility with existing installations.
pub const VERSIONINFO_FILENAME: &'static str = "release.versiondata";

/// One of the base directories that the platform assigns to an application.
#[derive(Clone, Copy, Debug, PartialEq, Eq, Structural)]
pub enum Base {
    /// The directory for the application's data.
    Data,
    /// The directory for the application's configuration.
    Config,
}

/// A path below a base directory, segment by segment.
#[derive(Clone, Debug, PartialEq, Eq)]
pub struct StoragePath {
    pub base: Base,
    pub segments: Vec<String>,
}

/// The mathematical content of a [`StoragePath`].
pub struct StoragePathView {
    pub base: Base,
    pub segments: Seq<Seq<char>>,
}

impl DeepView for StoragePath {
    type V = StoragePathView;

    open spec fn deep_view(&self) -> StoragePathView {
        StoragePathView { base: self.base, segments: self.segments.deep_view() }
    }
}

/// A path together with what has to be done before it is handed out.
#[derive(Clone, Debug, PartialEq, Eq)]
pub struct Resolution {
    /// The path itself.
    pub path: StoragePath,
    /// The directories that must exist, and are created if they do not, in
    /// this order.
    pub ensure: Vec<StoragePath>,
    /// The directories that are cleared away; a failure to do so is passed
    /// over.
    pub discard: Vec<StoragePath>,
}

/// The mathematical content of a [`Resolution`].
pub struct ResolutionView {
    pub path: StoragePathView,
    pub ensure: Seq<StoragePathView>,
    pub discard: Seq<StoragePathView>,
}

impl DeepView for Resolution {
    type V = ResolutionView;

    open spec fn deep_view(&self) -> ResolutionView {
        ResolutionView {
            path: self.path.deep_view(),
            ensure: self.ensure.deep_view(),
            discard: self.discard.deep_view(),
        }
    }
}

/// The path `segments` below the data directory.
pub open spec fn in_data(segments: Seq<Seq<char>>) -> StoragePathView {
    StoragePathView { base: Base::Data, segments }
}

/// The path `segments` below the configuration directory.
pub open spec fn in_config(segments: Seq<Seq<char>>) -> StoragePathView {
    StoragePathView { base: Base::Config, segments }
}

/// The path `segments` below the branches directory, with what resolving
/// it does: the data directory and the branches directory are created if
/// missing, the directory of the disused name is cleared away, and nothing
/// below the branches directory is touched.
pub open spec fn below_branches(segments: Seq<Seq<char>>) -> ResolutionView {
    beside_branches(seq![DALAMUD_BRANCHES_DIRNAME@] + segments)
}

/// The path `segments` below the data directory, with what resolving a
/// path in or below the branches directory does.
pub open spec fn beside_branches(segments: Seq<Seq<char>>) -> ResolutionView {
    ResolutionView {
        path: in_data(segments),
        ensure: seq![in_data(seq![]), in_data(seq![DALAMUD_BRANCHES_DIRNAME@])],
        discard: seq![in_data(seq![DALAMUD_BRANCHES_DIRNAME_OLD@])],
    }
}

/// The path of the active pointer, with what resolving it does: the
/// configuration directory is created if missing, the pointer is not.
pub open spec fn active_pointer() -> ResolutionView {
    ResolutionView {
        path: in_config(seq![ACTIVE_DALAMUD_VERSION_DIRNAME@]),
        ensure: seq![in_config(seq![])],
        discard: seq![],
    }
}

/// A storage layout.
pub trait AppStorage {
    /// The name of the version-information file inside a branch.
    fn get_version_info_filename(&self) -> &str;

    /// The symlink that points at the active branch. Resolving it creates
    /// every leading directory, and not the symlink.
    fn get_active_branch_symlink(&self) -> Resolution;

    /// The directory that holds the installed branches. Resolving it
    /// creates it.
    fn get_branches_directory(&self) -> Resolution;

    /// Where the branch `branch_name` is or would be installed. Resolving
    /// it creates every leading directory, and not the directory itself.
    fn get_branch_directory(&self, branch_name: &str) -> Resolution;

    /// Where the version information of the branch `branch_name` is kept.
    /// Resolving it creates neither the branch's directory nor the file.
    fn get_branch_version_info_path(&self, branch_name: &str) -> Resolution;
}

/// The layout that follows each platform's conventions for where an
/// application keeps its data and its configuration.
#[derive(Clone, Copy, Debug)]
pub struct CompliantDiskStorage {
    pub qualifier: &'static str,
    pub organization: &'static str,
    pub name: &'static str,
}

/// The path `segments` below the data directory.
fn data(segments: Vec<String>) -> (path: StoragePath)
    ensures
        path.deep_view() == in_data(segments.deep_view()),
{
    StoragePath { base: Base::Data, segments }
}

/// No segments at all.
fn nothing() -> (segments: Vec<String>)
    ensures
        segments.deep_view() == Seq::<Seq<char>>::empty(),
{
    let segments: Vec<String> = Vec::new();
    assert(segments.deep_view() =~= Seq::<Seq<char>>::empty());
    segments
}

/// The segments that lead to the branches directory.
fn branches() -> (segments: Vec<String>)
    ensures
        segments.deep_view() == seq![DALAMUD_BRANCHES_DIRNAME@],
{
    let segments = appended(nothing(), DALAMUD_BRANCHES_DIRNAME.to_owned());
    assert(segments.deep_view() =~= seq![DALAMUD_BRANCHES_DIRNAME@]);
    segments
}

/// Computes [`beside_branches`].
fn resolve(segments: Vec<String>) -> (resolution: Resolution)
    ensures
        resolution.deep_view() == beside_branches(segments.deep_view()),
{
    let mut ensure: Vec<StoragePath> = Vec::new();
    ensure.push(data(nothing()));
    ensure.push(data(branches()));
    let mut discard: Vec<StoragePath> = Vec::new();
    discard.push(data(appended(nothing(), DALAMUD_BRANCHES_DIRNAME_OLD.to_owned())));
    let resolution = Resolution { path: data(segments), ensure, discard };
    proof {
        let expected = beside_branches(segments.deep_view());
        assert(resolution.ensure.deep_view().len() == 2);
        assert(resolution.ensure.deep_view()[0] == resolution.ensure[0].deep_view());
        assert(resolution.ensure.deep_view()[1] == resolution.ensure[1].deep_view());
        assert(resolution.ensure.deep_view() =~= expected.ensure);
        assert(resolution.discard.deep_view().len() == 1);
        assert(resolution.discard.deep_view()[0] == resolution.discard[0].deep_view());
        assert(resolution.discard[0].deep_view().segments =~= expected.discard[0].segments);
        assert(resolution.discard.deep_view() =~= expected.discard);
    }
    resolution
}

impl CompliantDiskStorage {
    /// The layout of the application `name` of `organization`.
    pub fn new(qualifier: &'static str, organization: &'static str, name: &'static str) -> (storage:
        Self)
        ensures
            storage.qualifier@ == qualifier@,
            storage.organization@ == organization@,
            storage.name@ == name@,
    {
        CompliantDiskStorage { qualifier, organization, name }
    }
}

impl AppStorage for CompliantDiskStorage {
    fn get_version_info_filename(&self) -> (name: &str)
        ensures
            name@ == VERSIONINFO_FILENAME@,
    {
        VERSIONINFO_FILENAME
    }

    fn get_active_branch_symlink(&self) -> (resolution: Resolution)
        ensures
            resolution.deep_view() == active_pointer(),
    {
        let target = StoragePath {
            base: Base::Config,
            segments: appended(nothing(), ACTIVE_DALAMUD_VERSION_DIRNAME.to_owned()),
        };
        let mut ensure: Vec<StoragePath> = Vec::new();
        ensure.push(StoragePath { base: Base::Config, segments: nothing() });
        let resolution = Resolution { path: target, ensure, discard: Vec::new() };
        proof {
            let expected = active_pointer();
            assert(resolution.path.deep_view().segments =~= expected.path.segments);
            assert(resolution.ensure.deep_view().len() == 1);
            assert(resolution.ensure.deep_view()[0] == resolution.ensure[0].deep_view());
            assert(resolution.ensure.deep_view() =~= expected.ensure);
            assert(resolution.discard.deep_view() =~= expected.discard);
        }
        resolution
    }

    fn get_branches_directory(&self) -> (resolution: Resolution)
        ensures
            resolution.deep_view() == below_branches(seq![]),
    {
        let segments = branches();
        assert(segments.deep_view() =~= seq![DALAMUD_BRANCHES_DIRNAME@] + Seq::<Seq<char>>::empty());
        resolve(segments)
    }

    fn get_branch_directory(&self, branch_name: &str) -> (resolution: Resolution)
        ensures
            resolution.deep_view() == below_branches(seq![branch_name@]),
    {
        let segments = appended(branches(), branch_name.to_owned());
        assert(segments.deep_view() =~= seq![DALAMUD_BRANCHES_DIRNAME@] + seq![branch_name@]);
        resolve(segments)
    }

    fn get_branch_version_info_path(&self, branch_name: &str) -> (resolution: Resolution)
        ensures
            resolution.deep_view() == below_branches(seq![branch_name@, VERSIONINFO_FILENAME@]),
    {
        let segments = appended(
            appended(branches(), branch_name.to_owned()),
            self.get_version_info_filename().to_owned(),
        );
        assert(segments.deep_view() =~= seq![DALAMUD_BRANCHES_DIRNAME@] + seq![
            branch_name@,
            VERSIONINFO_FILENAME@,
        ]);
        resolve(segments)
    }
}

} // verus!
