//! Version metadata of a release, and the comparison that decides whether an
//! installation is current.

use vstd::prelude::*;
use vstd::std_specs::cmp::PartialEqSpecImpl;

verus! {

/// Version information of one Dalamud release.
///
/// The release source may extend the document it publishes at any time; the
/// three fields kept here are the ones the manager compares.
#[derive(Debug)]
pub struct DalamudVersionInfo {
    /// Assembly version string of Dalamud at release.
    pub assembly_version: String,
    /// Git commit hash of Dalamud at release.
    pub git_sha: Option<String>,
    /// Revision number of Dalamud at release.
    pub revision: Option<String>,
}

/// The mathematical content of a [`DalamudVersionInfo`].
pub struct VersionInfoView {
    pub assembly_version: Seq<char>,
    pub git_sha: Option<Seq<char>>,
    pub revision: Option<Seq<char>>,
}

impl View for DalamudVersionInfo {
    type V = VersionInfoView;

    open spec fn view(&self) -> VersionInfoView {
        VersionInfoView {
            assembly_version: self.assembly_version@,
            git_sha: self.git_sha.deep_view(),
            revision: self.revision.deep_view(),
        }
    }
}

impl DeepView for DalamudVersionInfo {
    type V = VersionInfoView;

    open spec fn deep_view(&self) -> VersionInfoView {
        self@
    }
}

/// Whether two optional strings hold the same text, or are both absent.
pub fn same_text(left: &Option<String>, right: &Option<String>) -> (same: bool)
    ensures
        same == (left.deep_view() == right.deep_view()),
{
    match (left, right) {
        (None, None) => true,
        (Some(a), Some(b)) => *a == *b,
        _ => false,
    }
}

/// Copies an optional string.
pub fn copy_text(text: &Option<String>) -> (copy: Option<String>)
    ensures
        copy.deep_view() == text.deep_view(),
{
    match text {
        None => None,
        Some(t) => Some(t.clone()),
    }
}

impl PartialEq for DalamudVersionInfo {
    fn eq(&self, other: &Self) -> (equal: bool) {
        self.assembly_version == other.assembly_version && same_text(&self.git_sha, &other.git_sha)
            && same_text(&self.revision, &other.revision)
    }
}

impl PartialEqSpecImpl for DalamudVersionInfo {
    open spec fn obeys_eq_spec() -> bool {
        true
    }

    open spec fn eq_spec(&self, other: &Self) -> bool {
        self@ == other@
    }
}

impl Eq for DalamudVersionInfo {

}

impl Clone for DalamudVersionInfo {
    fn clone(&self) -> (copy: Self)
        ensures
            copy@ == self@,
    {
        DalamudVersionInfo {
            assembly_version: self.assembly_version.clone(),
            git_sha: copy_text(&self.git_sha),
            revision: copy_text(&self.revision),
        }
    }
}

/// Whether a local installation is known to match what the release source
/// currently publishes.
///
/// Version information is the only signal there is: two releases are the same
/// exactly when every field agrees. Where either side is unknown the
/// installation counts as out of date.
pub open spec fn versions_agree(
    local: Option<VersionInfoView>,
    remote: Option<VersionInfoView>,
) -> bool {
    local is Some && remote is Some && local->0 == remote->0
}

/// Decides [`versions_agree`] for the version information at hand.
pub fn versions_match(
    local: &Option<DalamudVersionInfo>,
    remote: &Option<DalamudVersionInfo>,
) -> (current: bool)
    ensures
        current == versions_agree(local.deep_view(), remote.deep_view()),
{
    match (local, remote) {
        (Some(l), Some(r)) => l == r,
        _ => false,
    }
}

} // verus!
