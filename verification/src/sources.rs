//! Where releases come from: the naming convention that turns a branch name
//! into the locators of its release archive and its version information.

use crate::net::{RemoteFile, RemoteResource};
use crate::text::{join, joined, same};
use vstd::prelude::*;

verus! {

/// The locator of `file` for `branch` on a host rooted at `base`.
///
/// The branch named `root` is published at the top of the host; every other
/// branch in a directory of its own name.
pub open spec fn locator(
    base: Seq<char>,
    root: Seq<char>,
    branch: Seq<char>,
    file: Seq<char>,
) -> Seq<char> {
    if branch == root {
        joined(base, file)
    } else {
        joined(joined(base, branch), file)
    }
}

/// Computes [`locator`].
pub fn locate(base: &str, root: &str, branch: &str, file: &str) -> (url: String)
    ensures
        url@ == locator(base@, root@, branch@, file@),
{
    if same(branch, root) {
        join(base, file)
    } else {
        let directory = join(base, branch);
        join(directory.as_str(), file)
    }
}

/// Something that can locate the release assets of a branch.
///
/// Both locators are functions of the branch name alone: asking twice for
/// the same branch names the same resource.
pub trait ReleaseSource {
    /// The URL of the release archive of `branch`.
    spec fn archive_url(&self, branch: Seq<char>) -> Seq<char>;

    /// The URL of the version information of `branch`.
    spec fn version_info_url(&self, branch: Seq<char>) -> Seq<char>;

    /// The release archive of `branch`.
    fn get_release_archive_file(&self, branch: &str) -> (resource: RemoteResource)
        ensures
            resource@ == self.archive_url(branch@),
    ;

    /// The version information of `branch`.
    fn get_version_info_file(&self, branch: &str) -> (resource: RemoteResource)
        ensures
            resource@ == self.version_info_url(branch@),
    ;
}

/// The host of the official distribution.
pub const OFFICIAL_DOWNLOAD_BASE_URL: &'static str = "https://goatcorp.github.io/dalamud-distrib";

/// The branch published at the top of the official distribution.
///
/// This is a release line, not a git branch.
pub const OFFICIAL_ROOT_BRANCH_NAME: &'static str = "latest";

/// The file name of a release archive.
pub const OFFICIAL_RELEASE_ARCHIVE_FILENAME: &'static str = "latest.zip";

/// The file name of the version information beside a release archive.
pub const OFFICIAL_VERSION_INFO_FILENAME: &'static str = "version";

/// The official distribution at `goatcorp/dalamud-distrib`.
#[derive(Debug, Clone, Copy)]
pub struct GoatcorpReleaseSource;

impl Default for GoatcorpReleaseSource {
    fn default() -> (source: Self) {
        GoatcorpReleaseSource
    }
}

impl ReleaseSource for GoatcorpReleaseSource {
    open spec fn archive_url(&self, branch: Seq<char>) -> Seq<char> {
        locator(
            OFFICIAL_DOWNLOAD_BASE_URL@,
            OFFICIAL_ROOT_BRANCH_NAME@,
            branch,
            OFFICIAL_RELEASE_ARCHIVE_FILENAME@,
        )
    }

    open spec fn version_info_url(&self, branch: Seq<char>) -> Seq<char> {
        locator(
            OFFICIAL_DOWNLOAD_BASE_URL@,
            OFFICIAL_ROOT_BRANCH_NAME@,
            branch,
            OFFICIAL_VERSION_INFO_FILENAME@,
        )
    }

    fn get_release_archive_file(&self, branch: &str) -> (resource: RemoteResource) {
        RemoteResource::from_url(
            locate(
                OFFICIAL_DOWNLOAD_BASE_URL,
                OFFICIAL_ROOT_BRANCH_NAME,
                branch,
                OFFICIAL_RELEASE_ARCHIVE_FILENAME,
            ),
        )
    }

    fn get_version_info_file(&self, branch: &str) -> (resource: RemoteResource) {
        RemoteResource::from_url(
            locate(
                OFFICIAL_DOWNLOAD_BASE_URL,
                OFFICIAL_ROOT_BRANCH_NAME,
                branch,
                OFFICIAL_VERSION_INFO_FILENAME,
            ),
        )
    }
}

/// The distribution as served from its repository on GitHub.
pub const DEFAULT_DISTRIB_REPO_URL: &'static str =
    "https://github.com/goatcorp/dalamud-distrib/raw/main";

/// The file name of a release archive on [`DEFAULT_DISTRIB_REPO_URL`].
pub const DEFAULT_DISTRIB_REPO_FILE: &'static str = "latest.zip";

/// A host of release archives, with the file name its archives go by.
#[derive(Debug)]
pub struct Repository {
    /// The URL to download releases from.
    pub url: String,
    /// The file name of a release archive.
    pub release_file: String,
}

impl Repository {
    /// A repository at `url` whose archives are named `release_file`.
    pub fn new(url: String, release_file: String) -> (repository: Self)
        ensures
            repository.url@ == url@,
            repository.release_file@ == release_file@,
    {
        Repository { url, release_file }
    }

    /// The URL of the release archive of `branch`.
    pub fn get_download_url(&self, branch: &str) -> (url: String)
        ensures
            url@ == locator(self.url@, OFFICIAL_ROOT_BRANCH_NAME@, branch@, self.release_file@),
    {
        locate(
            self.url.as_str(),
            OFFICIAL_ROOT_BRANCH_NAME,
            branch,
            self.release_file.as_str(),
        )
    }
}

impl Default for Repository {
    fn default() -> (repository: Self)
        ensures
            repository.url@ == DEFAULT_DISTRIB_REPO_URL@,
            repository.release_file@ == DEFAULT_DISTRIB_REPO_FILE@,
    {
        Repository::new(
            DEFAULT_DISTRIB_REPO_URL.to_owned(),
            DEFAULT_DISTRIB_REPO_FILE.to_owned(),
        )
    }
}

/// A host of releases: archives and, beside each, its version information.
#[derive(Debug)]
pub struct DistRepository {
    /// The URL to download releases from.
    pub url: String,
    /// The file name of a release archive.
    pub release_file: String,
    /// The file name of the version information of a release.
    pub version_info_file: String,
}

impl DistRepository {
    /// A repository at `url` that names its files as the official
    /// distribution does.
    pub fn from_url_with_defaults(url: String) -> (repository: Self)
        ensures
            repository.url@ == url@,
            repository.release_file@ == OFFICIAL_RELEASE_ARCHIVE_FILENAME@,
            repository.version_info_file@ == OFFICIAL_VERSION_INFO_FILENAME@,
    {
        DistRepository {
            url,
            release_file: OFFICIAL_RELEASE_ARCHIVE_FILENAME.to_owned(),
            version_info_file: OFFICIAL_VERSION_INFO_FILENAME.to_owned(),
        }
    }

    /// The release archive of `branch`.
    pub fn get_download_url(&self, branch: &str) -> (file: RemoteFile)
        ensures
            file@ == locator(self.url@, OFFICIAL_ROOT_BRANCH_NAME@, branch@, self.release_file@),
    {
        RemoteFile::from_url(
            locate(
                self.url.as_str(),
                OFFICIAL_ROOT_BRANCH_NAME,
                branch,
                self.release_file.as_str(),
            ),
        )
    }

    /// The version information of `branch`.
    pub fn get_version_info_url(&self, branch: &str) -> (file: RemoteFile)
        ensures
            file@ == locator(
                self.url@,
                OFFICIAL_ROOT_BRANCH_NAME@,
                branch@,
                self.version_info_file@,
            ),
    {
        RemoteFile::from_url(
            locate(
                self.url.as_str(),
                OFFICIAL_ROOT_BRANCH_NAME,
                branch,
                self.version_info_file.as_str(),
            ),
        )
    }
}

impl Default for DistRepository {
    fn default() -> (repository: Self)
        ensures
            repository.url@ == OFFICIAL_DOWNLOAD_BASE_URL@,
            repository.release_file@ == OFFICIAL_RELEASE_ARCHIVE_FILENAME@,
            repository.version_info_file@ == OFFICIAL_VERSION_INFO_FILENAME@,
    {
        DistRepository::from_url_with_defaults(OFFICIAL_DOWNLOAD_BASE_URL.to_owned())
    }
}

} // verus!
