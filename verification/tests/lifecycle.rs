use nael_core::commands::active::{Active, ActiveReport, OutputFormat};
use nael_core::commands::RunnableCommand;
use nael_core::exchange::{Error, Failure, Reply, Request, Step};
use nael_core::install::{CreateStage, InstallStage, Installed, RemoveStage};
use nael_core::management::{
    ActivateStage, ActiveStage, DalamudInstallation, ListStage, ProbeStage, UnsetStage,
};
use nael_core::net::RemoteResource;
use nael_core::sources::{GoatcorpReleaseSource, ReleaseSource};
use nael_core::version_info::DalamudVersionInfo;
use serde_json::Value;
use std::collections::BTreeMap;

/// What one installed branch holds.
#[derive(Clone, Debug, PartialEq)]
struct Folder {
    archive: Vec<u8>,
    version_file: Option<String>,
}

/// Storage and release host held in memory, answering requests as a faithful
/// caller on sound storage would.
#[derive(Default)]
struct Storage {
    branches: BTreeMap<String, Folder>,
    pointer: Option<String>,
    staged: Option<Vec<u8>>,
    archives: BTreeMap<String, Vec<u8>>,
    texts: BTreeMap<String, String>,
    asked: Vec<Request>,
}

fn text_field(object: &serde_json::Map<String, Value>, key: &str) -> Result<Option<String>, ()> {
    match object.get(key) {
        None | Some(Value::Null) => Ok(None),
        Some(Value::String(text)) => Ok(Some(text.clone())),
        Some(_) => Err(()),
    }
}

fn decode(text: &str) -> Option<DalamudVersionInfo> {
    let value: Value = serde_json::from_str(text).ok()?;
    let object = value.as_object()?;
    Some(DalamudVersionInfo {
        assembly_version: text_field(object, "AssemblyVersion").ok()??,
        git_sha: text_field(object, "GitSha").ok()?,
        revision: text_field(object, "Revision").ok()?,
    })
}

impl Storage {
    fn serving(branches: &[&str]) -> Storage {
        let mut storage = Storage::default();
        let source = GoatcorpReleaseSource;
        for branch in branches {
            storage.archives.insert(
                source.get_release_archive_file(branch).url,
                format!("archive of {branch}").into_bytes(),
            );
            storage.texts.insert(
                source.get_version_info_file(branch).url,
                format!("{{\"AssemblyVersion\":\"1.0.0.0\",\"GitSha\":\"{branch}\"}}"),
            );
        }
        storage
    }

    fn place(branch: &str) -> String {
        format!("/data/dalamud-branches/{branch}")
    }

    fn perform(&mut self, request: Request) -> Reply {
        self.asked.push(request.clone());
        match request {
            Request::ProbeBranch { branch } => Reply::Branch {
                location: Storage::place(&branch),
                present: self.branches.contains_key(&branch),
            },
            Request::ListBranches => Reply::Entries(Some(self.branches.keys().cloned().collect())),
            Request::ReadActiveLink => match self.pointer {
                Some(_) => Reply::Done,
                None => Reply::Failed(Failure::NotFound),
            },
            Request::ResolveActiveLink => match &self.pointer {
                Some(branch) if self.branches.contains_key(branch) => {
                    Reply::Target(Some(branch.clone()))
                }
                _ => Reply::Failed(Failure::NotFound),
            },
            Request::RemoveActiveLink => match self.pointer.take() {
                Some(_) => Reply::Done,
                None => Reply::Failed(Failure::NotFound),
            },
            Request::CreateActiveLink { branch } => match self.pointer {
                Some(_) => Reply::Failed(Failure::Other),
                None => {
                    self.pointer = Some(branch);
                    Reply::Done
                }
            },
            Request::LocateActiveLink => Reply::Location("/config/active".to_string()),
            Request::DownloadArchive { resource } => match self.archives.get(&resource.url) {
                Some(archive) => {
                    self.staged = Some(archive.clone());
                    Reply::Done
                }
                None => Reply::Failed(Failure::Network),
            },
            Request::RemoveBranch { branch } => match self.branches.remove(&branch) {
                Some(_) => Reply::Done,
                None => Reply::Failed(Failure::NotFound),
            },
            Request::ExtractArchive { branch } => match &self.staged {
                Some(archive) => {
                    let version_file =
                        self.branches.get(&branch).and_then(|folder| folder.version_file.clone());
                    self.branches
                        .insert(branch, Folder { archive: archive.clone(), version_file });
                    Reply::Done
                }
                None => Reply::Failed(Failure::NotFound),
            },
            Request::DiscardArchive => {
                self.staged = None;
                Reply::Done
            }
            Request::DownloadVersionInfo { resource, branch } => {
                match (self.texts.get(&resource.url), self.branches.get_mut(&branch)) {
                    (None, _) => Reply::Failed(Failure::Network),
                    (Some(_), None) => Reply::Failed(Failure::NotFound),
                    (Some(text), Some(folder)) => {
                        folder.version_file = Some(text.clone());
                        Reply::Done
                    }
                }
            }
            Request::ReadVersionInfo { branch } => Reply::Text(
                self.branches.get(&branch).and_then(|folder| folder.version_file.clone()),
            ),
            Request::FetchText { resource } => match self.texts.get(&resource.url) {
                Some(text) => Reply::Text(Some(text.clone())),
                None => Reply::Failed(Failure::Network),
            },
            Request::DecodeVersionInfo { text } => Reply::Decoded(decode(&text)),
        }
    }

    /// Runs a procedure to its end, carrying out each request it makes.
    fn drive<S, T>(
        &mut self,
        first: S,
        mut step: impl FnMut(S, Option<Reply>) -> Step<S, T>,
    ) -> Result<T, Error> {
        let mut stage = first;
        let mut reply = None;
        loop {
            match step(stage, reply) {
                Step::Perform(next, request) => {
                    reply = Some(self.perform(request));
                    stage = next;
                }
                Step::Finish(outcome) => return outcome,
            }
        }
    }

    fn is_installed(&mut self, branch: &str) -> Result<bool, Error> {
        self.drive(ProbeStage::Start, |stage, reply| {
            DalamudInstallation::is_installed(branch, stage, reply)
        })
    }

    fn get(&mut self, branch: &str) -> Result<Option<DalamudInstallation>, Error> {
        self.drive(ProbeStage::Start, |stage, reply| DalamudInstallation::get(branch, stage, reply))
    }

    fn get_all(&mut self) -> Result<Option<Vec<DalamudInstallation>>, Error> {
        self.drive(ListStage::Start, DalamudInstallation::get_all)
    }

    fn get_active(&mut self) -> Result<Option<DalamudInstallation>, Error> {
        self.drive(ActiveStage::Start, DalamudInstallation::get_active)
    }

    fn is_active(&mut self, branch: &str) -> Result<bool, Error> {
        let installation = handle(branch);
        self.drive(ActiveStage::Start, |stage, reply| installation.is_active(stage, reply))
    }

    fn set_active(&mut self, branch: &str) -> Result<(), Error> {
        let installation = handle(branch);
        self.drive(ActivateStage::Start, |stage, reply| installation.set_active(stage, reply))
    }

    fn unset_active(&mut self) -> Result<(), Error> {
        self.drive(UnsetStage::Start, DalamudInstallation::unset_active)
    }

    fn create(&mut self, branch: &str) -> Result<Installed, Error> {
        self.drive(CreateStage::Start, |stage, reply| {
            DalamudInstallation::create(branch, &GoatcorpReleaseSource, stage, reply)
        })
    }

    fn update(&mut self, branch: &str) -> Result<Installed, Error> {
        let installation = handle(branch);
        self.drive(InstallStage::Start, |stage, reply| {
            installation.update(&GoatcorpReleaseSource, stage, reply)
        })
    }

    fn remove(&mut self, branch: &str) -> Result<(), Error> {
        let installation = handle(branch);
        self.drive(RemoveStage::Start, |stage, reply| installation.remove(stage, reply))
    }

    fn run<C: RunnableCommand>(&mut self, command: &C) -> Result<C::Report, Error> {
        let first = command.begin();
        self.drive(first, |stage, reply| command.run(&GoatcorpReleaseSource, stage, reply))
    }
}

fn handle(branch: &str) -> DalamudInstallation {
    DalamudInstallation { branch_name: branch.to_string() }
}

fn names(installations: Option<Vec<DalamudInstallation>>) -> Option<Vec<String>> {
    installations.map(|all| all.into_iter().map(|one| one.branch_name).collect())
}

#[test]
fn install_list_activate_remove_scenario() {
    let mut storage = Storage::serving(&["release", "stg"]);
    assert_eq!(storage.get_all(), Ok(None));

    storage.create("release").unwrap();
    assert_eq!(names(storage.get_all().unwrap()), Some(vec!["release".to_string()]));

    storage.create("stg").unwrap();
    let both = names(storage.get_all().unwrap()).unwrap();
    assert_eq!(both.len(), 2);
    assert!(both.contains(&"release".to_string()));
    assert!(both.contains(&"stg".to_string()));

    storage.set_active("stg").unwrap();
    let by_name = Active { format: OutputFormat::Name, empty_if_none: false };
    assert_eq!(storage.run(&by_name), Ok(ActiveReport::Name("stg".to_string())));

    storage.remove("stg").unwrap();
    assert_eq!(storage.run(&by_name), Ok(ActiveReport::NoActiveBranch));
    assert_eq!(storage.get_active(), Ok(None));
    assert_eq!(names(storage.get_all().unwrap()), Some(vec!["release".to_string()]));
}

#[test]
fn absent_branch_is_neither_seen_nor_got() {
    let mut storage = Storage::serving(&["release"]);
    storage.create("release").unwrap();
    assert_eq!(storage.is_installed("stg"), Ok(false));
    assert_eq!(storage.get("stg"), Ok(None));
}

#[test]
fn created_branch_holds_the_served_archive() {
    let mut storage = Storage::serving(&["stg"]);
    let installed = storage.create("stg").unwrap();
    assert_eq!(installed, Installed { installation: handle("stg"), version_info_recorded: true });
    assert_eq!(storage.is_installed("stg"), Ok(true));
    assert_eq!(storage.get("stg"), Ok(Some(handle("stg"))));
    assert_eq!(storage.branches["stg"].archive, b"archive of stg".to_vec());
    assert_eq!(storage.staged, None);
}

#[test]
fn create_refuses_an_installed_branch_and_touches_nothing() {
    let mut storage = Storage::serving(&["stg"]);
    storage.create("stg").unwrap();
    storage.archives.insert(
        GoatcorpReleaseSource.get_release_archive_file("stg").url,
        b"a newer archive".to_vec(),
    );
    let before = storage.branches.clone();
    storage.asked.clear();
    assert_eq!(storage.create("stg"), Err(Error::AlreadyExists));
    assert_eq!(storage.branches, before);
    assert_eq!(storage.asked, vec![Request::ProbeBranch { branch: "stg".to_string() }]);
}

#[test]
fn set_active_takes_over_from_the_previous_branch() {
    let mut storage = Storage::serving(&["release", "stg"]);
    storage.create("release").unwrap();
    storage.create("stg").unwrap();
    storage.set_active("release").unwrap();
    assert_eq!(storage.is_active("release"), Ok(true));

    storage.set_active("stg").unwrap();
    assert_eq!(storage.get_active(), Ok(Some(handle("stg"))));
    assert_eq!(storage.is_active("stg"), Ok(true));
    assert_eq!(storage.is_active("release"), Ok(false));
}

#[test]
fn set_active_asks_in_order() {
    let mut storage = Storage::serving(&["stg"]);
    storage.create("stg").unwrap();
    storage.asked.clear();
    storage.set_active("stg").unwrap();
    assert_eq!(
        storage.asked,
        vec![
            Request::ProbeBranch { branch: "stg".to_string() },
            Request::RemoveActiveLink,
            Request::CreateActiveLink { branch: "stg".to_string() },
        ]
    );
}

#[test]
fn set_active_requires_an_installed_branch() {
    let mut storage = Storage::serving(&["stg"]);
    assert_eq!(storage.set_active("stg"), Err(Error::NotInstalled));
    assert_eq!(storage.pointer, None);
}

#[test]
fn unset_active_twice_is_no_error() {
    let mut storage = Storage::serving(&["stg"]);
    storage.create("stg").unwrap();
    storage.set_active("stg").unwrap();
    assert_eq!(storage.unset_active(), Ok(()));
    assert_eq!(storage.get_active(), Ok(None));
    assert_eq!(storage.unset_active(), Ok(()));
    assert_eq!(storage.get_active(), Ok(None));
}

#[test]
fn removing_the_active_branch_clears_the_pointer() {
    let mut storage = Storage::serving(&["release", "stg"]);
    storage.create("release").unwrap();
    storage.create("stg").unwrap();
    storage.set_active("stg").unwrap();
    assert_eq!(storage.remove("stg"), Ok(()));
    assert_eq!(storage.pointer, None);
    assert_eq!(storage.get_active(), Ok(None));
    assert_eq!(storage.is_installed("stg"), Ok(false));
}

#[test]
fn removing_another_branch_keeps_the_active_one() {
    let mut storage = Storage::serving(&["release", "stg"]);
    storage.create("release").unwrap();
    storage.create("stg").unwrap();
    storage.set_active("stg").unwrap();
    storage.asked.clear();
    assert_eq!(storage.remove("release"), Ok(()));
    assert_eq!(storage.get_active(), Ok(Some(handle("stg"))));
    assert!(!storage.asked.contains(&Request::RemoveActiveLink));
}

#[test]
fn remove_requires_an_installed_branch() {
    let mut storage = Storage::serving(&["stg"]);
    assert_eq!(storage.remove("stg"), Err(Error::NotInstalled));
}

#[test]
fn get_all_twice_yields_the_same_names() {
    let mut storage = Storage::serving(&["release", "stg", "canary"]);
    storage.create("release").unwrap();
    storage.create("stg").unwrap();
    storage.create("canary").unwrap();
    let mut first = names(storage.get_all().unwrap()).unwrap();
    let mut second = names(storage.get_all().unwrap()).unwrap();
    first.sort();
    second.sort();
    assert_eq!(first, second);
    assert_eq!(first, vec!["canary".to_string(), "release".to_string(), "stg".to_string()]);
}

#[test]
fn get_all_yields_none_for_an_absent_and_for_an_empty_root() {
    assert_eq!(
        DalamudInstallation::get_all(ListStage::Listing, Some(Reply::Entries(None))),
        Step::Finish(Ok(None))
    );
    assert_eq!(
        DalamudInstallation::get_all(ListStage::Listing, Some(Reply::Entries(Some(vec![])))),
        Step::Finish(Ok(None))
    );
}

#[test]
fn get_all_keeps_the_order_it_was_told() {
    let entries = vec!["stg".to_string(), "release".to_string(), "canary".to_string()];
    assert_eq!(
        DalamudInstallation::get_all(ListStage::Listing, Some(Reply::Entries(Some(entries)))),
        Step::Finish(Ok(Some(vec![handle("stg"), handle("release"), handle("canary")])))
    );
}

#[test]
fn installation_without_version_information_still_succeeds() {
    let mut storage = Storage::serving(&["stg"]);
    storage.texts.clear();
    let installed = storage.create("stg").unwrap();
    assert!(!installed.version_info_recorded);
    assert_eq!(storage.branches["stg"].version_file, None);
    assert_eq!(storage.is_installed("stg"), Ok(true));
}

#[test]
fn update_replaces_what_is_installed() {
    let mut storage = Storage::serving(&["stg"]);
    storage.create("stg").unwrap();
    let archive = GoatcorpReleaseSource.get_release_archive_file("stg");
    let info = GoatcorpReleaseSource.get_version_info_file("stg");
    storage.archives.insert(archive.url.clone(), b"a newer archive".to_vec());
    storage.asked.clear();
    let updated = storage.update("stg").unwrap();
    assert_eq!(updated.installation, handle("stg"));
    assert_eq!(storage.branches["stg"].archive, b"a newer archive".to_vec());
    let stg = || "stg".to_string();
    assert_eq!(
        storage.asked,
        vec![
            Request::ProbeBranch { branch: stg() },
            Request::DownloadArchive { resource: archive },
            Request::ProbeBranch { branch: stg() },
            Request::RemoveBranch { branch: stg() },
            Request::ExtractArchive { branch: stg() },
            Request::DiscardArchive,
            Request::DownloadVersionInfo { resource: info, branch: stg() },
        ]
    );
}

#[test]
fn failed_download_leaves_the_installation_alone() {
    let mut storage = Storage::serving(&["stg"]);
    storage.create("stg").unwrap();
    storage.archives.clear();
    let before = storage.branches.clone();
    storage.asked.clear();
    assert_eq!(storage.update("stg"), Err(Error::Network));
    assert_eq!(storage.branches, before);
    assert!(!storage.asked.contains(&Request::RemoveBranch { branch: "stg".to_string() }));
}

#[test]
fn failed_extraction_ends_the_installation() {
    let step = DalamudInstallation::download_branch_impl(
        "stg",
        &GoatcorpReleaseSource,
        InstallStage::Extracting,
        Some(Reply::Failed(Failure::Other)),
    );
    assert_eq!(step, Step::Finish(Err(Error::Io)));
}

#[test]
fn dangling_pointer_means_no_active_branch() {
    let mut storage = Storage::serving(&["stg"]);
    storage.pointer = Some("gone".to_string());
    assert_eq!(storage.get_active(), Ok(None));
    assert_eq!(storage.is_active("gone"), Ok(false));
}

#[test]
fn pointer_whose_target_has_no_name_is_an_error() {
    assert_eq!(
        DalamudInstallation::get_active(ActiveStage::Resolving, Some(Reply::Target(None))),
        Step::Finish(Err(Error::Io))
    );
}

#[test]
fn refused_link_creation_is_reported_as_such() {
    let stg = handle("stg");
    assert_eq!(
        stg.set_active(ActivateStage::Linking, Some(Reply::Failed(Failure::PermissionDenied))),
        Step::Finish(Err(Error::SymlinkPermissionDenied))
    );
    assert_eq!(
        stg.set_active(ActivateStage::Linking, Some(Reply::Failed(Failure::Other))),
        Step::Finish(Err(Error::Io))
    );
}

#[test]
fn failures_surface_unchanged_in_kind() {
    assert_eq!(Failure::NotFound.surface(), Error::NotFound);
    assert_eq!(Failure::PermissionDenied.surface(), Error::Io);
    assert_eq!(Failure::Network.surface(), Error::Network);
    assert_eq!(Failure::StorageUnavailable.surface(), Error::StorageUnavailable);
    assert_eq!(Failure::Other.surface(), Error::Io);
}

#[test]
fn unavailable_storage_ends_every_probe() {
    let unavailable = || Some(Reply::Failed(Failure::StorageUnavailable));
    assert_eq!(
        DalamudInstallation::is_installed("stg", ProbeStage::Probing, unavailable()),
        Step::Finish(Err(Error::StorageUnavailable))
    );
    assert_eq!(
        DalamudInstallation::get("stg", ProbeStage::Probing, unavailable()),
        Step::Finish(Err(Error::StorageUnavailable))
    );
    assert_eq!(
        DalamudInstallation::create(
            "stg",
            &GoatcorpReleaseSource,
            CreateStage::Probing,
            unavailable()
        ),
        Step::Finish(Err(Error::StorageUnavailable))
    );
}

#[test]
fn reply_of_the_wrong_kind_is_refused() {
    assert_eq!(
        DalamudInstallation::is_installed("stg", ProbeStage::Probing, Some(Reply::Done)),
        Step::Finish(Err(Error::UnexpectedReply))
    );
    assert_eq!(
        DalamudInstallation::is_installed("stg", ProbeStage::Probing, None),
        Step::Finish(Err(Error::UnexpectedReply))
    );
    assert_eq!(
        DalamudInstallation::unset_active(
            UnsetStage::Removing,
            Some(Reply::Text(Some("x".to_string())))
        ),
        Step::Finish(Err(Error::UnexpectedReply))
    );
    assert_eq!(
        handle("stg").remove(RemoveStage::Deleting, Some(Reply::Entries(None))),
        Step::Finish(Err(Error::UnexpectedReply))
    );
}

#[test]
fn every_procedure_begins_with_a_request() {
    assert_eq!(
        DalamudInstallation::is_installed("stg", ProbeStage::Start, None),
        Step::Perform(ProbeStage::Probing, Request::ProbeBranch { branch: "stg".to_string() })
    );
    assert_eq!(
        DalamudInstallation::get_active(ActiveStage::Start, None),
        Step::Perform(ActiveStage::ReadingLink, Request::ReadActiveLink)
    );
    assert_eq!(
        DalamudInstallation::unset_active(UnsetStage::Start, None),
        Step::Perform(UnsetStage::ReadingLink, Request::ReadActiveLink)
    );
    assert_eq!(
        DalamudInstallation::get_all(ListStage::Start, None),
        Step::Perform(ListStage::Listing, Request::ListBranches)
    );
}

#[test]
fn location_is_reported_only_for_an_installed_branch() {
    let mut storage = Storage::serving(&["stg"]);
    let stg = handle("stg");
    let located = storage.drive(ProbeStage::Start, |stage, reply| stg.get_location(stage, reply));
    assert_eq!(located, Ok(None));
    storage.create("stg").unwrap();
    let located = storage.drive(ProbeStage::Start, |stage, reply| stg.get_location(stage, reply));
    assert_eq!(located, Ok(Some("/data/dalamud-branches/stg".to_string())));
}

#[test]
fn installations_are_equal_when_their_names_are() {
    assert_eq!(handle("stg"), handle("stg"));
    assert_ne!(handle("stg"), handle("release"));
    assert_eq!(handle("stg").clone(), handle("stg"));
}

#[test]
fn resources_are_named_by_their_url() {
    let resource = RemoteResource::from_url("https://example.org/a.zip".to_string());
    assert_eq!(resource.url, "https://example.org/a.zip");
}
