use nael_core::commands::active::{Active, ActiveReport, OutputFormat};
use nael_core::commands::info::{Info, InfoReport};
use nael_core::commands::install::{Install, InstallReport};
use nael_core::commands::list::{List, ListReport, ListedBranch};
use nael_core::commands::remove::{Remove, RemoveReport};
use nael_core::commands::select::{Use, UseReport};
use nael_core::commands::symlink_path::SymlinkPath;
use nael_core::commands::update::{Update, UpdateOutcome, UpdateReport};
use nael_core::commands::update_all::{UpdateAll, UpdateAllReport};
use nael_core::commands::RunnableCommand;
use nael_core::exchange::{Error, Failure, Reply, Request, Step};
use nael_core::info::InfoStage;
use nael_core::install::{CreateStage, InstallStage, Installed, RemoveStage};
use nael_core::management::{
    ActivateStage, ActiveStage, DalamudInstallation, ListStage, ProbeStage, UnsetStage,
};
use nael_core::sources::{GoatcorpReleaseSource, ReleaseSource};
use nael_core::update::Availability;
use nael_core::version_info::DalamudVersionInfo;
use serde_json::Value;
use std::collections::BTreeMap;

/// What one installed branch holds.
#[derive(Clone, Debug, PartialEq)]
struct Folder {
    archive: Vec<u8>,
    version_file: Option<String>,
}

/// Storage and release host held in memory, answering requests as a faithful
/// caller on sound storage would.
#[derive(Default)]
struct Storage {
    branches: BTreeMap<String, Folder>,
    pointer: Option<String>,
    staged: Option<Vec<u8>>,
    archives: BTreeMap<String, Vec<u8>>,
    texts: BTreeMap<String, String>,
    asked: Vec<Request>,
}

fn text_field(object: &serde_json::Map<String, Value>, key: &str) -> Result<Option<String>, ()> {
    match object.get(key) {
        None | Some(Value::Null) => Ok(None),
        Some(Value::String(text)) => Ok(Some(text.clone())),
        Some(_) => Err(()),
    }
}

fn decode(text: &str) -> Option<DalamudVersionInfo> {
    let value: Value = serde_json::from_str(text).ok()?;
    let object = value.as_object()?;
    Some(DalamudVersionInfo {
        assembly_version: text_field(object, "AssemblyVersion").ok()??,
        git_sha: text_field(object, "GitSha").ok()?,
        revision: text_field(object, "Revision").ok()?,
    })
}

impl Storage {
    fn serving(branches: &[&str]) -> Storage {
        let mut storage = Storage::default();
        let source = GoatcorpReleaseSource;
        for branch in branches {
            storage.archives.insert(
                source.get_release_archive_file(branch).url,
                format!("archive of {branch}").into_bytes(),
            );
            storage.texts.insert(
                source.get_version_info_file(branch).url,
                format!("{{\"AssemblyVersion\":\"1.0.0.0\",\"GitSha\":\"{branch}\"}}"),
            );
        }
        storage
    }

    fn place(branch: &str) -> String {
        format!("/data/dalamud-branches/{branch}")
    }

    fn perform(&mut self, request: Request) -> Reply {
        self.asked.push(request.clone());
        match request {
            Request::ProbeBranch { branch } => Reply::Branch {
                location: Storage::place(&branch),
                present: self.branches.contains_key(&branch),
            },
            Request::ListBranches => Reply::Entries(Some(self.branches.keys().cloned().collect())),
            Request::ReadActiveLink => match self.pointer {
                Some(_) => Reply::Done,
                None => Reply::Failed(Failure::NotFound),
            },
            Request::ResolveActiveLink => match &self.pointer {
                Some(branch) if self.branches.contains_key(branch) => {
                    Reply::Target(Some(branch.clone()))
                }
                _ => Reply::Failed(Failure::NotFound),
            },
            Request::RemoveActiveLink => match self.pointer.take() {
                Some(_) => Reply::Done,
                None => Reply::Failed(Failure::NotFound),
            },
            Request::CreateActiveLink { branch } => match self.pointer {
                Some(_) => Reply::Failed(Failure::Other),
                None => {
                    self.pointer = Some(branch);
                    Reply::Done
                }
            },
            Request::LocateActiveLink => Reply::Location("/config/active".to_string()),
            Request::DownloadArchive { resource } => match self.archives.get(&resource.url) {
                Some(archive) => {
                    self.staged = Some(archive.clone());
                    Reply::Done
                }
                None => Reply::Failed(Failure::Network),
            },
            Request::RemoveBranch { branch } => match self.branches.remove(&branch) {
                Some(_) => Reply::Done,
                None => Reply::Failed(Failure::NotFound),
            },
            Request::ExtractArchive { branch } => match &self.staged {
                Some(archive) => {
                    let version_file =
                        self.branches.get(&branch).and_then(|folder| folder.version_file.clone());
                    self.branches
                        .insert(branch, Folder { archive: archive.clone(), version_file });
                    Reply::Done
                }
                None => Reply::Failed(Failure::NotFound),
            },
            Request::DiscardArchive => {
                self.staged = None;
                Reply::Done
            }
            Request::DownloadVersionInfo { resource, branch } => {
                match (self.texts.get(&resource.url), self.branches.get_mut(&branch)) {
                    (None, _) => Reply::Failed(Failure::Network),
                    (Some(_), None) => Reply::Failed(Failure::NotFound),
                    (Some(text), Some(folder)) => {
                        folder.version_file = Some(text.clone());
                        Reply::Done
                    }
                }
            }
            Request::ReadVersionInfo { branch } => Reply::Text(
                self.branches.get(&branch).and_then(|folder| folder.version_file.clone()),
            ),
            Request::FetchText { resource } => match self.texts.get(&resource.url) {
                Some(text) => Reply::Text(Some(text.clone())),
                None => Reply::Failed(Failure::Network),
            },
            Request::DecodeVersionInfo { text } => Reply::Decoded(decode(&text)),
        }
    }

    /// Runs a procedure to its end, carrying out each request it makes.
    fn drive<S, T>(
        &mut self,
        first: S,
        mut step: impl FnMut(S, Option<Reply>) -> Step<S, T>,
    ) -> Result<T, Error> {
        let mut stage = first;
        let mut reply = None;
        loop {
            match step(stage, reply) {
                Step::Perform(next, request) => {
                    reply = Some(self.perform(request));
                    stage = next;
                }
                Step::Finish(outcome) => return outcome,
            }
        }
    }

    fn is_installed(&mut self, branch: &str) -> Result<bool, Error> {
        self.drive(ProbeStage::Start, |stage, reply| {
            DalamudInstallation::is_installed(branch, stage, reply)
        })
    }

    fn get(&mut self, branch: &str) -> Result<Option<DalamudInstallation>, Error> {
        self.drive(ProbeStage::Start, |stage, reply| DalamudInstallation::get(branch, stage, reply))
    }

    fn get_all(&mut self) -> Result<Option<Vec<DalamudInstallation>>, Error> {
        self.drive(ListStage::Start, DalamudInstallation::get_all)
    }

    fn get_active(&mut self) -> Result<Option<DalamudInstallation>, Error> {
        self.drive(ActiveStage::Start, DalamudInstallation::get_active)
    }

    fn is_active(&mut self, branch: &str) -> Result<bool, Error> {
        let installation = handle(branch);
        self.drive(ActiveStage::Start, |stage, reply| installation.is_active(stage, reply))
    }

    fn set_active(&mut self, branch: &str) -> Result<(), Error> {
        let installation = handle(branch);
        self.drive(ActivateStage::Start, |stage, reply| installation.set_active(stage, reply))
    }

    fn unset_active(&mut self) -> Result<(), Error> {
        self.drive(UnsetStage::Start, DalamudInstallation::unset_active)
    }

    fn create(&mut self, branch: &str) -> Result<Installed, Error> {
        self.drive(CreateStage::Start, |stage, reply| {
            DalamudInstallation::create(branch, &GoatcorpReleaseSource, stage, reply)
        })
    }

    fn update(&mut self, branch: &str) -> Result<Installed, Error> {
        let installation = handle(branch);
        self.drive(InstallStage::Start, |stage, reply| {
            installation.update(&GoatcorpReleaseSource, stage, reply)
        })
    }

    fn remove(&mut self, branch: &str) -> Result<(), Error> {
        let installation = handle(branch);
        self.drive(RemoveStage::Start, |stage, reply| installation.remove(stage, reply))
    }

    fn run<C: RunnableCommand>(&mut self, command: &C) -> Result<C::Report, Error> {
        let first = command.begin();
        self.drive(first, |stage, reply| command.run(&GoatcorpReleaseSource, stage, reply))
    }
}

fn handle(branch: &str) -> DalamudInstallation {
    DalamudInstallation { branch_name: branch.to_string() }
}

fn names(installations: Option<Vec<DalamudInstallation>>) -> Option<Vec<String>> {
    installations.map(|all| all.into_iter().map(|one| one.branch_name).collect())
}

fn served_version(branch: &str) -> DalamudVersionInfo {
    DalamudVersionInfo {
        assembly_version: "1.0.0.0".to_string(),
        git_sha: Some(branch.to_string()),
        revision: None,
    }
}

fn publish(storage: &mut Storage, branch: &str, assembly_version: &str) {
    storage.texts.insert(
        GoatcorpReleaseSource.get_version_info_file(branch).url,
        format!("{{\"AssemblyVersion\":\"{assembly_version}\",\"GitSha\":\"{branch}\"}}"),
    );
    storage.archives.insert(
        GoatcorpReleaseSource.get_release_archive_file(branch).url,
        format!("archive {assembly_version} of {branch}").into_bytes(),
    );
}

fn update(branch: Option<&str>, force: bool, check: bool) -> Update {
    Update { branch_name: branch.map(str::to_string), force, check }
}

#[test]
fn install_reports_the_installed_version() {
    let mut storage = Storage::serving(&["stg"]);
    let report = storage.run(&Install { branch_name: "stg".to_string() });
    assert_eq!(
        report,
        Ok(InstallReport::Installed {
            version: Some("1.0.0.0".to_string()),
            version_info_recorded: true
        })
    );
    assert!(storage.branches.contains_key("stg"));
}

#[test]
fn install_without_version_info_reports_no_version() {
    let mut storage = Storage::serving(&["stg"]);
    storage.texts.clear();
    let report = storage.run(&Install { branch_name: "stg".to_string() });
    assert_eq!(
        report,
        Ok(InstallReport::Installed { version: None, version_info_recorded: false })
    );
}

#[test]
fn install_refuses_an_installed_branch() {
    let mut storage = Storage::serving(&["stg"]);
    storage.create("stg").unwrap();
    storage.asked.clear();
    let report = storage.run(&Install { branch_name: "stg".to_string() });
    assert_eq!(report, Ok(InstallReport::AlreadyInstalled));
    assert_eq!(storage.asked, vec![Request::ProbeBranch { branch: "stg".to_string() }]);
}

#[test]
fn install_reports_a_failed_installation() {
    let mut storage = Storage::serving(&[]);
    let report = storage.run(&Install { branch_name: "stg".to_string() });
    assert_eq!(report, Ok(InstallReport::Failed(Error::Network)));
    assert!(!storage.branches.contains_key("stg"));
}

#[test]
fn update_check_reports_up_to_date_on_equal_versions() {
    let mut storage = Storage::serving(&["stg"]);
    storage.create("stg").unwrap();
    let report = storage.run(&update(Some("stg"), false, true)).unwrap();
    assert_eq!(report.branch, Some("stg".to_string()));
    match report.outcome {
        UpdateOutcome::Checked(comparison) => {
            assert!(comparison.up_to_date);
            assert_eq!(comparison.local, Availability::Known(served_version("stg")));
            assert_eq!(comparison.remote, Availability::Known(served_version("stg")));
        }
        other => panic!("unexpected outcome {other:?}"),
    }
}

#[test]
fn update_check_reports_out_of_date_on_differing_versions() {
    let mut storage = Storage::serving(&["stg"]);
    storage.create("stg").unwrap();
    publish(&mut storage, "stg", "1.0.0.1");
    let before = storage.branches.clone();
    let report = storage.run(&update(Some("stg"), false, true)).unwrap();
    match report.outcome {
        UpdateOutcome::Checked(comparison) => assert!(!comparison.up_to_date),
        other => panic!("unexpected outcome {other:?}"),
    }
    assert_eq!(storage.branches, before);
}

#[test]
fn update_leaves_a_current_branch_alone() {
    let mut storage = Storage::serving(&["stg"]);
    storage.create("stg").unwrap();
    storage.asked.clear();
    let report = storage.run(&update(Some("stg"), false, false)).unwrap();
    assert!(matches!(report.outcome, UpdateOutcome::AlreadyUpToDate(_)));
    assert!(storage.asked.iter().all(|request| !matches!(request, Request::DownloadArchive { .. })));
}

#[test]
fn update_replaces_an_outdated_branch() {
    let mut storage = Storage::serving(&["stg"]);
    storage.create("stg").unwrap();
    publish(&mut storage, "stg", "1.0.0.1");
    let report = storage.run(&update(Some("stg"), false, false)).unwrap();
    match report.outcome {
        UpdateOutcome::Updated { comparison: Some(comparison), version_info_recorded } => {
            assert!(!comparison.up_to_date);
            assert!(version_info_recorded);
        }
        other => panic!("unexpected outcome {other:?}"),
    }
    assert_eq!(storage.branches["stg"].archive, b"archive 1.0.0.1 of stg".to_vec());
}

#[test]
fn update_without_local_version_info_assumes_out_of_date() {
    let mut storage = Storage::serving(&["stg"]);
    storage.create("stg").unwrap();
    storage.branches.get_mut("stg").unwrap().version_file = None;
    let report = storage.run(&update(Some("stg"), false, false)).unwrap();
    match report.outcome {
        UpdateOutcome::Updated { comparison: Some(comparison), .. } => {
            assert_eq!(comparison.local, Availability::Missing);
        }
        other => panic!("unexpected outcome {other:?}"),
    }
}

#[test]
fn forced_update_does_not_compare() {
    let mut storage = Storage::serving(&["stg"]);
    storage.create("stg").unwrap();
    storage.asked.clear();
    let report = storage.run(&update(Some("stg"), true, false)).unwrap();
    assert_eq!(
        report,
        UpdateReport {
            branch: Some("stg".to_string()),
            outcome: UpdateOutcome::Updated { comparison: None, version_info_recorded: true },
        }
    );
    assert!(storage
        .asked
        .iter()
        .all(|request| !matches!(request, Request::ReadVersionInfo { .. })));
}

#[test]
fn update_without_a_name_takes_the_active_branch() {
    let mut storage = Storage::serving(&["stg"]);
    storage.create("stg").unwrap();
    storage.set_active("stg").unwrap();
    let report = storage.run(&update(None, true, false)).unwrap();
    assert_eq!(report.branch, Some("stg".to_string()));
    assert!(matches!(report.outcome, UpdateOutcome::Updated { .. }));
}

#[test]
fn update_without_a_name_needs_an_active_branch() {
    let mut storage = Storage::serving(&["stg"]);
    storage.create("stg").unwrap();
    let report = storage.run(&update(None, false, false));
    assert_eq!(report, Ok(UpdateReport { branch: None, outcome: UpdateOutcome::NoBranch }));
}

#[test]
fn update_requires_an_installed_branch() {
    let mut storage = Storage::serving(&["stg"]);
    let report = storage.run(&update(Some("stg"), true, false));
    assert_eq!(
        report,
        Ok(UpdateReport { branch: Some("stg".to_string()), outcome: UpdateOutcome::NotInstalled })
    );
}

#[test]
fn failed_update_is_reported() {
    let mut storage = Storage::serving(&["stg"]);
    storage.create("stg").unwrap();
    storage.archives.clear();
    let report = storage.run(&update(Some("stg"), true, false)).unwrap();
    assert_eq!(report.outcome, UpdateOutcome::Failed { comparison: None });
    assert!(storage.branches.contains_key("stg"));
}

#[test]
fn update_all_updates_only_outdated_branches() {
    let mut storage = Storage::serving(&["release", "stg"]);
    storage.create("release").unwrap();
    storage.create("stg").unwrap();
    publish(&mut storage, "stg", "2.0.0.0");
    match storage.run(&UpdateAll).unwrap() {
        UpdateAllReport::Finished(progress) => {
            assert_eq!(progress.names, vec!["release".to_string(), "stg".to_string()]);
            assert_eq!(progress.updated, vec!["stg".to_string()]);
            assert_eq!(progress.comparisons.len(), 2);
            assert!(progress.comparisons[0].up_to_date);
            assert!(!progress.comparisons[1].up_to_date);
        }
        other => panic!("unexpected report {other:?}"),
    }
    assert_eq!(storage.branches["stg"].archive, b"archive 2.0.0.0 of stg".to_vec());
    assert_eq!(storage.branches["release"].archive, b"archive of release".to_vec());
}

#[test]
fn update_all_stops_at_the_first_failure() {
    let mut storage = Storage::serving(&["release", "stg"]);
    storage.create("release").unwrap();
    storage.create("stg").unwrap();
    publish(&mut storage, "release", "2.0.0.0");
    publish(&mut storage, "stg", "2.0.0.0");
    storage.archives.remove(&GoatcorpReleaseSource.get_release_archive_file("release").url);
    match storage.run(&UpdateAll).unwrap() {
        UpdateAllReport::Failed { branch, progress } => {
            assert_eq!(branch, "release");
            assert!(progress.updated.is_empty());
            assert_eq!(progress.comparisons.len(), 1);
        }
        other => panic!("unexpected report {other:?}"),
    }
    assert_eq!(storage.branches["stg"].archive, b"archive of stg".to_vec());
}

#[test]
fn update_all_needs_installations() {
    let mut storage = Storage::serving(&["stg"]);
    assert_eq!(storage.run(&UpdateAll), Ok(UpdateAllReport::NoInstallations));
}

#[test]
fn remove_command_removes_an_installed_branch() {
    let mut storage = Storage::serving(&["stg"]);
    storage.create("stg").unwrap();
    storage.set_active("stg").unwrap();
    assert_eq!(storage.run(&Remove { branch_name: "stg".to_string() }), Ok(RemoveReport::Removed));
    assert!(storage.branches.is_empty());
    assert_eq!(storage.pointer, None);
    assert_eq!(
        storage.run(&Remove { branch_name: "stg".to_string() }),
        Ok(RemoveReport::NotInstalled)
    );
}

#[test]
fn use_command_activates_an_installed_branch() {
    let mut storage = Storage::serving(&["stg"]);
    assert_eq!(storage.run(&Use { branch_name: "stg".to_string() }), Ok(UseReport::NotInstalled));
    storage.create("stg").unwrap();
    assert_eq!(storage.run(&Use { branch_name: "stg".to_string() }), Ok(UseReport::Activated));
    assert_eq!(storage.pointer, Some("stg".to_string()));
}

#[test]
fn use_command_reports_why_activation_failed() {
    let command = Use { branch_name: "stg".to_string() };
    let step = command.run(
        &GoatcorpReleaseSource,
        nael_core::commands::select::UseStage::Activating(ActivateStage::Linking),
        Some(Reply::Failed(Failure::PermissionDenied)),
    );
    assert_eq!(step, Step::Finish(Ok(UseReport::Failed(Error::SymlinkPermissionDenied))));
}

#[test]
fn active_command_reports_name_or_path() {
    let mut storage = Storage::serving(&["stg"]);
    storage.create("stg").unwrap();
    storage.set_active("stg").unwrap();
    let by_name = Active { format: OutputFormat::default(), empty_if_none: false };
    assert_eq!(storage.run(&by_name), Ok(ActiveReport::Name("stg".to_string())));
    let by_path = Active { format: OutputFormat::Path, empty_if_none: false };
    assert_eq!(
        storage.run(&by_path),
        Ok(ActiveReport::Path("/data/dalamud-branches/stg".to_string()))
    );
}

#[test]
fn active_command_without_active_branch() {
    let mut storage = Storage::serving(&["stg"]);
    let loud = Active { format: OutputFormat::Name, empty_if_none: false };
    assert_eq!(storage.run(&loud), Ok(ActiveReport::NoActiveBranch));
    let quiet = Active { format: OutputFormat::Path, empty_if_none: true };
    assert_eq!(storage.run(&quiet), Ok(ActiveReport::Nothing));
}

#[test]
fn list_command_marks_the_active_branch() {
    let mut storage = Storage::serving(&["release", "stg", "canary"]);
    assert_eq!(storage.run(&List), Ok(ListReport::Nothing));
    storage.create("release").unwrap();
    storage.create("stg").unwrap();
    storage.create("canary").unwrap();
    storage.set_active("release").unwrap();
    let line = |name: &str, active: bool| ListedBranch { name: name.to_string(), active };
    assert_eq!(
        storage.run(&List),
        Ok(ListReport::Branches(vec![
            line("canary", false),
            line("release", true),
            line("stg", false)
        ]))
    );
}

#[test]
fn list_command_counts_a_failed_check_as_not_active() {
    let stage = nael_core::commands::list::ListCommandStage::Marking {
        names: vec!["stg".to_string()],
        marks: vec![],
        stage: ActiveStage::ReadingLink,
    };
    let step = List.run(&GoatcorpReleaseSource, stage, Some(Reply::Failed(Failure::Other)));
    assert_eq!(
        step,
        Step::Finish(Ok(ListReport::Branches(vec![ListedBranch {
            name: "stg".to_string(),
            active: false
        }])))
    );
}

#[test]
fn info_command_reports_local_details() {
    let mut storage = Storage::serving(&["stg"]);
    let local = Info { branch_name: "stg".to_string(), json: false, remote: false };
    assert_eq!(storage.run(&local), Ok(InfoReport::NotInstalled));
    storage.create("stg").unwrap();
    assert_eq!(
        storage.run(&local),
        Ok(InfoReport::Details { info: served_version("stg"), remote: false })
    );
    storage.branches.get_mut("stg").unwrap().version_file = None;
    assert_eq!(storage.run(&local), Ok(InfoReport::NoVersionInfo));
}

#[test]
fn info_command_reports_local_json() {
    let mut storage = Storage::serving(&["stg"]);
    storage.create("stg").unwrap();
    storage.branches.get_mut("stg").unwrap().version_file =
        Some("  {\"AssemblyVersion\":\"3\"}\n".to_string());
    let json = Info { branch_name: "stg".to_string(), json: true, remote: false };
    assert_eq!(storage.run(&json), Ok(InfoReport::Json("{\"AssemblyVersion\":\"3\"}".to_string())));
    storage.branches.get_mut("stg").unwrap().version_file = Some("{".to_string());
    assert_eq!(storage.run(&json), Err(Error::MalformedVersionInfo));
}

#[test]
fn info_command_reports_remote_information() {
    let mut storage = Storage::serving(&["stg"]);
    let details = Info { branch_name: "stg".to_string(), json: false, remote: true };
    assert_eq!(
        storage.run(&details),
        Ok(InfoReport::Details { info: served_version("stg"), remote: true })
    );
    let url = GoatcorpReleaseSource.get_version_info_file("stg").url;
    storage.texts.insert(url.clone(), "  <html>\n".to_string());
    assert_eq!(storage.run(&details), Ok(InfoReport::Undecodable));
    let json = Info { branch_name: "stg".to_string(), json: true, remote: true };
    assert_eq!(storage.run(&json), Ok(InfoReport::Json("<html>".to_string())));
    storage.texts.clear();
    assert_eq!(storage.run(&json), Err(Error::Network));
    assert_eq!(storage.run(&details), Err(Error::Network));
}

#[test]
fn symlink_path_command_reports_the_pointer_place() {
    let mut storage = Storage::serving(&[]);
    assert_eq!(storage.run(&SymlinkPath), Ok("/config/active".to_string()));
    assert_eq!(storage.asked, vec![Request::LocateActiveLink]);
}

#[test]
fn version_info_survives_being_stored_and_read_back() {
    let mut storage = Storage::serving(&["stg"]);
    storage.create("stg").unwrap();
    let written = DalamudVersionInfo {
        assembly_version: "9.1.0.9".to_string(),
        git_sha: Some("0a1b2c".to_string()),
        revision: None,
    };
    let mut document = serde_json::Map::new();
    document.insert("AssemblyVersion".to_string(), Value::String(written.assembly_version.clone()));
    document.insert("GitSha".to_string(), Value::String("0a1b2c".to_string()));
    document.insert("Revision".to_string(), Value::Null);
    storage.branches.get_mut("stg").unwrap().version_file =
        Some(serde_json::to_string_pretty(&Value::Object(document)).unwrap());
    let stg = handle("stg");
    let read = storage.drive(InfoStage::Start, |stage, reply| stg.get_version_info(stage, reply));
    assert_eq!(read, Ok(Some(written)));
}
