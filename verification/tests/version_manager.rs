use nael_core::commands::current::{Current, CurrentReport};
use nael_core::commands::list::ListedBranch;
use nael_core::commands::versions::{
    Guarded, Install, List, Outcome, Remove, Update, Use, VersionList,
};
use nael_core::commands::RunnableCommand;
use nael_core::exchange::{Error, Failure, Reply, Request, Step};
use nael_core::management::{ListStage, ProbeStage};
use nael_core::net::RemoteResource;
use nael_core::sources::GoatcorpReleaseSource;
use nael_core::version_manager::{
    CurrentStage, DalamudVersionManager, SetCurrentStage, UnsetCurrentStage, VersionCreateStage,
    VersionRemoveStage,
};

/// Runs a procedure against replies given in advance, and tells what it
/// asked for and how it ended.
fn play<S, T>(
    first: S,
    replies: Vec<Reply>,
    mut step: impl FnMut(S, Option<Reply>) -> Step<S, T>,
) -> (Vec<Request>, Result<T, Error>) {
    let mut replies = replies.into_iter();
    let mut asked = Vec::new();
    let mut stage = first;
    let mut reply = None;
    loop {
        match step(stage, reply) {
            Step::Perform(next, request) => {
                asked.push(request);
                stage = next;
                reply = Some(replies.next().expect("the procedure asked for more than foreseen"));
            }
            Step::Finish(outcome) => {
                assert!(replies.next().is_none(), "the procedure ended early");
                return (asked, outcome);
            }
        }
    }
}

fn probe(present: bool) -> Reply {
    Reply::Branch { location: "/data/dalamud-versions/stg".to_string(), present }
}

fn stg() -> String {
    "stg".to_string()
}

fn archive() -> RemoteResource {
    RemoteResource::from_url("https://goatcorp.github.io/dalamud-distrib/stg/latest.zip".to_string())
}

fn info() -> RemoteResource {
    RemoteResource::from_url("https://goatcorp.github.io/dalamud-distrib/stg/version".to_string())
}

#[test]
fn version_is_installed_from_the_official_distribution() {
    let (asked, outcome) = play(
        VersionCreateStage::Start,
        vec![probe(false), Reply::Done, Reply::Done, Reply::Done, Reply::Done],
        |stage, reply| DalamudVersionManager::create("stg", false, stage, reply),
    );
    assert_eq!(outcome, Ok(true));
    assert_eq!(
        asked,
        vec![
            Request::ProbeBranch { branch: stg() },
            Request::DownloadArchive { resource: archive() },
            Request::ExtractArchive { branch: stg() },
            Request::DownloadVersionInfo { resource: info(), branch: stg() },
            Request::DiscardArchive,
        ]
    );
}

#[test]
fn installed_version_is_refused_unless_replaced() {
    let (asked, outcome) = play(VersionCreateStage::Start, vec![probe(true)], |stage, reply| {
        DalamudVersionManager::create("stg", false, stage, reply)
    });
    assert_eq!(outcome, Err(Error::AlreadyExists));
    assert_eq!(asked, vec![Request::ProbeBranch { branch: stg() }]);
}

#[test]
fn replaced_version_is_deleted_before_the_download() {
    let (asked, outcome) = play(
        VersionCreateStage::Start,
        vec![
            probe(true),
            Reply::Done,
            Reply::Done,
            Reply::Done,
            Reply::Failed(Failure::Network),
            Reply::Done,
        ],
        |stage, reply| DalamudVersionManager::create("stg", true, stage, reply),
    );
    assert_eq!(outcome, Ok(false));
    assert_eq!(asked[1], Request::RemoveBranch { branch: stg() });
    assert_eq!(asked[2], Request::DownloadArchive { resource: archive() });
}

#[test]
fn version_download_failure_ends_the_installation() {
    let (_, outcome) = play(
        VersionCreateStage::Start,
        vec![probe(false), Reply::Failed(Failure::Network)],
        |stage, reply| DalamudVersionManager::create("stg", false, stage, reply),
    );
    assert_eq!(outcome, Err(Error::Network));
}

#[test]
fn failing_to_give_up_the_download_is_an_error() {
    let step = DalamudVersionManager::create(
        "stg",
        false,
        VersionCreateStage::Discarding(true),
        Some(Reply::Failed(Failure::Other)),
    );
    assert_eq!(step, Step::Finish(Err(Error::Io)));
}

#[test]
fn removing_the_current_version_unsets_it_first() {
    let (asked, outcome) = play(
        VersionRemoveStage::Start,
        vec![
            probe(true),
            Reply::Target(Some(stg())),
            Reply::Target(Some(stg())),
            Reply::Done,
            Reply::Done,
        ],
        |stage, reply| DalamudVersionManager::remove("stg", stage, reply),
    );
    assert_eq!(outcome, Ok(()));
    assert_eq!(
        asked,
        vec![
            Request::ProbeBranch { branch: stg() },
            Request::ResolveActiveLink,
            Request::ResolveActiveLink,
            Request::RemoveActiveLink,
            Request::RemoveBranch { branch: stg() },
        ]
    );
}

#[test]
fn removing_another_version_leaves_the_current_one() {
    let (asked, outcome) = play(
        VersionRemoveStage::Start,
        vec![probe(true), Reply::Target(Some("release".to_string())), Reply::Done],
        |stage, reply| DalamudVersionManager::remove("stg", stage, reply),
    );
    assert_eq!(outcome, Ok(()));
    assert!(!asked.contains(&Request::RemoveActiveLink));
}

#[test]
fn removing_an_absent_version_fails() {
    let (_, outcome) = play(VersionRemoveStage::Start, vec![probe(false)], |stage, reply| {
        DalamudVersionManager::remove("stg", stage, reply)
    });
    assert_eq!(outcome, Err(Error::NotInstalled));
}

#[test]
fn version_presence_is_probed() {
    let (asked, outcome) = play(ProbeStage::Start, vec![probe(true)], |stage, reply| {
        DalamudVersionManager::is_installed("stg", stage, reply)
    });
    assert_eq!(outcome, Ok(true));
    assert_eq!(asked, vec![Request::ProbeBranch { branch: stg() }]);
}

#[test]
fn installed_versions_are_listed_in_ascending_order() {
    let entries = vec!["stg", "canary", "release", "Stable", "api10", "api9", "", "canary"];
    let entries = entries.into_iter().map(str::to_string).collect();
    let (_, outcome) = play(
        ListStage::Start,
        vec![Reply::Entries(Some(entries))],
        DalamudVersionManager::get_all_installed,
    );
    assert_eq!(
        outcome.unwrap(),
        vec!["", "Stable", "api10", "api9", "canary", "canary", "release", "stg"]
    );
}

#[test]
fn absent_versions_directory_lists_nothing() {
    let (_, outcome) =
        play(ListStage::Start, vec![Reply::Entries(None)], DalamudVersionManager::get_all_installed);
    assert_eq!(outcome, Ok(vec![]));
    let (_, outcome) = play(
        ListStage::Start,
        vec![Reply::Failed(Failure::Other)],
        DalamudVersionManager::get_all_installed,
    );
    assert_eq!(outcome, Err(Error::Io));
}

#[test]
fn current_version_follows_the_pointer() {
    let (asked, outcome) = play(
        CurrentStage::Start,
        vec![Reply::Target(Some(stg()))],
        DalamudVersionManager::get_current,
    );
    assert_eq!(outcome, Ok(Some(stg())));
    assert_eq!(asked, vec![Request::ResolveActiveLink]);
    let (_, outcome) = play(
        CurrentStage::Start,
        vec![Reply::Failed(Failure::NotFound)],
        DalamudVersionManager::get_current,
    );
    assert_eq!(outcome, Ok(None));
    let (_, outcome) = play(
        CurrentStage::Start,
        vec![Reply::Failed(Failure::PermissionDenied)],
        DalamudVersionManager::get_current,
    );
    assert_eq!(outcome, Err(Error::Io));
}

#[test]
fn setting_the_current_version_overlooks_the_old_pointer() {
    let (asked, outcome) = play(
        SetCurrentStage::Start,
        vec![probe(true), Reply::Failed(Failure::Other), Reply::Done],
        |stage, reply| DalamudVersionManager::set_current("stg", stage, reply),
    );
    assert_eq!(outcome, Ok(()));
    assert_eq!(
        asked,
        vec![
            Request::ProbeBranch { branch: stg() },
            Request::RemoveActiveLink,
            Request::CreateActiveLink { branch: stg() },
        ]
    );
    let (_, outcome) = play(SetCurrentStage::Start, vec![probe(false)], |stage, reply| {
        DalamudVersionManager::set_current("stg", stage, reply)
    });
    assert_eq!(outcome, Err(Error::NotInstalled));
    let (_, outcome) = play(
        SetCurrentStage::Start,
        vec![probe(true), Reply::Done, Reply::Failed(Failure::PermissionDenied)],
        |stage, reply| DalamudVersionManager::set_current("stg", stage, reply),
    );
    assert_eq!(outcome, Err(Error::Io));
}

#[test]
fn unsetting_the_current_version() {
    let (asked, outcome) = play(
        UnsetCurrentStage::Start,
        vec![Reply::Target(Some(stg())), Reply::Done],
        DalamudVersionManager::unset_current,
    );
    assert_eq!(outcome, Ok(()));
    assert_eq!(asked, vec![Request::ResolveActiveLink, Request::RemoveActiveLink]);
    let (asked, outcome) = play(
        UnsetCurrentStage::Start,
        vec![Reply::Failed(Failure::NotFound)],
        DalamudVersionManager::unset_current,
    );
    assert_eq!(outcome, Ok(()));
    assert_eq!(asked, vec![Request::ResolveActiveLink]);
    let (_, outcome) = play(
        UnsetCurrentStage::Start,
        vec![Reply::Target(Some(stg())), Reply::Failed(Failure::NotFound)],
        DalamudVersionManager::unset_current,
    );
    assert_eq!(outcome, Err(Error::NotFound));
}

#[test]
fn current_command_reports_version_and_link() {
    let command = Current {};
    let (asked, outcome) = play(
        command.begin(),
        vec![Reply::Target(Some(stg())), Reply::Location("/config/current".to_string())],
        |stage, reply| command.run(&GoatcorpReleaseSource, stage, reply),
    );
    assert_eq!(
        outcome,
        Ok(CurrentReport::Using { version: stg(), linked_at: "/config/current".to_string() })
    );
    assert_eq!(asked, vec![Request::ResolveActiveLink, Request::LocateActiveLink]);
}

#[test]
fn current_command_without_a_version_in_use() {
    let command = Current {};
    let (_, outcome) =
        play(command.begin(), vec![Reply::Failed(Failure::NotFound)], |stage, reply| {
            command.run(&GoatcorpReleaseSource, stage, reply)
        });
    assert_eq!(outcome, Ok(CurrentReport::NotInUse));
    let (_, outcome) =
        play(command.begin(), vec![Reply::Failed(Failure::Other)], |stage, reply| {
            command.run(&GoatcorpReleaseSource, stage, reply)
        });
    assert_eq!(outcome, Ok(CurrentReport::Failed(Error::Io)));
}

#[test]
fn install_version_command_reports_success_and_failure() {
    let command = Install { branch: stg(), replace: false };
    let (_, outcome) = play(
        command.begin(),
        vec![probe(false), Reply::Done, Reply::Done, Reply::Failed(Failure::Network), Reply::Done],
        |stage, reply| command.run(&GoatcorpReleaseSource, stage, reply),
    );
    assert_eq!(outcome, Ok(Outcome::Done(false)));
    let (_, outcome) = play(command.begin(), vec![probe(true)], |stage, reply| {
        command.run(&GoatcorpReleaseSource, stage, reply)
    });
    assert_eq!(outcome, Ok(Outcome::Failed(Error::AlreadyExists)));
    let replacing = Install { branch: stg(), replace: true };
    let (asked, outcome) = play(
        replacing.begin(),
        vec![probe(true), Reply::Done, Reply::Done, Reply::Done, Reply::Done, Reply::Done],
        |stage, reply| replacing.run(&GoatcorpReleaseSource, stage, reply),
    );
    assert_eq!(outcome, Ok(Outcome::Done(true)));
    assert_eq!(asked[1], Request::RemoveBranch { branch: stg() });
}

#[test]
fn remove_version_command_reports_success_and_failure() {
    let command = Remove { branch: stg() };
    let (_, outcome) = play(command.begin(), vec![probe(false)], |stage, reply| {
        command.run(&GoatcorpReleaseSource, stage, reply)
    });
    assert_eq!(outcome, Ok(Outcome::Failed(Error::NotInstalled)));
    let (_, outcome) = play(
        command.begin(),
        vec![probe(true), Reply::Failed(Failure::NotFound), Reply::Done],
        |stage, reply| command.run(&GoatcorpReleaseSource, stage, reply),
    );
    assert_eq!(outcome, Ok(Outcome::Done(true)));
}

#[test]
fn update_version_command_requires_an_installed_version() {
    let command = Update { branch: stg() };
    let (asked, outcome) = play(command.begin(), vec![probe(false)], |stage, reply| {
        command.run(&GoatcorpReleaseSource, stage, reply)
    });
    assert_eq!(outcome, Ok(Outcome::NotInstalled));
    assert_eq!(asked, vec![Request::ProbeBranch { branch: stg() }]);
}

#[test]
fn update_version_command_replaces_the_version() {
    let command = Update { branch: stg() };
    let (asked, outcome) = play(
        command.begin(),
        vec![
            probe(true),
            probe(true),
            Reply::Done,
            Reply::Done,
            Reply::Done,
            Reply::Done,
            Reply::Done,
        ],
        |stage, reply| command.run(&GoatcorpReleaseSource, stage, reply),
    );
    assert_eq!(outcome, Ok(Outcome::Done(true)));
    assert_eq!(
        asked,
        vec![
            Request::ProbeBranch { branch: stg() },
            Request::ProbeBranch { branch: stg() },
            Request::RemoveBranch { branch: stg() },
            Request::DownloadArchive { resource: archive() },
            Request::ExtractArchive { branch: stg() },
            Request::DownloadVersionInfo { resource: info(), branch: stg() },
            Request::DiscardArchive,
        ]
    );
    let step = command.run(
        &GoatcorpReleaseSource,
        Guarded::Running(VersionCreateStage::Downloading),
        Some(Reply::Failed(Failure::Network)),
    );
    assert_eq!(step, Step::Finish(Ok(Outcome::Failed(Error::Network))));
}

#[test]
fn use_version_command_switches_to_an_installed_version() {
    let command = Use { branch: stg() };
    let (_, outcome) = play(command.begin(), vec![probe(false)], |stage, reply| {
        command.run(&GoatcorpReleaseSource, stage, reply)
    });
    assert_eq!(outcome, Ok(Outcome::NotInstalled));
    let (asked, outcome) = play(
        command.begin(),
        vec![probe(true), probe(true), Reply::Done, Reply::Done],
        |stage, reply| command.run(&GoatcorpReleaseSource, stage, reply),
    );
    assert_eq!(outcome, Ok(Outcome::Done(true)));
    assert_eq!(asked[3], Request::CreateActiveLink { branch: stg() });
    let (_, outcome) = play(
        command.begin(),
        vec![probe(true), probe(true), Reply::Done, Reply::Failed(Failure::Other)],
        |stage, reply| command.run(&GoatcorpReleaseSource, stage, reply),
    );
    assert_eq!(outcome, Ok(Outcome::Failed(Error::Io)));
}

#[test]
fn list_versions_command_marks_the_current_version() {
    let command = List {};
    let entries = vec!["stg".to_string(), "release".to_string()];
    let (asked, outcome) = play(
        command.begin(),
        vec![Reply::Entries(Some(entries)), Reply::Target(Some(stg()))],
        |stage, reply| command.run(&GoatcorpReleaseSource, stage, reply),
    );
    assert_eq!(
        outcome,
        Ok(VersionList::Versions(vec![
            ListedBranch { name: "release".to_string(), active: false },
            ListedBranch { name: stg(), active: true },
        ]))
    );
    assert_eq!(asked, vec![Request::ListBranches, Request::ResolveActiveLink]);
}

#[test]
fn list_versions_command_without_versions() {
    let command = List {};
    let (asked, outcome) =
        play(command.begin(), vec![Reply::Entries(Some(vec![]))], |stage, reply| {
            command.run(&GoatcorpReleaseSource, stage, reply)
        });
    assert_eq!(outcome, Ok(VersionList::Nothing));
    assert_eq!(asked, vec![Request::ListBranches]);
    let (_, outcome) = play(
        command.begin(),
        vec![Reply::Entries(Some(vec![stg()])), Reply::Failed(Failure::Other)],
        |stage, reply| command.run(&GoatcorpReleaseSource, stage, reply),
    );
    assert_eq!(outcome, Err(Error::Io));
}
