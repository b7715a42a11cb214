//! What holds of the lifecycle procedures when they run against the storage
//! model: what each one reports, what it leaves behind, and how they relate.
//!
//! Every law speaks of all runs: whatever the caller answers, as long as
//! each answer is one the model allows.

use crate::exchange::{Error, Failure, ReplyView, RequestView, StepView};
use crate::info::{
    get_remote_version_info_step, get_version_info_step, InfoStage,
};
use crate::install::{
    create_step, install_step, remove_step, CreateStage, InstallStage, InstalledView, RemoveStage,
};
use crate::management::{
    get_active_step, get_all_step, get_location_step, get_step, is_active_step,
    is_installed_step, set_active_step, unset_active_step, ActivateStage, ActiveStage, ListStage,
    ProbeStage, UnsetStage,
};
use crate::model::{answer, answers, performs, replay, run, Folder, World};
use crate::text::trimmed;
use crate::update::{
    availability, compared, is_up_to_date_step, CompareStageView, ComparisonView,
};
use crate::commands::update::{
    update_run, Locators, UpdateOutcomeView, UpdateReportView, UpdateStageView,
};
use crate::version_info::VersionInfoView;
use crate::version_manager::{
    get_current_step, official_archive, official_info, set_current_step, unset_current_step,
    version_create_step, version_remove_step, CurrentStage, SetCurrentStage, UnsetCurrentStage,
    VersionCreateStage, VersionRemoveStage,
};
use vstd::prelude::*;

verus! {

/// `is_installed`, as a procedure on `branch`.
pub open spec fn checking(branch: Seq<char>) -> spec_fn(ProbeStage, Option<ReplyView>) -> StepView<
    ProbeStage,
    bool,
> {
    |stage: ProbeStage, reply: Option<ReplyView>| is_installed_step(branch, stage, reply)
}

/// `get`, as a procedure on `branch`.
pub open spec fn getting(branch: Seq<char>) -> spec_fn(ProbeStage, Option<ReplyView>) -> StepView<
    ProbeStage,
    Option<Seq<char>>,
> {
    |stage: ProbeStage, reply: Option<ReplyView>| get_step(branch, stage, reply)
}

/// `get_location`, as a procedure on `branch`.
pub open spec fn locating(branch: Seq<char>) -> spec_fn(ProbeStage, Option<ReplyView>) -> StepView<
    ProbeStage,
    Option<Seq<char>>,
> {
    |stage: ProbeStage, reply: Option<ReplyView>| get_location_step(branch, stage, reply)
}

/// `get_all`, as a procedure.
pub open spec fn listing() -> spec_fn(ListStage, Option<ReplyView>) -> StepView<
    ListStage,
    Option<Seq<Seq<char>>>,
> {
    |stage: ListStage, reply: Option<ReplyView>| get_all_step(stage, reply)
}

/// `get_active`, as a procedure.
pub open spec fn finding_active() -> spec_fn(ActiveStage, Option<ReplyView>) -> StepView<
    ActiveStage,
    Option<Seq<char>>,
> {
    |stage: ActiveStage, reply: Option<ReplyView>| get_active_step(stage, reply)
}

/// `is_active`, as a procedure on `branch`.
pub open spec fn checking_active(branch: Seq<char>) -> spec_fn(
    ActiveStage,
    Option<ReplyView>,
) -> StepView<ActiveStage, bool> {
    |stage: ActiveStage, reply: Option<ReplyView>| is_active_step(branch, stage, reply)
}

/// `unset_active`, as a procedure.
pub open spec fn unsetting() -> spec_fn(UnsetStage, Option<ReplyView>) -> StepView<UnsetStage, ()> {
    |stage: UnsetStage, reply: Option<ReplyView>| unset_active_step(stage, reply)
}

/// `set_active`, as a procedure on `branch`.
pub open spec fn activating(branch: Seq<char>) -> spec_fn(
    ActivateStage,
    Option<ReplyView>,
) -> StepView<ActivateStage, ()> {
    |stage: ActivateStage, reply: Option<ReplyView>| set_active_step(branch, stage, reply)
}

/// `update`, as a procedure on `branch` with its two locators.
pub open spec fn updating(branch: Seq<char>, archive_url: Seq<char>, info_url: Seq<char>) -> spec_fn(
    InstallStage,
    Option<ReplyView>,
) -> StepView<InstallStage, InstalledView> {
    |stage: InstallStage, reply: Option<ReplyView>|
        install_step(branch, archive_url, info_url, stage, reply)
}

/// `create`, as a procedure on `branch` with its two locators.
pub open spec fn creating(branch: Seq<char>, archive_url: Seq<char>, info_url: Seq<char>) -> spec_fn(
    CreateStage,
    Option<ReplyView>,
) -> StepView<CreateStage, InstalledView> {
    |stage: CreateStage, reply: Option<ReplyView>|
        create_step(branch, archive_url, info_url, stage, reply)
}

/// `remove`, as a procedure on `branch`.
pub open spec fn removing(branch: Seq<char>) -> spec_fn(RemoveStage, Option<ReplyView>) -> StepView<
    RemoveStage,
    (),
> {
    |stage: RemoveStage, reply: Option<ReplyView>| remove_step(branch, stage, reply)
}

/// `get_version_info`, as a procedure on `branch`.
pub open spec fn reading_info(branch: Seq<char>) -> spec_fn(InfoStage, Option<ReplyView>) -> StepView<
    InfoStage,
    Option<VersionInfoView>,
> {
    |stage: InfoStage, reply: Option<ReplyView>| get_version_info_step(branch, stage, reply)
}

/// `get_remote_version_info`, as a procedure on the version information at
/// `info_url`.
pub open spec fn fetching_info(info_url: Seq<char>) -> spec_fn(
    InfoStage,
    Option<ReplyView>,
) -> StepView<InfoStage, Option<VersionInfoView>> {
    |stage: InfoStage, reply: Option<ReplyView>|
        get_remote_version_info_step(info_url, stage, reply)
}

/// `is_up_to_date`, as a procedure on `branch`, whose version information
/// is published at `info_url`.
pub open spec fn comparing(branch: Seq<char>, info_url: Seq<char>) -> spec_fn(
    CompareStageView,
    Option<ReplyView>,
) -> StepView<CompareStageView, ComparisonView> {
    |stage: CompareStageView, reply: Option<ReplyView>|
        is_up_to_date_step(branch, info_url, stage, reply)
}

/// What reading `text` as version information yields in `world`: nothing
/// if it is blank, and otherwise what the decoder makes of it, trimmed.
pub open spec fn read_as_info(world: World, text: Seq<char>) -> Result<
    Option<VersionInfoView>,
    Error,
> {
    if trimmed(text).len() == 0 {
        Ok(None)
    } else {
        match (world.decoder)(trimmed(text)) {
            Some(info) => Ok(Some(info)),
            None => Err(Error::MalformedVersionInfo),
        }
    }
}

/// The version information stored with `branch` in `world`.
pub open spec fn local_info(world: World, branch: Seq<char>) -> Result<
    Option<VersionInfoView>,
    Error,
> {
    if world.installed(branch) && world.branches[branch].version_file is Some {
        read_as_info(world, world.branches[branch].version_file->0)
    } else {
        Ok(None)
    }
}

/// The version information published at `info_url` in `world`.
pub open spec fn remote_info(world: World, info_url: Seq<char>) -> Result<
    Option<VersionInfoView>,
    Error,
> {
    if world.texts.dom().contains(info_url) {
        match (world.decoder)(world.texts[info_url]) {
            Some(info) => Ok(Some(info)),
            None => Err(Error::MalformedVersionInfo),
        }
    } else {
        Err(Error::Network)
    }
}

/// The world that a successful installation of `branch` leaves behind: the
/// branch's directory holds the contents of the archive that the release
/// host serves, beside the version information if the host serves any, and
/// no download is kept.
pub open spec fn with_installed(
    world: World,
    branch: Seq<char>,
    archive_url: Seq<char>,
    info_url: Seq<char>,
) -> World {
    World {
        branches: world.branches.insert(
            branch,
            Folder {
                archive: world.archives[archive_url],
                version_file: if world.texts.dom().contains(info_url) {
                    Some(world.texts[info_url])
                } else {
                    None
                },
            },
        ),
        staged: None,
        ..world
    }
}

/// A run of `is_installed` reports whether the branch is installed, and
/// changes nothing.
pub proof fn is_installed_reports(
    branch: Seq<char>,
    world: World,
    outcome: Result<bool, Error>,
    end: World,
    fuel: nat,
)
    requires
        performs(checking(branch), ProbeStage::Start, world, outcome, end, fuel),
    ensures
        outcome == Ok::<bool, Error>(world.installed(branch)),
        end == world,
{
    reveal_with_fuel(run, 3);
}

/// A run of `get` yields the branch if it is installed and `None` if not,
/// and changes nothing.
pub proof fn get_reports(
    branch: Seq<char>,
    world: World,
    outcome: Result<Option<Seq<char>>, Error>,
    end: World,
    fuel: nat,
)
    requires
        performs(getting(branch), ProbeStage::Start, world, outcome, end, fuel),
    ensures
        outcome == Ok::<Option<Seq<char>>, Error>(
            if world.installed(branch) {
                Some(branch)
            } else {
                None
            },
        ),
        end == world,
{
    reveal_with_fuel(run, 3);
}

/// A run of `get_location` yields the place of the branch's directory if
/// the branch is installed and `None` if not, and changes nothing.
pub proof fn get_location_reports(
    branch: Seq<char>,
    world: World,
    outcome: Result<Option<Seq<char>>, Error>,
    end: World,
    fuel: nat,
)
    requires
        performs(locating(branch), ProbeStage::Start, world, outcome, end, fuel),
    ensures
        outcome == Ok::<Option<Seq<char>>, Error>(
            if world.installed(branch) {
                Some((world.place)(branch))
            } else {
                None
            },
        ),
        end == world,
{
    reveal_with_fuel(run, 3);
}

/// A run of `get_all` yields `None` where nothing is installed, and
/// otherwise the installed branches, each once, in some order. It changes
/// nothing.
pub proof fn get_all_reports(
    world: World,
    outcome: Result<Option<Seq<Seq<char>>>, Error>,
    end: World,
    fuel: nat,
)
    requires
        performs(listing(), ListStage::Start, world, outcome, end, fuel),
    ensures
        end == world,
        outcome is Ok,
        outcome->Ok_0 is None <==> world.branches.dom() == Set::<Seq<char>>::empty(),
        outcome->Ok_0 matches Some(names) ==> world.lists(names),
{
    reveal_with_fuel(run, 3);
    if let Ok(Some(names)) = outcome {
        assert(world.lists(names));
        assert(names.len() > 0);
        assert(names.to_set().contains(names[0]));
    }
    if let Ok(None) = outcome {
        let reply = choose|reply: ReplyView|
            answers(world, RequestView::ListBranches, reply, world) && get_all_step(ListStage::Listing, Some(reply)) == StepView::<
                ListStage,
                Option<Seq<Seq<char>>>,
            >::Finish(outcome);
        if let ReplyView::Entries(Some(names)) = reply {
            assert(names.len() == 0);
            assert(names.to_set() =~= Set::<Seq<char>>::empty());
        }
    }
}

/// A run of `get_active` yields the active branch, and changes nothing.
pub proof fn get_active_reports(
    world: World,
    outcome: Result<Option<Seq<char>>, Error>,
    end: World,
    fuel: nat,
)
    requires
        performs(finding_active(), ActiveStage::Start, world, outcome, end, fuel),
    ensures
        outcome == Ok::<Option<Seq<char>>, Error>(world.active()),
        end == world,
{
    reveal_with_fuel(run, 4);
}

/// A run of `is_active` reports whether its branch is the active one, and
/// changes nothing.
pub proof fn is_active_reports(
    branch: Seq<char>,
    world: World,
    outcome: Result<bool, Error>,
    end: World,
    fuel: nat,
)
    requires
        performs(checking_active(branch), ActiveStage::Start, world, outcome, end, fuel),
    ensures
        outcome == Ok::<bool, Error>(world.active() == Some(branch)),
        end == world,
{
    reveal_with_fuel(run, 4);
}

/// A run of `unset_active` succeeds, whether or not there was a pointer, and
/// leaves none; nothing else changes.
pub proof fn unset_active_clears(world: World, outcome: Result<(), Error>, end: World, fuel: nat)
    requires
        performs(unsetting(), UnsetStage::Start, world, outcome, end, fuel),
    ensures
        outcome is Ok,
        end == world.with_pointer(None),
{
    reveal_with_fuel(run, 4);
}

/// A run of `set_active` on an installed branch succeeds and leaves the
/// pointer on that branch; on any other it fails with `NotInstalled` and
/// changes nothing.
pub proof fn set_active_points(
    branch: Seq<char>,
    world: World,
    outcome: Result<(), Error>,
    end: World,
    fuel: nat,
)
    requires
        performs(activating(branch), ActivateStage::Start, world, outcome, end, fuel),
    ensures
        world.installed(branch) ==> outcome is Ok && end == world.with_pointer(Some(branch)),
        !world.installed(branch) ==> outcome == Err::<(), Error>(Error::NotInstalled) && end
            == world,
{
    reveal_with_fuel(run, 5);
}

/// A run of the install procedure fails with `Network`, changing nothing,
/// where the release host does not serve the archive. Otherwise it
/// succeeds, whatever was installed before, and leaves the branch
/// installed from that archive; it reports whether version information
/// came with it.
pub proof fn update_installs(
    branch: Seq<char>,
    archive_url: Seq<char>,
    info_url: Seq<char>,
    world: World,
    outcome: Result<InstalledView, Error>,
    end: World,
    fuel: nat,
)
    requires
        performs(
            updating(branch, archive_url, info_url),
            InstallStage::Start,
            world,
            outcome,
            end,
            fuel,
        ),
    ensures
        !world.archives.dom().contains(archive_url) ==> outcome == Err::<InstalledView, Error>(
            Error::Network,
        ) && end == world,
        world.archives.dom().contains(archive_url) ==> outcome == Ok::<InstalledView, Error>(
            InstalledView {
                branch,
                version_info_recorded: world.texts.dom().contains(info_url),
            },
        ) && end == with_installed(world, branch, archive_url, info_url),
{
    reveal_with_fuel(run, 10);
    if world.archives.dom().contains(archive_url) {
        assert(end.branches =~= with_installed(world, branch, archive_url, info_url).branches);
    }
}

/// A run of `create` on an installed branch fails with `AlreadyExists` and
/// changes nothing; on any other branch it does what the install procedure
/// does.
pub proof fn create_installs(
    branch: Seq<char>,
    archive_url: Seq<char>,
    info_url: Seq<char>,
    world: World,
    outcome: Result<InstalledView, Error>,
    end: World,
    fuel: nat,
)
    requires
        performs(
            creating(branch, archive_url, info_url),
            CreateStage::Start,
            world,
            outcome,
            end,
            fuel,
        ),
    ensures
        world.installed(branch) ==> outcome == Err::<InstalledView, Error>(Error::AlreadyExists)
            && end == world,
        !world.installed(branch) && !world.archives.dom().contains(archive_url) ==> outcome
            == Err::<InstalledView, Error>(Error::Network) && end == world,
        !world.installed(branch) && world.archives.dom().contains(archive_url) ==> outcome == Ok::<
            InstalledView,
            Error,
        >(InstalledView { branch, version_info_recorded: world.texts.dom().contains(info_url) })
            && end == with_installed(world, branch, archive_url, info_url),
{
    reveal_with_fuel(run, 11);
    if !world.installed(branch) && world.archives.dom().contains(archive_url) {
        assert(end.branches =~= with_installed(world, branch, archive_url, info_url).branches);
    }
}

/// A run of `remove` on a branch that is not installed fails with
/// `NotInstalled` and changes nothing. On an installed branch it succeeds
/// and leaves the branch gone; the pointer is cleared if the branch was the
/// active one, and untouched if not.
pub proof fn remove_uninstalls(
    branch: Seq<char>,
    world: World,
    outcome: Result<(), Error>,
    end: World,
    fuel: nat,
)
    requires
        performs(removing(branch), RemoveStage::Start, world, outcome, end, fuel),
    ensures
        !world.installed(branch) ==> outcome == Err::<(), Error>(Error::NotInstalled) && end
            == world,
        world.installed(branch) ==> outcome is Ok && end == (World {
            branches: world.branches.remove(branch),
            pointer: if world.active() == Some(branch) {
                None
            } else {
                world.pointer
            },
            ..world
        }),
{
    reveal_with_fuel(run, 8);
}

/// A run of `get_version_info` yields what the branch's version file
/// reads as, and changes nothing.
pub proof fn get_version_info_reports(
    branch: Seq<char>,
    world: World,
    outcome: Result<Option<VersionInfoView>, Error>,
    end: World,
    fuel: nat,
)
    requires
        performs(reading_info(branch), InfoStage::Start, world, outcome, end, fuel),
    ensures
        outcome == local_info(world, branch),
        end == world,
{
    reveal_with_fuel(run, 4);
}

/// A run of `get_remote_version_info` yields what the published text
/// reads as, and changes nothing.
pub proof fn get_remote_version_info_reports(
    info_url: Seq<char>,
    world: World,
    outcome: Result<Option<VersionInfoView>, Error>,
    end: World,
    fuel: nat,
)
    requires
        performs(fetching_info(info_url), InfoStage::Start, world, outcome, end, fuel),
    ensures
        outcome == remote_info(world, info_url),
        end == world,
{
    reveal_with_fuel(run, 4);
}

/// Version information that has been stored with a branch is read back:
/// where the branch's version file holds a text that is not blank and that
/// the decoder reads as `info`, `get_version_info` yields `info`.
pub proof fn stored_version_info_is_read_back(
    branch: Seq<char>,
    text: Seq<char>,
    info: VersionInfoView,
    world: World,
    outcome: Result<Option<VersionInfoView>, Error>,
    end: World,
    fuel: nat,
)
    requires
        world.installed(branch),
        world.branches[branch].version_file == Some(text),
        trimmed(text).len() > 0,
        (world.decoder)(trimmed(text)) == Some(info),
        performs(reading_info(branch), InfoStage::Start, world, outcome, end, fuel),
    ensures
        outcome == Ok::<Option<VersionInfoView>, Error>(Some(info)),
{
    get_version_info_reports(branch, world, outcome, end, fuel);
}

/// A run of `is_up_to_date` never fails and changes nothing. It reports
/// the installation as current exactly when the version information stored
/// with it and the one published for it are both there, both understood,
/// and equal.
pub proof fn is_up_to_date_reports(
    branch: Seq<char>,
    info_url: Seq<char>,
    world: World,
    outcome: Result<ComparisonView, Error>,
    end: World,
    fuel: nat,
)
    requires
        performs(comparing(branch, info_url), CompareStageView::Start, world, outcome, end, fuel),
    ensures
        outcome == Ok::<ComparisonView, Error>(
            compared(
                availability(local_info(world, branch)),
                availability(remote_info(world, info_url)),
            ),
        ),
        outcome->Ok_0.up_to_date <==> (local_info(world, branch) matches Ok(Some(mine))
            && remote_info(world, info_url) matches Ok(Some(theirs)) && mine == theirs),
        end == world,
{
    reveal_with_fuel(run, 6);
}

/// A branch that has just been installed with its version information is
/// up to date, as long as the release host keeps publishing the same text
/// and that text is understood.
pub proof fn fresh_installation_is_up_to_date(
    branch: Seq<char>,
    archive_url: Seq<char>,
    info_url: Seq<char>,
    world: World,
    installed: Result<InstalledView, Error>,
    then: World,
    compared: Result<ComparisonView, Error>,
    end: World,
    first_fuel: nat,
    second_fuel: nat,
)
    requires
        performs(
            updating(branch, archive_url, info_url),
            InstallStage::Start,
            world,
            installed,
            then,
            first_fuel,
        ),
        installed matches Ok(report) && report.version_info_recorded,
        trimmed(world.texts[info_url]) == world.texts[info_url],
        world.texts[info_url].len() > 0,
        (world.decoder)(world.texts[info_url]) is Some,
        performs(
            comparing(branch, info_url),
            CompareStageView::Start,
            then,
            compared,
            end,
            second_fuel,
        ),
    ensures
        compared matches Ok(comparison) && comparison.up_to_date,
{
    update_installs(branch, archive_url, info_url, world, installed, then, first_fuel);
    is_up_to_date_reports(branch, info_url, then, compared, end, second_fuel);
}

/// A finite set of names can be listed: in sequence, each name once.
proof fn finite_set_is_listed(names: Set<Seq<char>>)
    requires
        names.finite(),
    ensures
        names.to_seq().no_duplicates(),
        names.to_seq().to_set() == names,
    decreases names.len(),
{
    names.lemma_to_seq_to_set_id();
    if names.len() != 0 {
        let first = names.choose();
        let rest = names.remove(first);
        finite_set_is_listed(rest);
        let tail = rest.to_seq();
        let all = names.to_seq();
        assert(all =~= seq![first] + tail);
        assert forall|i: int, j: int| 0 <= i < j < all.len() implies all[i] != all[j] by {
            assert(all[j] == tail[j - 1]);
            if i == 0 {
                assert(tail.to_set().contains(tail[j - 1]));
            } else {
                assert(all[i] == tail[i - 1]);
            }
        }
    }
}

/// The model answers every request: whatever is asked in a world with
/// finitely many branches, there is a reply and a world after it.
pub proof fn every_request_is_answered(world: World, request: RequestView)
    requires
        world.branches.dom().finite(),
    ensures
        exists|reply: ReplyView, after: World| answers(world, request, reply, after),
{
    match request {
        RequestView::ProbeBranch { branch } => {
            let reply = ReplyView::Branch {
                location: (world.place)(branch),
                present: world.installed(branch),
            };
            assert(answers(world, request, reply, world));
        },
        RequestView::ListBranches => {
            let names = world.branches.dom().to_seq();
            finite_set_is_listed(world.branches.dom());
            assert(answers(world, request, ReplyView::Entries(Some(names)), world));
        },
        RequestView::ReadActiveLink => {
            let reply = if world.pointer is Some {
                ReplyView::Done
            } else {
                ReplyView::Failed(Failure::NotFound)
            };
            assert(answers(world, request, reply, world));
        },
        RequestView::ResolveActiveLink => {
            let reply = match world.active() {
                Some(branch) => ReplyView::Target(Some(branch)),
                None => ReplyView::Failed(Failure::NotFound),
            };
            assert(answers(world, request, reply, world));
        },
        RequestView::RemoveActiveLink => {
            if world.pointer is Some {
                assert(answers(world, request, ReplyView::Done, world.with_pointer(None)));
            } else {
                assert(answers(
                    world,
                    request,
                    ReplyView::Failed(Failure::NotFound),
                    world,
                ));
            }
        },
        RequestView::CreateActiveLink { branch } => {
            if world.pointer is None {
                assert(answers(world, request, ReplyView::Done, world.with_pointer(Some(branch))));
            } else {
                assert(answers(
                    world,
                    request,
                    ReplyView::Failed(Failure::Other),
                    world,
                ));
            }
        },
        RequestView::LocateActiveLink => {
            assert(answers(world, request, ReplyView::Location(world.pointer_place), world));
        },
        RequestView::DownloadArchive { url } => {
            if world.archives.dom().contains(url) {
                assert(answers(
                    world,
                    request,
                    ReplyView::Done,
                    world.with_staged(Some(world.archives[url])),
                ));
            } else {
                assert(answers(
                    world,
                    request,
                    ReplyView::Failed(Failure::Network),
                    world,
                ));
            }
        },
        RequestView::RemoveBranch { branch } => {
            if world.installed(branch) {
                assert(answers(
                    world,
                    request,
                    ReplyView::Done,
                    world.with_branches(world.branches.remove(branch)),
                ));
            } else {
                assert(answers(
                    world,
                    request,
                    ReplyView::Failed(Failure::NotFound),
                    world,
                ));
            }
        },
        RequestView::ExtractArchive { branch } => {
            match world.staged {
                Some(archive) => {
                    let after = world.with_branches(
                        world.branches.insert(
                            branch,
                            Folder {
                                archive,
                                version_file: if world.installed(branch) {
                                    world.branches[branch].version_file
                                } else {
                                    None
                                },
                            },
                        ),
                    );
                    assert(answers(world, request, ReplyView::Done, after));
                },
                None => {
                    assert(answers(
                        world,
                        request,
                        ReplyView::Failed(Failure::NotFound),
                        world,
                    ));
                },
            }
        },
        RequestView::DiscardArchive => {
            assert(answers(world, request, ReplyView::Done, world.with_staged(None)));
        },
        RequestView::DownloadVersionInfo { url, branch } => {
            if !world.texts.dom().contains(url) {
                assert(answers(
                    world,
                    request,
                    ReplyView::Failed(Failure::Network),
                    world,
                ));
            } else if !world.installed(branch) {
                assert(answers(
                    world,
                    request,
                    ReplyView::Failed(Failure::NotFound),
                    world,
                ));
            } else {
                let after = world.with_branches(
                    world.branches.insert(
                        branch,
                        Folder {
                            archive: world.branches[branch].archive,
                            version_file: Some(world.texts[url]),
                        },
                    ),
                );
                assert(answers(world, request, ReplyView::Done, after));
            }
        },
        RequestView::ReadVersionInfo { branch } => {
            let reply = ReplyView::Text(
                if world.installed(branch) {
                    world.branches[branch].version_file
                } else {
                    None
                },
            );
            assert(answers(world, request, reply, world));
        },
        RequestView::FetchText { url } => {
            let reply = if world.texts.dom().contains(url) {
                ReplyView::Text(Some(world.texts[url]))
            } else {
                ReplyView::Failed(Failure::Network)
            };
            assert(answers(world, request, reply, world));
        },
        RequestView::DecodeVersionInfo { text } => {
            assert(answers(world, request, ReplyView::Decoded((world.decoder)(text)), world));
        },
    }
}

/// Answering a request leaves the branches finitely many.
pub proof fn answers_keep_branches_finite(
    world: World,
    request: RequestView,
    reply: ReplyView,
    after: World,
)
    requires
        world.branches.dom().finite(),
        answers(world, request, reply, after),
    ensures
        after.branches.dom().finite(),
{
}

/// A replay that comes to an end is a run.
pub proof fn replay_is_a_run<S, T>(
    procedure: spec_fn(S, Option<ReplyView>) -> StepView<S, T>,
    start: World,
    step: StepView<S, T>,
    fuel: nat,
)
    requires
        start.branches.dom().finite(),
        replay(procedure, start, step, fuel).0 is Finish,
    ensures
        run(
            procedure,
            start,
            step,
            replay(procedure, start, step, fuel).0->Finish_0,
            replay(procedure, start, step, fuel).1,
            fuel,
        ),
    decreases fuel,
{
    if let StepView::Perform(stage, request) = step {
        every_request_is_answered(start, request);
        let (some_reply, some_next) = choose|reply: ReplyView, next: World|
            answers(start, request, reply, next);
        let some = (some_reply, some_next);
        assert(answers(start, request, some.0, some.1));
        let (reply, next) = answer(start, request);
        assert(answers(start, request, reply, next));
        answers_keep_branches_finite(start, request, reply, next);
        replay_is_a_run(procedure, next, procedure(stage, Some(reply)), (fuel - 1) as nat);
    }
}

/// A procedure whose replay from its first stage comes to an end has a
/// run.
pub proof fn replay_shows_a_run<S, T>(
    procedure: spec_fn(S, Option<ReplyView>) -> StepView<S, T>,
    first: S,
    world: World,
    fuel: nat,
)
    requires
        world.branches.dom().finite(),
        replay(procedure, world, procedure(first, None), fuel).0 is Finish,
    ensures
        exists|outcome: Result<T, Error>, end: World|
            performs(procedure, first, world, outcome, end, fuel),
{
    let last = replay(procedure, world, procedure(first, None), fuel);
    replay_is_a_run(procedure, world, procedure(first, None), fuel);
    assert(performs(procedure, first, world, last.0->Finish_0, last.1, fuel));
}

/// The procedures that only look can run to an end in every world with
/// finitely many branches.
pub proof fn lookups_can_run(branch: Seq<char>, world: World)
    requires
        world.branches.dom().finite(),
    ensures
        exists|outcome: Result<bool, Error>, end: World|
            performs(checking(branch), ProbeStage::Start, world, outcome, end, 1),
        exists|outcome: Result<Option<Seq<char>>, Error>, end: World|
            performs(getting(branch), ProbeStage::Start, world, outcome, end, 1),
        exists|outcome: Result<Option<Seq<char>>, Error>, end: World|
            performs(locating(branch), ProbeStage::Start, world, outcome, end, 1),
        exists|outcome: Result<Option<Seq<Seq<char>>>, Error>, end: World|
            performs(listing(), ListStage::Start, world, outcome, end, 1),
        exists|outcome: Result<Option<Seq<char>>, Error>, end: World|
            performs(finding_active(), ActiveStage::Start, world, outcome, end, 2),
        exists|outcome: Result<bool, Error>, end: World|
            performs(checking_active(branch), ActiveStage::Start, world, outcome, end, 2),
{
    reveal_with_fuel(replay, 3);
    replay_shows_a_run(checking(branch), ProbeStage::Start, world, 1);
    replay_shows_a_run(getting(branch), ProbeStage::Start, world, 1);
    replay_shows_a_run(locating(branch), ProbeStage::Start, world, 1);
    replay_shows_a_run(listing(), ListStage::Start, world, 1);
    replay_shows_a_run(finding_active(), ActiveStage::Start, world, 2);
    replay_shows_a_run(checking_active(branch), ActiveStage::Start, world, 2);
}

/// The procedures that move the active pointer can run to an end in every
/// world with finitely many branches.
pub proof fn pointer_moves_can_run(branch: Seq<char>, world: World)
    requires
        world.branches.dom().finite(),
    ensures
        exists|outcome: Result<(), Error>, end: World|
            performs(unsetting(), UnsetStage::Start, world, outcome, end, 2),
        exists|outcome: Result<(), Error>, end: World|
            performs(activating(branch), ActivateStage::Start, world, outcome, end, 3),
{
    reveal_with_fuel(replay, 4);
    replay_shows_a_run(unsetting(), UnsetStage::Start, world, 2);
    replay_shows_a_run(activating(branch), ActivateStage::Start, world, 3);
}

/// Installing and removing can run to an end in every world with finitely
/// many branches.
pub proof fn installations_can_run(
    branch: Seq<char>,
    archive_url: Seq<char>,
    info_url: Seq<char>,
    world: World,
)
    requires
        world.branches.dom().finite(),
    ensures
        exists|outcome: Result<InstalledView, Error>, end: World|
            performs(
                updating(branch, archive_url, info_url),
                InstallStage::Start,
                world,
                outcome,
                end,
                7,
            ),
        exists|outcome: Result<InstalledView, Error>, end: World|
            performs(
                creating(branch, archive_url, info_url),
                CreateStage::Start,
                world,
                outcome,
                end,
                8,
            ),
        exists|outcome: Result<(), Error>, end: World|
            performs(removing(branch), RemoveStage::Start, world, outcome, end, 6),
{
    assert(replay(
        updating(branch, archive_url, info_url),
        world,
        updating(branch, archive_url, info_url)(InstallStage::Start, None),
        7,
    ).0 is Finish) by {
        reveal_with_fuel(replay, 8);
    }
    replay_shows_a_run(updating(branch, archive_url, info_url), InstallStage::Start, world, 7);
    assert(replay(
        creating(branch, archive_url, info_url),
        world,
        creating(branch, archive_url, info_url)(CreateStage::Start, None),
        8,
    ).0 is Finish) by {
        reveal_with_fuel(replay, 9);
    }
    replay_shows_a_run(creating(branch, archive_url, info_url), CreateStage::Start, world, 8);
    assert(replay(removing(branch), world, removing(branch)(RemoveStage::Start, None), 6).0
        is Finish) by {
        reveal_with_fuel(replay, 7);
    }
    replay_shows_a_run(removing(branch), RemoveStage::Start, world, 6);
}

/// A branch that is not installed is reported as such: `is_installed` says
/// no and `get` yields nothing.
pub proof fn absent_branch_is_unknown(
    branch: Seq<char>,
    world: World,
    seen: Result<bool, Error>,
    after_seen: World,
    got: Result<Option<Seq<char>>, Error>,
    after_got: World,
    first_fuel: nat,
    second_fuel: nat,
)
    requires
        !world.installed(branch),
        performs(checking(branch), ProbeStage::Start, world, seen, after_seen, first_fuel),
        performs(getting(branch), ProbeStage::Start, world, got, after_got, second_fuel),
    ensures
        seen == Ok::<bool, Error>(false),
        got == Ok::<Option<Seq<char>>, Error>(None),
{
    is_installed_reports(branch, world, seen, after_seen, first_fuel);
    get_reports(branch, world, got, after_got, second_fuel);
}

/// Once `create` has succeeded, the branch is installed: its directory
/// holds the contents of the archive that was served, `is_installed` says
/// yes and `get` yields it.
pub proof fn created_branch_is_installed(
    branch: Seq<char>,
    archive_url: Seq<char>,
    info_url: Seq<char>,
    world: World,
    created: Result<InstalledView, Error>,
    then: World,
    seen: Result<bool, Error>,
    after_seen: World,
    got: Result<Option<Seq<char>>, Error>,
    after_got: World,
    first_fuel: nat,
    second_fuel: nat,
    third_fuel: nat,
)
    requires
        performs(
            creating(branch, archive_url, info_url),
            CreateStage::Start,
            world,
            created,
            then,
            first_fuel,
        ),
        created is Ok,
        performs(checking(branch), ProbeStage::Start, then, seen, after_seen, second_fuel),
        performs(getting(branch), ProbeStage::Start, then, got, after_got, third_fuel),
    ensures
        then.installed(branch),
        world.archives.dom().contains(archive_url),
        then.branches[branch].archive == world.archives[archive_url],
        seen == Ok::<bool, Error>(true),
        got == Ok::<Option<Seq<char>>, Error>(Some(branch)),
{
    create_installs(branch, archive_url, info_url, world, created, then, first_fuel);
    is_installed_reports(branch, then, seen, after_seen, second_fuel);
    get_reports(branch, then, got, after_got, third_fuel);
}

/// `create` on a branch that is installed fails with `AlreadyExists` and
/// leaves storage as it was.
pub proof fn create_spares_installed(
    branch: Seq<char>,
    archive_url: Seq<char>,
    info_url: Seq<char>,
    world: World,
    created: Result<InstalledView, Error>,
    then: World,
    fuel: nat,
)
    requires
        world.installed(branch),
        performs(
            creating(branch, archive_url, info_url),
            CreateStage::Start,
            world,
            created,
            then,
            fuel,
        ),
    ensures
        created == Err::<InstalledView, Error>(Error::AlreadyExists),
        then == world,
{
    create_installs(branch, archive_url, info_url, world, created, then, fuel);
}

/// Once `set_active` has run on an installed branch, that branch is the
/// active one: `get_active` yields it, `is_active` says yes of it and no of
/// every other branch, whichever was active before.
pub proof fn set_active_takes_over(
    branch: Seq<char>,
    other: Seq<char>,
    world: World,
    set: Result<(), Error>,
    then: World,
    found: Result<Option<Seq<char>>, Error>,
    after_found: World,
    mine: Result<bool, Error>,
    after_mine: World,
    theirs: Result<bool, Error>,
    after_theirs: World,
    first_fuel: nat,
    second_fuel: nat,
    third_fuel: nat,
    fourth_fuel: nat,
)
    requires
        world.installed(branch),
        other != branch,
        performs(activating(branch), ActivateStage::Start, world, set, then, first_fuel),
        performs(finding_active(), ActiveStage::Start, then, found, after_found, second_fuel),
        performs(checking_active(branch), ActiveStage::Start, then, mine, after_mine, third_fuel),
        performs(checking_active(other), ActiveStage::Start, then, theirs, after_theirs, fourth_fuel),
    ensures
        set is Ok,
        found == Ok::<Option<Seq<char>>, Error>(Some(branch)),
        mine == Ok::<bool, Error>(true),
        theirs == Ok::<bool, Error>(false),
{
    set_active_points(branch, world, set, then, first_fuel);
    get_active_reports(then, found, after_found, second_fuel);
    is_active_reports(branch, then, mine, after_mine, third_fuel);
    is_active_reports(other, then, theirs, after_theirs, fourth_fuel);
}

/// At most one branch is active: where `is_active` says yes of two
/// branches in the same world, they are the same branch.
pub proof fn at_most_one_active(
    one: Seq<char>,
    other: Seq<char>,
    world: World,
    first: Result<bool, Error>,
    after_first: World,
    second: Result<bool, Error>,
    after_second: World,
    first_fuel: nat,
    second_fuel: nat,
)
    requires
        performs(checking_active(one), ActiveStage::Start, world, first, after_first, first_fuel),
        performs(checking_active(other), ActiveStage::Start, world, second, after_second, second_fuel),
        first == Ok::<bool, Error>(true),
        second == Ok::<bool, Error>(true),
    ensures
        one == other,
{
    is_active_reports(one, world, first, after_first, first_fuel);
    is_active_reports(other, world, second, after_second, second_fuel);
}

/// After `unset_active` no branch is active, and to run it again is no
/// error and changes nothing more.
pub proof fn unset_active_is_idempotent(
    world: World,
    first: Result<(), Error>,
    then: World,
    found: Result<Option<Seq<char>>, Error>,
    after_found: World,
    second: Result<(), Error>,
    end: World,
    first_fuel: nat,
    second_fuel: nat,
    third_fuel: nat,
)
    requires
        performs(unsetting(), UnsetStage::Start, world, first, then, first_fuel),
        performs(finding_active(), ActiveStage::Start, then, found, after_found, second_fuel),
        performs(unsetting(), UnsetStage::Start, then, second, end, third_fuel),
    ensures
        first is Ok,
        found == Ok::<Option<Seq<char>>, Error>(None),
        second is Ok,
        end == then,
{
    unset_active_clears(world, first, then, first_fuel);
    get_active_reports(then, found, after_found, second_fuel);
    unset_active_clears(then, second, end, third_fuel);
}

/// After the active branch has been removed no branch is active. After any
/// other installed branch has been removed, the active branch is the one it
/// was.
pub proof fn remove_keeps_pointer_sound(
    branch: Seq<char>,
    world: World,
    removed: Result<(), Error>,
    then: World,
    found: Result<Option<Seq<char>>, Error>,
    after_found: World,
    first_fuel: nat,
    second_fuel: nat,
)
    requires
        world.installed(branch),
        performs(removing(branch), RemoveStage::Start, world, removed, then, first_fuel),
        performs(finding_active(), ActiveStage::Start, then, found, after_found, second_fuel),
    ensures
        removed is Ok,
        !then.installed(branch),
        world.active() == Some(branch) ==> found == Ok::<Option<Seq<char>>, Error>(None),
        world.active() != Some(branch) ==> found == Ok::<Option<Seq<char>>, Error>(
            world.active(),
        ),
{
    remove_uninstalls(branch, world, removed, then, first_fuel);
    get_active_reports(then, found, after_found, second_fuel);
}

/// `get_all`, run twice with nothing in between, yields the same branches:
/// both times none, or both times lists with the same names, in whatever
/// order each.
pub proof fn get_all_is_stable(
    world: World,
    first: Result<Option<Seq<Seq<char>>>, Error>,
    then: World,
    second: Result<Option<Seq<Seq<char>>>, Error>,
    end: World,
    first_fuel: nat,
    second_fuel: nat,
)
    requires
        performs(listing(), ListStage::Start, world, first, then, first_fuel),
        performs(listing(), ListStage::Start, then, second, end, second_fuel),
    ensures
        first is Ok,
        second is Ok,
        first->Ok_0 is None <==> second->Ok_0 is None,
        first->Ok_0 is Some ==> first->Ok_0->0.to_set() == second->Ok_0->0.to_set(),
        end == world,
{
    get_all_reports(world, first, then, first_fuel);
    get_all_reports(then, second, end, second_fuel);
}

/// The update command, as a procedure on the branch `name`, or on the
/// active branch where it is `None`.
pub open spec fn updating_by_command(
    name: Option<Seq<char>>,
    force: bool,
    check: bool,
    sources: Locators,
) -> spec_fn(UpdateStageView, Option<ReplyView>) -> StepView<UpdateStageView, UpdateReportView> {
    |stage: UpdateStageView, reply: Option<ReplyView>|
        update_run(name, force, check, sources, stage, reply)
}

/// A check for updates of an installed branch changes nothing, and reports
/// the branch as up to date exactly when the version information stored
/// with it and the one published for it are both there, both understood,
/// and equal.
pub proof fn update_check_reports(
    branch: Seq<char>,
    force: bool,
    sources: Locators,
    world: World,
    outcome: Result<UpdateReportView, Error>,
    end: World,
    fuel: nat,
)
    requires
        world.installed(branch),
        performs(
            updating_by_command(Some(branch), force, true, sources),
            UpdateStageView::Start,
            world,
            outcome,
            end,
            fuel,
        ),
    ensures
        end == world,
        outcome == Ok::<UpdateReportView, Error>(
            UpdateReportView {
                branch: Some(branch),
                outcome: UpdateOutcomeView::Checked(
                    compared(
                        availability(local_info(world, branch)),
                        availability(remote_info(world, (sources.info)(branch))),
                    ),
                ),
            },
        ),
{
    reveal_with_fuel(run, 8);
}

/// An update of an installed branch that is up to date changes nothing,
/// unless it is forced.
pub proof fn update_spares_current_branch(
    branch: Seq<char>,
    sources: Locators,
    world: World,
    outcome: Result<UpdateReportView, Error>,
    end: World,
    fuel: nat,
)
    requires
        world.installed(branch),
        compared(
            availability(local_info(world, branch)),
            availability(remote_info(world, (sources.info)(branch))),
        ).up_to_date,
        performs(
            updating_by_command(Some(branch), false, false, sources),
            UpdateStageView::Start,
            world,
            outcome,
            end,
            fuel,
        ),
    ensures
        end == world,
        outcome matches Ok(report) && report.outcome is AlreadyUpToDate,
{
    reveal_with_fuel(run, 8);
}

/// `get_current`, as a procedure.
pub open spec fn finding_current() -> spec_fn(CurrentStage, Option<ReplyView>) -> StepView<
    CurrentStage,
    Option<Seq<char>>,
> {
    |stage: CurrentStage, reply: Option<ReplyView>| get_current_step(stage, reply)
}

/// `set_current`, as a procedure on `branch`.
pub open spec fn setting_current(branch: Seq<char>) -> spec_fn(
    SetCurrentStage,
    Option<ReplyView>,
) -> StepView<SetCurrentStage, ()> {
    |stage: SetCurrentStage, reply: Option<ReplyView>| set_current_step(branch, stage, reply)
}

/// `unset_current`, as a procedure.
pub open spec fn unsetting_current() -> spec_fn(UnsetCurrentStage, Option<ReplyView>) -> StepView<
    UnsetCurrentStage,
    (),
> {
    |stage: UnsetCurrentStage, reply: Option<ReplyView>| unset_current_step(stage, reply)
}

/// The version manager's `create`, as a procedure on `branch`.
pub open spec fn creating_version(branch: Seq<char>, replace_existing: bool) -> spec_fn(
    VersionCreateStage,
    Option<ReplyView>,
) -> StepView<VersionCreateStage, bool> {
    |stage: VersionCreateStage, reply: Option<ReplyView>|
        version_create_step(branch, replace_existing, stage, reply)
}

/// The version manager's `remove`, as a procedure on `branch`.
pub open spec fn removing_version(branch: Seq<char>) -> spec_fn(
    VersionRemoveStage,
    Option<ReplyView>,
) -> StepView<VersionRemoveStage, ()> {
    |stage: VersionRemoveStage, reply: Option<ReplyView>|
        version_remove_step(branch, stage, reply)
}

/// A run of `get_current` yields the active branch, and changes nothing.
pub proof fn get_current_reports(
    world: World,
    outcome: Result<Option<Seq<char>>, Error>,
    end: World,
    fuel: nat,
)
    requires
        performs(finding_current(), CurrentStage::Start, world, outcome, end, fuel),
    ensures
        outcome == Ok::<Option<Seq<char>>, Error>(world.active()),
        end == world,
{
    reveal_with_fuel(run, 3);
}

/// A run of `set_current` on an installed version succeeds and leaves the
/// pointer on it; on any other it fails with `NotInstalled` and changes
/// nothing.
pub proof fn set_current_points(
    branch: Seq<char>,
    world: World,
    outcome: Result<(), Error>,
    end: World,
    fuel: nat,
)
    requires
        performs(setting_current(branch), SetCurrentStage::Start, world, outcome, end, fuel),
    ensures
        world.installed(branch) ==> outcome is Ok && end == world.with_pointer(Some(branch)),
        !world.installed(branch) ==> outcome == Err::<(), Error>(Error::NotInstalled) && end
            == world,
{
    reveal_with_fuel(run, 5);
}

/// A run of `unset_current` succeeds and leaves no version current. A
/// pointer that leads somewhere is deleted; one that leads nowhere is left
/// where it is.
pub proof fn unset_current_clears(world: World, outcome: Result<(), Error>, end: World, fuel: nat)
    requires
        performs(unsetting_current(), UnsetCurrentStage::Start, world, outcome, end, fuel),
    ensures
        outcome is Ok,
        end.active() is None,
        world.active() is Some ==> end == world.with_pointer(None),
        world.active() is None ==> end == world,
{
    reveal_with_fuel(run, 4);
}

/// A run of the version manager's `create` refuses an installed version
/// with `AlreadyExists`, changing nothing, unless it is to be replaced.
/// Otherwise it fails with `Network` where the official distribution does
/// not serve the archive, and then a version that was to be replaced is
/// gone; and where the archive is served it succeeds and leaves the
/// version installed from it.
pub proof fn version_create_installs(
    branch: Seq<char>,
    replace_existing: bool,
    world: World,
    outcome: Result<bool, Error>,
    end: World,
    fuel: nat,
)
    requires
        performs(
            creating_version(branch, replace_existing),
            VersionCreateStage::Start,
            world,
            outcome,
            end,
            fuel,
        ),
    ensures
        world.installed(branch) && !replace_existing ==> outcome == Err::<bool, Error>(
            Error::AlreadyExists,
        ) && end == world,
        (!world.installed(branch) || replace_existing) && !world.archives.dom().contains(
            official_archive(branch),
        ) ==> outcome == Err::<bool, Error>(Error::Network) && end == world.with_branches(
            world.branches.remove(branch),
        ),
        (!world.installed(branch) || replace_existing) && world.archives.dom().contains(
            official_archive(branch),
        ) ==> outcome == Ok::<bool, Error>(world.texts.dom().contains(official_info(branch)))
            && end == with_installed(world, branch, official_archive(branch), official_info(branch)),
{
    reveal_with_fuel(run, 8);
    if (!world.installed(branch) || replace_existing) {
        if world.archives.dom().contains(official_archive(branch)) {
            assert(end.branches =~= with_installed(
                world,
                branch,
                official_archive(branch),
                official_info(branch),
            ).branches);
        } else {
            assert(end.branches =~= world.branches.remove(branch));
        }
    }
}

/// A run of the version manager's `remove` on a version that is not
/// installed fails with `NotInstalled` and changes nothing. On an
/// installed version it succeeds and leaves the version gone; the pointer
/// is cleared if the version was the current one, and untouched if not.
pub proof fn version_remove_uninstalls(
    branch: Seq<char>,
    world: World,
    outcome: Result<(), Error>,
    end: World,
    fuel: nat,
)
    requires
        performs(removing_version(branch), VersionRemoveStage::Start, world, outcome, end, fuel),
    ensures
        !world.installed(branch) ==> outcome == Err::<(), Error>(Error::NotInstalled) && end
            == world,
        world.installed(branch) ==> outcome is Ok && end == (World {
            branches: world.branches.remove(branch),
            pointer: if world.active() == Some(branch) {
                None
            } else {
                world.pointer
            },
            ..world
        }),
{
    reveal_with_fuel(run, 7);
}

} // verus!
