use nael_core::exchange::{Error, Failure, Reply, Request, Step};
use nael_core::info::InfoStage;
use nael_core::management::DalamudInstallation;
use nael_core::sources::{GoatcorpReleaseSource, ReleaseSource};
use nael_core::update::{compare, is_up_to_date, Availability, CompareStage, Comparison};
use nael_core::version_info::{copy_text, same_text, versions_match, DalamudVersionInfo};

fn version(assembly_version: &str) -> DalamudVersionInfo {
    DalamudVersionInfo {
        assembly_version: assembly_version.to_string(),
        git_sha: Some("0f3c1a".to_string()),
        revision: None,
    }
}

#[test]
fn equal_versions_are_up_to_date() {
    let local = Some(version("1.2.3.4"));
    let remote = Some(version("1.2.3.4"));
    assert!(versions_match(&local, &remote));
}

#[test]
fn differing_assembly_versions_are_out_of_date() {
    let local = Some(version("1.2.3.4"));
    let remote = Some(version("1.2.3.5"));
    assert!(!versions_match(&local, &remote));
}

#[test]
fn any_differing_field_is_out_of_date() {
    let mut remote = version("1.2.3.4");
    remote.git_sha = Some("ffffff".to_string());
    assert!(!versions_match(&Some(version("1.2.3.4")), &Some(remote)));
    let mut remote = version("1.2.3.4");
    remote.revision = Some("7".to_string());
    assert!(!versions_match(&Some(version("1.2.3.4")), &Some(remote)));
    let mut remote = version("1.2.3.4");
    remote.git_sha = None;
    assert!(!versions_match(&Some(version("1.2.3.4")), &Some(remote)));
}

#[test]
fn unknown_version_is_out_of_date() {
    assert!(!versions_match(&None, &Some(version("1.2.3.4"))));
    assert!(!versions_match(&Some(version("1.2.3.4")), &None));
    assert!(!versions_match(&None, &None));
}

#[test]
fn version_info_equality_is_field_wise() {
    assert_eq!(version("1.2.3.4"), version("1.2.3.4"));
    assert_ne!(version("1.2.3.4"), version("4.3.2.1"));
    assert_eq!(version("1.2.3.4").clone(), version("1.2.3.4"));
}

#[test]
fn optional_texts_compare_by_content() {
    let a = Some("x".to_string());
    assert!(same_text(&a, &Some("x".to_string())));
    assert!(!same_text(&a, &Some("y".to_string())));
    assert!(!same_text(&a, &None));
    assert!(same_text(&None, &None));
    assert_eq!(copy_text(&a), a);
    assert_eq!(copy_text(&None), None);
}

#[test]
fn comparison_records_both_sides() {
    let comparison = compare(
        Availability::Known(version("1.2.3.4")),
        Availability::Known(version("1.2.3.4")),
    );
    assert!(comparison.up_to_date);
    let comparison = compare(Availability::Missing, Availability::Known(version("1.2.3.4")));
    assert_eq!(
        comparison,
        Comparison {
            local: Availability::Missing,
            remote: Availability::Known(version("1.2.3.4")),
            up_to_date: false,
        }
    );
    let comparison =
        compare(Availability::Known(version("1.2.3.4")), Availability::Failed(Error::Network));
    assert!(!comparison.up_to_date);
}

#[test]
fn comparison_reads_local_then_remote() {
    let stg = DalamudInstallation { branch_name: "stg".to_string() };
    let source = GoatcorpReleaseSource;
    let step = is_up_to_date(&stg, &source, CompareStage::Start, None);
    assert_eq!(
        step,
        Step::Perform(
            CompareStage::Local(InfoStage::Reading),
            Request::ReadVersionInfo { branch: "stg".to_string() }
        )
    );
    let step = is_up_to_date(
        &stg,
        &source,
        CompareStage::Local(InfoStage::Reading),
        Some(Reply::Text(None)),
    );
    assert_eq!(
        step,
        Step::Perform(
            CompareStage::Remote(Availability::Missing, InfoStage::Reading),
            Request::FetchText { resource: source.get_version_info_file("stg") }
        )
    );
}

#[test]
fn comparison_survives_failures_on_either_side() {
    let stg = DalamudInstallation { branch_name: "stg".to_string() };
    let source = GoatcorpReleaseSource;
    let step = is_up_to_date(
        &stg,
        &source,
        CompareStage::Local(InfoStage::Reading),
        Some(Reply::Failed(Failure::Other)),
    );
    assert_eq!(
        step,
        Step::Perform(
            CompareStage::Remote(Availability::Failed(Error::Io), InfoStage::Reading),
            Request::FetchText { resource: source.get_version_info_file("stg") }
        )
    );
    let step = is_up_to_date(
        &stg,
        &source,
        CompareStage::Remote(Availability::Known(version("1.2.3.4")), InfoStage::Reading),
        Some(Reply::Failed(Failure::Network)),
    );
    assert_eq!(
        step,
        Step::Finish(Ok(Comparison {
            local: Availability::Known(version("1.2.3.4")),
            remote: Availability::Failed(Error::Network),
            up_to_date: false,
        }))
    );
}

#[test]
fn comparison_ends_up_to_date_on_equal_versions() {
    let stg = DalamudInstallation { branch_name: "stg".to_string() };
    let step = is_up_to_date(
        &stg,
        &GoatcorpReleaseSource,
        CompareStage::Remote(Availability::Known(version("1.2.3.4")), InfoStage::Decoding),
        Some(Reply::Decoded(Some(version("1.2.3.4")))),
    );
    assert_eq!(
        step,
        Step::Finish(Ok(Comparison {
            local: Availability::Known(version("1.2.3.4")),
            remote: Availability::Known(version("1.2.3.4")),
            up_to_date: true,
        }))
    );
}
