use nael_core::exchange::{Error, Failure, Reply, Request, Step};
use nael_core::info::{accept_local_json, accept_remote_json, InfoStage, TextStage};
use nael_core::management::DalamudInstallation;
use nael_core::sources::{GoatcorpReleaseSource, ReleaseSource};
use nael_core::version_info::DalamudVersionInfo;

fn stg() -> DalamudInstallation {
    DalamudInstallation { branch_name: "stg".to_string() }
}

fn text(content: &str) -> Option<Reply> {
    Some(Reply::Text(Some(content.to_string())))
}

fn version() -> DalamudVersionInfo {
    DalamudVersionInfo {
        assembly_version: "9.1.0.9".to_string(),
        git_sha: None,
        revision: Some("2".to_string()),
    }
}

#[test]
fn version_info_is_read_from_the_branch() {
    assert_eq!(
        stg().get_version_info(InfoStage::Start, None),
        Step::Perform(InfoStage::Reading, Request::ReadVersionInfo { branch: "stg".to_string() })
    );
}

#[test]
fn absent_version_file_means_no_version_info() {
    assert_eq!(
        stg().get_version_info(InfoStage::Reading, Some(Reply::Text(None))),
        Step::Finish(Ok(None))
    );
    assert_eq!(
        stg().get_version_info(InfoStage::Reading, Some(Reply::Failed(Failure::NotFound))),
        Step::Finish(Ok(None))
    );
}

#[test]
fn blank_version_file_means_no_version_info() {
    assert_eq!(stg().get_version_info(InfoStage::Reading, text("")), Step::Finish(Ok(None)));
    assert_eq!(
        stg().get_version_info(InfoStage::Reading, text(" \t\r\n\u{a0} ")),
        Step::Finish(Ok(None))
    );
}

#[test]
fn version_text_is_trimmed_before_it_is_decoded() {
    assert_eq!(
        stg().get_version_info(InfoStage::Reading, text("\n  {\"AssemblyVersion\":\"1\"} \n")),
        Step::Perform(
            InfoStage::Decoding,
            Request::DecodeVersionInfo { text: "{\"AssemblyVersion\":\"1\"}".to_string() }
        )
    );
}

#[test]
fn undecodable_version_info_is_malformed() {
    assert_eq!(
        stg().get_version_info(InfoStage::Decoding, Some(Reply::Decoded(None))),
        Step::Finish(Err(Error::MalformedVersionInfo))
    );
    assert_eq!(
        stg().get_version_info(InfoStage::Decoding, Some(Reply::Decoded(Some(version())))),
        Step::Finish(Ok(Some(version())))
    );
}

#[test]
fn unreadable_version_file_is_an_error() {
    assert_eq!(
        stg().get_version_info(InfoStage::Reading, Some(Reply::Failed(Failure::Other))),
        Step::Finish(Err(Error::Io))
    );
}

#[test]
fn remote_version_info_is_fetched_from_the_release_source() {
    let source = GoatcorpReleaseSource;
    assert_eq!(
        stg().get_remote_version_info(&source, InfoStage::Start, None),
        Step::Perform(
            InfoStage::Reading,
            Request::FetchText { resource: source.get_version_info_file("stg") }
        )
    );
    assert_eq!(
        stg().get_remote_version_info(&source, InfoStage::Reading, text(" {} ")),
        Step::Perform(InfoStage::Decoding, Request::DecodeVersionInfo { text: " {} ".to_string() })
    );
    assert_eq!(
        stg().get_remote_version_info(
            &source,
            InfoStage::Reading,
            Some(Reply::Failed(Failure::Network))
        ),
        Step::Finish(Err(Error::Network))
    );
    assert_eq!(
        stg().get_remote_version_info(
            &source,
            InfoStage::Decoding,
            Some(Reply::Decoded(Some(version())))
        ),
        Step::Finish(Ok(Some(version())))
    );
}

#[test]
fn local_json_is_trimmed_and_checked() {
    assert_eq!(
        stg().get_version_info_json(TextStage::Reading, text("  {\"AssemblyVersion\": \"1\"}\n")),
        Step::Finish(Ok(Some("{\"AssemblyVersion\": \"1\"}".to_string())))
    );
    assert_eq!(
        stg().get_version_info_json(TextStage::Reading, text("[1, 2, {\"a\": null}]")),
        Step::Finish(Ok(Some("[1, 2, {\"a\": null}]".to_string())))
    );
}

#[test]
fn local_text_that_is_not_json_is_malformed() {
    assert_eq!(
        stg().get_version_info_json(TextStage::Reading, text("{\"AssemblyVersion\": ")),
        Step::Finish(Err(Error::MalformedVersionInfo))
    );
    assert_eq!(
        stg().get_version_info_json(TextStage::Reading, text("{} trailing")),
        Step::Finish(Err(Error::MalformedVersionInfo))
    );
    assert_eq!(
        stg().get_version_info_json(TextStage::Reading, text("not json")),
        Step::Finish(Err(Error::MalformedVersionInfo))
    );
}

#[test]
fn blank_or_absent_local_json_is_none() {
    assert_eq!(
        stg().get_version_info_json(TextStage::Reading, text("   \n")),
        Step::Finish(Ok(None))
    );
    assert_eq!(
        stg().get_version_info_json(TextStage::Reading, Some(Reply::Text(None))),
        Step::Finish(Ok(None))
    );
    assert_eq!(
        stg().get_version_info_json(TextStage::Start, None),
        Step::Perform(TextStage::Reading, Request::ReadVersionInfo { branch: "stg".to_string() })
    );
}

#[test]
fn remote_json_is_checked_and_passed_on_as_fetched() {
    let source = GoatcorpReleaseSource;
    assert_eq!(
        stg().get_remote_version_info_json(&source, TextStage::Reading, text(" {\"a\": 1}\n")),
        Step::Finish(Ok(Some(" {\"a\": 1}\n".to_string())))
    );
    assert_eq!(
        stg().get_remote_version_info_json(&source, TextStage::Reading, text("<html>")),
        Step::Finish(Err(Error::MalformedVersionInfo))
    );
    assert_eq!(
        stg().get_remote_version_info_json(&source, TextStage::Reading, text("")),
        Step::Finish(Err(Error::MalformedVersionInfo))
    );
    assert_eq!(
        stg().get_remote_version_info_json(
            &source,
            TextStage::Reading,
            Some(Reply::Failed(Failure::Network))
        ),
        Step::Finish(Err(Error::Network))
    );
}

#[test]
fn json_verdict_decides_what_is_yielded() {
    assert_eq!(accept_local_json("{}".to_string(), true), Ok(Some("{}".to_string())));
    assert_eq!(accept_local_json("{".to_string(), false), Err(Error::MalformedVersionInfo));
    assert_eq!(accept_local_json(String::new(), false), Ok(None));
    assert_eq!(accept_local_json(String::new(), true), Ok(None));
    assert_eq!(accept_remote_json("{}".to_string(), true), Ok(Some("{}".to_string())));
    assert_eq!(accept_remote_json(String::new(), false), Err(Error::MalformedVersionInfo));
}
