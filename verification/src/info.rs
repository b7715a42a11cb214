//! Reading the version information of an installation, local and remote.
//!
//! Text is framed and checked here; turning it into a
//! [`DalamudVersionInfo`] is asked of the caller.

use crate::exchange::{Error, Failure, Reply, ReplyView, Request, RequestView, Step, StepView};
use crate::json::{is_json, well_formed_json};
use crate::management::DalamudInstallation;
use crate::sources::ReleaseSource;
use crate::text::{trim, trimmed};
use crate::version_info::{DalamudVersionInfo, VersionInfoView};
use vstd::prelude::*;

verus! {

/// The stages of obtaining version information: the text is read or
/// fetched, then decoded.
#[derive(Clone, Copy, Debug, PartialEq, Eq, Structural)]
pub enum InfoStage {
    Start,
    Reading,
    Decoding,
}

impl DeepView for InfoStage {
    type V = InfoStage;

    open spec fn deep_view(&self) -> InfoStage {
        *self
    }
}

/// The stages of obtaining version information as raw text.
#[derive(Clone, Copy, Debug, PartialEq, Eq, Structural)]
pub enum TextStage {
    Start,
    Reading,
}

impl DeepView for TextStage {
    type V = TextStage;

    open spec fn deep_view(&self) -> TextStage {
        *self
    }
}

/// What a reply says of a local file: its text, or that there is none.
pub open spec fn local_text(reply: Option<ReplyView>) -> Result<Option<Seq<char>>, Error> {
    match reply {
        Some(ReplyView::Text(text)) => Ok(text),
        Some(ReplyView::Failed(Failure::NotFound)) => Ok(None),
        Some(ReplyView::Failed(failure)) => Err(failure.surfaced()),
        _ => Err(Error::UnexpectedReply),
    }
}

/// What a reply says of a remote resource: its body.
pub open spec fn remote_text(reply: Option<ReplyView>) -> Result<Seq<char>, Error> {
    match reply {
        Some(ReplyView::Text(Some(text))) => Ok(text),
        Some(ReplyView::Failed(failure)) => Err(failure.surfaced()),
        _ => Err(Error::UnexpectedReply),
    }
}

/// What a reply to a decoding request says.
pub open spec fn decoded(reply: Option<ReplyView>) -> Result<VersionInfoView, Error> {
    match reply {
        Some(ReplyView::Decoded(Some(info))) => Ok(info),
        Some(ReplyView::Decoded(None)) => Err(Error::MalformedVersionInfo),
        Some(ReplyView::Failed(failure)) => Err(failure.surfaced()),
        _ => Err(Error::UnexpectedReply),
    }
}

/// How `get_version_info` moves. A file that is absent, and one that holds
/// nothing but whitespace, both mean that there is no version information.
pub open spec fn get_version_info_step(
    branch: Seq<char>,
    stage: InfoStage,
    reply: Option<ReplyView>,
) -> StepView<InfoStage, Option<VersionInfoView>> {
    match stage {
        InfoStage::Start => StepView::Perform(
            InfoStage::Reading,
            RequestView::ReadVersionInfo { branch },
        ),
        InfoStage::Reading => match local_text(reply) {
            Ok(Some(text)) => if trimmed(text).len() == 0 {
                StepView::Finish(Ok(None))
            } else {
                StepView::Perform(
                    InfoStage::Decoding,
                    RequestView::DecodeVersionInfo { text: trimmed(text) },
                )
            },
            Ok(None) => StepView::Finish(Ok(None)),
            Err(error) => StepView::Finish(Err(error)),
        },
        InfoStage::Decoding => match decoded(reply) {
            Ok(info) => StepView::Finish(Ok(Some(info))),
            Err(error) => StepView::Finish(Err(error)),
        },
    }
}

/// How `get_remote_version_info` moves for the version information at
/// `info_url`.
pub open spec fn get_remote_version_info_step(
    info_url: Seq<char>,
    stage: InfoStage,
    reply: Option<ReplyView>,
) -> StepView<InfoStage, Option<VersionInfoView>> {
    match stage {
        InfoStage::Start => StepView::Perform(
            InfoStage::Reading,
            RequestView::FetchText { url: info_url },
        ),
        InfoStage::Reading => match remote_text(reply) {
            Ok(text) => StepView::Perform(
                InfoStage::Decoding,
                RequestView::DecodeVersionInfo { text },
            ),
            Err(error) => StepView::Finish(Err(error)),
        },
        InfoStage::Decoding => match decoded(reply) {
            Ok(info) => StepView::Finish(Ok(Some(info))),
            Err(error) => StepView::Finish(Err(error)),
        },
    }
}

/// How `get_version_info_json` moves. What it yields is the trimmed text of
/// the file, and only if that is well-formed JSON.
pub open spec fn get_version_info_json_step(
    branch: Seq<char>,
    stage: TextStage,
    reply: Option<ReplyView>,
) -> StepView<TextStage, Option<Seq<char>>> {
    match stage {
        TextStage::Start => StepView::Perform(
            TextStage::Reading,
            RequestView::ReadVersionInfo { branch },
        ),
        TextStage::Reading => match local_text(reply) {
            Ok(Some(text)) => StepView::Finish(
                local_json_outcome(trimmed(text), well_formed_json(trimmed(text))),
            ),
            Ok(None) => StepView::Finish(Ok(None)),
            Err(error) => StepView::Finish(Err(error)),
        },
    }
}

/// What `get_version_info_json` yields for the trimmed text `content` of the
/// file, where `valid` says whether that text is well-formed JSON.
pub open spec fn local_json_outcome(content: Seq<char>, valid: bool) -> Result<
    Option<Seq<char>>,
    Error,
> {
    if content.len() == 0 {
        Ok(None)
    } else if valid {
        Ok(Some(content))
    } else {
        Err(Error::MalformedVersionInfo)
    }
}

/// Computes [`local_json_outcome`].
pub fn accept_local_json(content: String, valid: bool) -> (outcome: Result<Option<String>, Error>)
    ensures
        match outcome {
            Ok(text) => local_json_outcome(content@, valid) == Ok::<_, Error>(text.deep_view()),
            Err(error) => local_json_outcome(content@, valid) == Err::<Option<Seq<char>>, _>(
                error,
            ),
        },
{
    if content.as_str().is_empty() {
        Ok(None)
    } else if valid {
        Ok(Some(content))
    } else {
        Err(Error::MalformedVersionInfo)
    }
}

/// How `get_remote_version_info_json` moves for the version information at
/// `info_url`. What it yields is the body as fetched, and only if that is
/// well-formed JSON.
pub open spec fn get_remote_version_info_json_step(
    info_url: Seq<char>,
    stage: TextStage,
    reply: Option<ReplyView>,
) -> StepView<TextStage, Option<Seq<char>>> {
    match stage {
        TextStage::Start => StepView::Perform(
            TextStage::Reading,
            RequestView::FetchText { url: info_url },
        ),
        TextStage::Reading => match remote_text(reply) {
            Ok(text) => StepView::Finish(remote_json_outcome(text, well_formed_json(text))),
            Err(error) => StepView::Finish(Err(error)),
        },
    }
}

/// What `get_remote_version_info_json` yields for the fetched `body`, where
/// `valid` says whether it is well-formed JSON.
pub open spec fn remote_json_outcome(body: Seq<char>, valid: bool) -> Result<
    Option<Seq<char>>,
    Error,
> {
    if valid {
        Ok(Some(body))
    } else {
        Err(Error::MalformedVersionInfo)
    }
}

/// Computes [`remote_json_outcome`].
pub fn accept_remote_json(body: String, valid: bool) -> (outcome: Result<Option<String>, Error>)
    ensures
        match outcome {
            Ok(text) => remote_json_outcome(body@, valid) == Ok::<_, Error>(text.deep_view()),
            Err(error) => remote_json_outcome(body@, valid) == Err::<Option<Seq<char>>, _>(error),
        },
{
    if valid {
        Ok(Some(body))
    } else {
        Err(Error::MalformedVersionInfo)
    }
}

/// Computes [`local_text`].
pub fn read_local_text(reply: Option<Reply>) -> (outcome: Result<Option<String>, Error>)
    ensures
        match outcome {
            Ok(text) => local_text(reply.deep_view()) == Ok::<_, Error>(text.deep_view()),
            Err(error) => local_text(reply.deep_view()) == Err::<Option<Seq<char>>, _>(error),
        },
{
    match reply {
        Some(Reply::Text(text)) => Ok(text),
        Some(Reply::Failed(Failure::NotFound)) => Ok(None),
        Some(Reply::Failed(failure)) => Err(failure.surface()),
        _ => Err(Error::UnexpectedReply),
    }
}

/// Computes [`remote_text`].
pub fn read_remote_text(reply: Option<Reply>) -> (outcome: Result<String, Error>)
    ensures
        match outcome {
            Ok(text) => remote_text(reply.deep_view()) == Ok::<_, Error>(text@),
            Err(error) => remote_text(reply.deep_view()) == Err::<Seq<char>, _>(error),
        },
{
    match reply {
        Some(Reply::Text(Some(text))) => Ok(text),
        Some(Reply::Failed(failure)) => Err(failure.surface()),
        _ => Err(Error::UnexpectedReply),
    }
}

/// Computes [`decoded`].
pub fn read_decoded(reply: Option<Reply>) -> (outcome: Result<DalamudVersionInfo, Error>)
    ensures
        match outcome {
            Ok(info) => decoded(reply.deep_view()) == Ok::<_, Error>(info@),
            Err(error) => decoded(reply.deep_view()) == Err::<VersionInfoView, _>(error),
        },
{
    match reply {
        Some(Reply::Decoded(Some(info))) => Ok(info),
        Some(Reply::Decoded(None)) => Err(Error::MalformedVersionInfo),
        Some(Reply::Failed(failure)) => Err(failure.surface()),
        _ => Err(Error::UnexpectedReply),
    }
}

impl DalamudInstallation {
    /// The version information stored with this installation.
    pub fn get_version_info(&self, stage: InfoStage, reply: Option<Reply>) -> (step: Step<
        InfoStage,
        Option<DalamudVersionInfo>,
    >)
        ensures
            step.deep_view() == get_version_info_step(self@, stage, reply.deep_view()),
    {
        match stage {
            InfoStage::Start => Step::Perform(
                InfoStage::Reading,
                Request::ReadVersionInfo { branch: self.branch_name.clone() },
            ),
            InfoStage::Reading => match read_local_text(reply) {
                Ok(Some(text)) => {
                    let content = trim(text.as_str());
                    if content.is_empty() {
                        Step::Finish(Ok(None))
                    } else {
                        Step::Perform(
                            InfoStage::Decoding,
                            Request::DecodeVersionInfo { text: content.to_owned() },
                        )
                    }
                },
                Ok(None) => Step::Finish(Ok(None)),
                Err(error) => Step::Finish(Err(error)),
            },
            InfoStage::Decoding => match read_decoded(reply) {
                Ok(info) => Step::Finish(Ok(Some(info))),
                Err(error) => Step::Finish(Err(error)),
            },
        }
    }

    /// The version information that `release_source` currently publishes for
    /// this branch.
    pub fn get_remote_version_info<RS: ReleaseSource>(
        &self,
        release_source: &RS,
        stage: InfoStage,
        reply: Option<Reply>,
    ) -> (step: Step<InfoStage, Option<DalamudVersionInfo>>)
        ensures
            step.deep_view() == get_remote_version_info_step(
                release_source.version_info_url(self@),
                stage,
                reply.deep_view(),
            ),
    {
        match stage {
            InfoStage::Start => Step::Perform(
                InfoStage::Reading,
                Request::FetchText {
                    resource: release_source.get_version_info_file(self.branch_name.as_str()),
                },
            ),
            InfoStage::Reading => match read_remote_text(reply) {
                Ok(text) => Step::Perform(InfoStage::Decoding, Request::DecodeVersionInfo { text }),
                Err(error) => Step::Finish(Err(error)),
            },
            InfoStage::Decoding => match read_decoded(reply) {
                Ok(info) => Step::Finish(Ok(Some(info))),
                Err(error) => Step::Finish(Err(error)),
            },
        }
    }

    /// The version information stored with this installation, as the text it
    /// was stored as, checked to be JSON.
    pub fn get_version_info_json(&self, stage: TextStage, reply: Option<Reply>) -> (step: Step<
        TextStage,
        Option<String>,
    >)
        ensures
            step.deep_view() == get_version_info_json_step(self@, stage, reply.deep_view()),
    {
        match stage {
            TextStage::Start => Step::Perform(
                TextStage::Reading,
                Request::ReadVersionInfo { branch: self.branch_name.clone() },
            ),
            TextStage::Reading => match read_local_text(reply) {
                Ok(Some(text)) => {
                    let content = trim(text.as_str());
                    let valid = is_json(content);
                    Step::Finish(accept_local_json(content.to_owned(), valid))
                },
                Ok(None) => Step::Finish(Ok(None)),
                Err(error) => Step::Finish(Err(error)),
            },
        }
    }

    /// The version information that `release_source` currently publishes for
    /// this branch, as the text it is published as, checked to be JSON.
    pub fn get_remote_version_info_json<RS: ReleaseSource>(
        &self,
        release_source: &RS,
        stage: TextStage,
        reply: Option<Reply>,
    ) -> (step: Step<TextStage, Option<String>>)
        ensures
            step.deep_view() == get_remote_version_info_json_step(
                release_source.version_info_url(self@),
                stage,
                reply.deep_view(),
            ),
    {
        match stage {
            TextStage::Start => Step::Perform(
                TextStage::Reading,
                Request::FetchText {
                    resource: release_source.get_version_info_file(self.branch_name.as_str()),
                },
            ),
            TextStage::Reading => match read_remote_text(reply) {
                Ok(text) => {
                    let valid = is_json(text.as_str());
                    Step::Finish(accept_remote_json(text, valid))
                },
                Err(error) => Step::Finish(Err(error)),
            },
        }
    }
}

} // verus!
