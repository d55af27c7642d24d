//! One notification: the payload that is sent, how the answer is judged, and
//! the steps that replace the file with the answer while its own creation
//! event is suppressed.
use vstd::prelude::*;
use crate::config::Config;
use crate::dispatch::{dispatch_spec, Dispatch, WatchEventKind};
use crate::paths::{file_name_or_empty, file_name_or_empty_spec, is_xml_path};
use crate::suppression::SuppressionSet;
use crate::text::{has_prefix, str_has_prefix};

verus! {

/// How long, in seconds, a path stays suppressed after the watcher has
/// written it.
pub const IGNORE_DURATION_SECS: u64 = 2;

/// How long, in milliseconds, a new file is left to settle before it is read.
pub const SETTLE_DELAY_MILLIS: u64 = 500;

/// The body of a notification.
#[derive(Debug, Clone)]
pub struct WebhookPayload {
    /// Always `new_xml_file`.
    pub event: String,
    /// The path of the file, as watched.
    pub filepath: String,
    /// The final component of the path, empty when it has none.
    pub filename: String,
    /// The file's text, when it is sent and could be read.
    pub content: Option<String>,
    /// When the file was noticed, as RFC 3339 text.
    pub timestamp: String,
}

/// Relies on chrono's `Utc::now` and `DateTime::to_rfc3339`: the current time
/// as RFC 3339 text. Nothing is promised of its value.
#[verifier::external_body]
fn now_rfc3339() -> (r: String) {
    chrono::Utc::now().to_rfc3339()
}

impl WebhookPayload {
    /// A payload for the file at `filepath` with the given parts.
    pub fn new(filepath: &str, filename: String, content: Option<String>, timestamp: String) -> (r: WebhookPayload)
        ensures
            r.event@ == "new_xml_file"@,
            r.filepath@ == filepath@,
            r.filename == filename,
            r.content == content,
            r.timestamp == timestamp,
    {
        WebhookPayload {
            event: String::from_str("new_xml_file"),
            filepath: filepath.to_owned(),
            filename,
            content,
            timestamp,
        }
    }
}

/// The payload for the file at `filepath`, stamped with the current time.
/// `content` is what reading the file gave, absent when reading failed; it is
/// sent only when the settings ask for the file's text.
pub fn build_payload(config: &Config, filepath: &str, content: Option<String>) -> (r: WebhookPayload)
    ensures
        r.event@ == "new_xml_file"@,
        r.filepath@ == filepath@,
        r.filename@ == file_name_or_empty_spec(filepath@),
        r.content == (if config.include_content { content } else { None::<String> }),
{
    let filename = file_name_or_empty(filepath);
    let sent = if config.include_content { content } else { None };
    WebhookPayload::new(filepath, filename, sent, now_rfc3339())
}

/// Tells whether the file's text is to be read for the notification.
pub fn should_read_content(config: &Config) -> (r: bool)
    ensures
        r == config.include_content,
{
    config.include_content
}

/// What follows an answer of the webhook.
#[derive(Debug, Clone, Copy, PartialEq, Eq, Structural)]
pub enum ResponseAction {
    /// The status is not a success: the answer's body is reported as an error.
    Failed,
    /// The notification succeeded and nothing more is done.
    Sent,
    /// The answer's body is read to replace the file.
    ReadBody,
    /// The answer is not XML: a warning is given and the file is kept.
    NotXmlContent,
}

/// A status in the 2xx range.
pub open spec fn is_success_spec(status: u16) -> bool {
    200 <= status && status <= 299
}

/// A content type that begins with `text/xml` or `application/xml`, whatever
/// parameters follow.
pub open spec fn is_xml_content_type_spec(content_type: Seq<char>) -> bool {
    has_prefix(content_type, "text/xml"@) || has_prefix(content_type, "application/xml"@)
}

/// What follows an answer with `status` and `content_type`, given whether
/// replacing the file is active.
pub open spec fn response_action_spec(overwrite_active: bool, status: u16, content_type: Seq<char>) -> ResponseAction {
    if !is_success_spec(status) {
        ResponseAction::Failed
    } else if !overwrite_active {
        ResponseAction::Sent
    } else if is_xml_content_type_spec(content_type) {
        ResponseAction::ReadBody
    } else {
        ResponseAction::NotXmlContent
    }
}

/// Tells whether an HTTP status means success.
pub fn is_success_status(status: u16) -> (r: bool)
    ensures
        r == is_success_spec(status),
{
    200 <= status && status <= 299
}

/// Tells whether a content type announces XML.
pub fn is_xml_content_type(content_type: &str) -> (r: bool)
    ensures
        r == is_xml_content_type_spec(content_type@),
{
    str_has_prefix(content_type, "text/xml") || str_has_prefix(content_type, "application/xml")
}

/// Decides what follows an answer. The file is only ever replaced when both
/// overwriting and the file's text are asked for.
pub fn response_action(config: &Config, status: u16, content_type: &str) -> (r: ResponseAction)
    ensures
        r == response_action_spec(config.overwrite_active(), status, content_type@),
        !config.include_content ==> r != ResponseAction::ReadBody,
        !config.overwrite_with_response ==> r != ResponseAction::ReadBody,
{
    if !is_success_status(status) {
        ResponseAction::Failed
    } else if !config.overwrite_enabled() {
        ResponseAction::Sent
    } else if is_xml_content_type(content_type) {
        ResponseAction::ReadBody
    } else {
        ResponseAction::NotXmlContent
    }
}

/// First step of replacing the file at `path` with `body`. An empty body is
/// never written: the result is then `false` and nothing changes. Otherwise
/// the path is suppressed before anything is written, and the result `true`
/// tells the caller to write.
pub fn begin_overwrite(suppressed: &mut SuppressionSet, path: &str, body: &str) -> (r: bool)
    ensures
        r == (body@.len() > 0),
        r ==> final(suppressed)@ == old(suppressed)@.insert(path@),
        !r ==> final(suppressed)@ == old(suppressed)@,
{
    if body.unicode_len() == 0 {
        false
    } else {
        suppressed.insert(path);
        true
    }
}

/// Last step of replacing the file at `path`, once the write has succeeded
/// (`written`) or failed. After a failure the path is no longer suppressed;
/// after a success it stays, and the result `true` tells the caller to take
/// it out after [`IGNORE_DURATION_SECS`].
pub fn finish_overwrite(suppressed: &mut SuppressionSet, path: &str, written: bool) -> (release_later: bool)
    ensures
        release_later == written,
        written ==> final(suppressed)@ == old(suppressed)@,
        !written ==> final(suppressed)@ == old(suppressed)@.remove(path@),
{
    if !written {
        suppressed.remove(path);
    }
    written
}

/// Once the watcher has begun replacing a file with a non-empty answer, a
/// creation event for that file is not delivered; when the path is taken out
/// of the set again, a creation of that regular XML file is delivered once more.
pub proof fn lemma_own_write_not_delivered(
    suppressed: Set<Seq<char>>,
    path: Seq<char>,
    is_regular_file: bool,
)
    ensures
        dispatch_spec(WatchEventKind::Create, is_regular_file, path, suppressed.insert(path))
            != Dispatch::Deliver,
        is_regular_file && is_xml_path(path) ==> dispatch_spec(
            WatchEventKind::Create,
            is_regular_file,
            path,
            suppressed.insert(path),
        ) == Dispatch::Suppressed,
        is_regular_file && is_xml_path(path) ==> dispatch_spec(
            WatchEventKind::Create,
            is_regular_file,
            path,
            suppressed.insert(path).remove(path),
        ) == Dispatch::Deliver,
{
}

} // verus!
