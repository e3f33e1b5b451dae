//! Announcements: free text messages broadcast to every subscriber.
use vstd::prelude::*;
use crate::channel::EventChannel;
use crate::ingest::IngestStatus;
use crate::text::{trim_text, trimmed};

verus! {

/// How urgent an announcement is.
#[derive(Clone, Copy, Debug, PartialEq, Eq, Structural)]
pub enum AnnouncementKind {
    Informational,
    Maintenance,
    Critical,
    Miscellaneous,
}

/// An announcement as submitted and as broadcast.
#[derive(Clone, Debug)]
pub struct AnnouncementMessage {
    pub message: String,
    pub kind: AnnouncementKind,
    pub channel: Option<String>,
}

/// The answer to an announcement whose message, once trimmed, is
/// `trimmed_message`.
pub open spec fn announcement_verdict(trimmed_message: Seq<char>) -> IngestStatus {
    if trimmed_message.len() == 0 {
        IngestStatus::BadRequest
    } else {
        IngestStatus::Accepted
    }
}

/// Checks an announcement whose message has already been trimmed: a blank
/// message is refused.
pub fn check_trimmed_message(trimmed_message: &str) -> (r: IngestStatus)
    ensures
        r == announcement_verdict(trimmed_message@),
{
    if trimmed_message.unicode_len() == 0 {
        IngestStatus::BadRequest
    } else {
        IngestStatus::Accepted
    }
}

/// Validates an announcement and, if its message is not blank, publishes it.
pub fn post_announcement(
    channel: &mut EventChannel<AnnouncementMessage>,
    payload: AnnouncementMessage,
) -> (r: IngestStatus)
    ensures
        r == announcement_verdict(trimmed(payload.message@)),
        payload.message@.len() == 0 ==> r == IngestStatus::BadRequest,
        r == IngestStatus::Accepted ==> final(channel).published() == old(
            channel,
        ).published().push(payload),
        r != IngestStatus::Accepted ==> final(channel).published() == old(channel).published(),
{
    let verdict = check_trimmed_message(trim_text(payload.message.as_str()));
    if verdict == IngestStatus::Accepted {
        let _ = channel.publish(payload);
    }
    verdict
}

} // verus!
