//! Ingestion of player events, and the shutdown notice.
use vstd::prelude::*;
use crate::channel::{EventChannel, PublishOutcome};
use crate::event::{event_msgpack, EventStreamMessage, SerializedEventData, UpdatePlayerLoginStateRequest};

verus! {

/// The answer to an ingestion request.
#[derive(Clone, Copy, Debug, PartialEq, Eq, Structural)]
pub enum IngestStatus {
    /// The event was taken and published (whether anyone listened or not).
    Accepted,
    /// The submission failed validation; nothing was published.
    BadRequest,
    /// The event could not be encoded; nothing was published.
    InternalError,
}

impl IngestStatus {
    /// The HTTP status of this answer.
    pub fn status_code(&self) -> (r: u16)
        ensures
            *self == IngestStatus::Accepted ==> r == 202,
            *self == IngestStatus::BadRequest ==> r == 400,
            *self == IngestStatus::InternalError ==> r == 500,
    {
        match self {
            IngestStatus::Accepted => 202,
            IngestStatus::BadRequest => 400,
            IngestStatus::InternalError => 500,
        }
    }
}

/// Publishes an encoded event, or reports the encoding failure without
/// publishing. The number of subscribers never changes the answer.
pub fn publish_encoded<E>(
    channel: &mut EventChannel<EventStreamMessage>,
    encoded: Result<SerializedEventData, E>,
) -> (r: IngestStatus)
    ensures
        match encoded {
            Ok(d) => r == IngestStatus::Accepted && final(channel).published() == old(
                channel,
            ).published().push(EventStreamMessage::Data(d)),
            Err(_) => r == IngestStatus::InternalError && final(channel).published() == old(
                channel,
            ).published(),
        },
{
    match encoded {
        Ok(data) => {
            let _ = channel.publish(EventStreamMessage::Data(data));
            IngestStatus::Accepted
        },
        Err(_) => IngestStatus::InternalError,
    }
}

/// Encodes the reported event once and publishes it to every subscriber.
pub fn send_event_handler(
    channel: &mut EventChannel<EventStreamMessage>,
    update: UpdatePlayerLoginStateRequest,
) -> (r: IngestStatus)
    ensures
        r == IngestStatus::Accepted,
        final(channel).published().len() == old(channel).published().len() + 1,
        final(channel).published().drop_last() == old(channel).published(),
        final(channel).published().last() is Data,
        final(channel).published().last()->Data_0@ == event_msgpack(
            update.content_id_hash@,
            update.content_id_salt@,
            update.logged_in,
            update.territory_id,
            update.world_id,
        ),
{
    let event = update.to_event();
    let r = publish_encoded(channel, SerializedEventData::new(&event));
    assert(final(channel).published().drop_last() =~= old(channel).published());
    r
}

impl EventChannel<EventStreamMessage> {
    /// Tells every open stream that no further events will come.
    pub fn announce_shutdown(&mut self) -> (r: PublishOutcome)
        ensures
            final(self).published() == old(self).published().push(EventStreamMessage::Shutdown),
            r is Delivered ==> crate::channel::recipients(r) >= 1,
    {
        self.publish(EventStreamMessage::Shutdown)
    }
}

} // verus!
