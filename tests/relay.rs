use goodfriend_api::announcement::{
    check_trimmed_message, post_announcement, AnnouncementKind, AnnouncementMessage,
};
use goodfriend_api::channel::{EventChannel, PublishOutcome};
use goodfriend_api::event::{EventData, EventStreamMessage, SerializedEventData, UpdatePlayerLoginStateRequest};
use goodfriend_api::ingest::{publish_encoded, send_event_handler, IngestStatus};
use goodfriend_api::loginstate::{
    self, encode_update, send_loginstate_handler, update_stream_step, PlayerStateUpdateType,
    UpdateStreamEvent,
};
use goodfriend_api::stream::{heartbeat_frame, LiveStream, StreamAction, StreamEvent, StreamPhase};
use tokio::sync::broadcast::error::TryRecvError;

type Decoded = (serde_bytes::ByteBuf, serde_bytes::ByteBuf, bool, u16, u16);

fn request(world_id: u16, territory_id: u16, logged_in: bool) -> UpdatePlayerLoginStateRequest {
    UpdatePlayerLoginStateRequest {
        content_id_hash: [0xAB; 32],
        content_id_salt: [0x5C; 16],
        logged_in,
        territory_id,
        world_id,
    }
}

fn expect_data(msg: EventStreamMessage) -> SerializedEventData {
    match msg {
        EventStreamMessage::Data(d) => d,
        EventStreamMessage::Shutdown => panic!("expected data"),
    }
}

fn emitted(a: StreamAction) -> Vec<u8> {
    match a {
        StreamAction::Emit(v) => v,
        other => panic!("expected a frame, got {:?}", other),
    }
}

#[test]
fn event_encoding_is_compact_msgpack() {
    let data = EventData {
        content_id_hash: [1; 32],
        content_id_salt: [2; 16],
        logged_in: true,
        territory_id: 7,
        world_id: 3,
    };
    let bytes = SerializedEventData::new(&data).ok().unwrap().into_bytes();
    let mut expected = vec![0x95, 0xc4, 0x20];
    expected.extend_from_slice(&[1; 32]);
    expected.extend_from_slice(&[0xc4, 0x10]);
    expected.extend_from_slice(&[2; 16]);
    expected.extend_from_slice(&[0xc3, 0x07, 0x03]);
    assert_eq!(bytes, expected);
}

#[test]
fn event_encoding_of_wide_numbers() {
    let data = EventData {
        content_id_hash: [0; 32],
        content_id_salt: [0; 16],
        logged_in: false,
        territory_id: 300,
        world_id: 65535,
    };
    let data = SerializedEventData::new(&data).ok().unwrap();
    let bytes = data.as_bytes();
    assert_eq!(&bytes[bytes.len() - 7..], &[0xc2, 0xcd, 0x01, 0x2c, 0xcd, 0xff, 0xff]);
}

#[test]
fn heartbeat_is_an_empty_msgpack_array() {
    assert_eq!(heartbeat_frame(), vec![0x90]);
    let decoded: Vec<u8> = rmp_serde::from_slice(&heartbeat_frame()).unwrap();
    assert!(decoded.is_empty());
}

#[test]
fn publish_without_subscribers_is_not_an_error() {
    let mut channel: EventChannel<EventStreamMessage> = EventChannel::new(16);
    assert_eq!(channel.receiver_count(), 0);
    assert_eq!(channel.publish(EventStreamMessage::Shutdown), PublishOutcome::NoSubscribers);
    assert_eq!(send_event_handler(&mut channel, request(1, 2, true)), IngestStatus::Accepted);
    assert_eq!(channel.announce_shutdown(), PublishOutcome::NoSubscribers);
}

#[test]
fn publish_reports_recipients() {
    let mut channel: EventChannel<EventStreamMessage> = EventChannel::new(16);
    let _a = channel.subscribe();
    let _b = channel.subscribe();
    assert_eq!(channel.receiver_count(), 2);
    assert_eq!(channel.publish(EventStreamMessage::Shutdown), PublishOutcome::Delivered(2));
}

#[test]
fn subscription_sees_only_later_messages() {
    let mut channel: EventChannel<EventStreamMessage> = EventChannel::new(16);
    let mut early = channel.subscribe();
    send_event_handler(&mut channel, request(1, 1, true));
    let mut late = channel.subscribe();
    send_event_handler(&mut channel, request(2, 2, true));
    assert!(early.receiver.try_recv().is_ok());
    assert!(early.receiver.try_recv().is_ok());
    let only = expect_data(late.receiver.try_recv().unwrap());
    let decoded: Decoded = rmp_serde::from_slice(only.as_bytes()).unwrap();
    assert_eq!(decoded.4, 2);
    assert!(matches!(late.receiver.try_recv(), Err(TryRecvError::Empty)));
}

#[test]
fn every_subscriber_sees_every_message_in_order() {
    let mut channel: EventChannel<EventStreamMessage> = EventChannel::new(16);
    let mut subs = vec![channel.subscribe(), channel.subscribe(), channel.subscribe()];
    for world in 0..10u16 {
        assert_eq!(send_event_handler(&mut channel, request(world, 0, true)), IngestStatus::Accepted);
    }
    for sub in subs.iter_mut() {
        for world in 0..10u16 {
            let d = expect_data(sub.receiver.try_recv().unwrap());
            let decoded: Decoded = rmp_serde::from_slice(d.as_bytes()).unwrap();
            assert_eq!(decoded.4, world);
        }
        assert!(matches!(sub.receiver.try_recv(), Err(TryRecvError::Empty)));
    }
}

#[test]
fn lagging_subscriber_is_told_then_resumes_in_order() {
    let mut channel: EventChannel<EventStreamMessage> = EventChannel::new(4);
    let mut sub = channel.subscribe();
    for world in 0..10u16 {
        send_event_handler(&mut channel, request(world, 0, false));
    }
    assert!(matches!(sub.receiver.try_recv(), Err(TryRecvError::Lagged(6))));
    for world in 6..10u16 {
        let d = expect_data(sub.receiver.try_recv().unwrap());
        let decoded: Decoded = rmp_serde::from_slice(d.as_bytes()).unwrap();
        assert_eq!(decoded.4, world);
    }
    assert!(matches!(sub.receiver.try_recv(), Err(TryRecvError::Empty)));
}

#[test]
fn login_state_change_reaches_the_stream_as_one_data_frame() {
    let mut channel: EventChannel<EventStreamMessage> = EventChannel::new(16);
    let mut sub = channel.subscribe();
    let mut stream = LiveStream::new();
    let first = stream.connect();
    assert_eq!(first, vec![0x90]);

    let update = request(3, 7, true);
    assert_eq!(send_event_handler(&mut channel, update), IngestStatus::Accepted);

    let msg = sub.receiver.try_recv().unwrap();
    let frame = emitted(stream.step(StreamEvent::Received(msg)));
    let decoded: Decoded = rmp_serde::from_slice(&frame).unwrap();
    assert_eq!(decoded.0.as_slice(), &[0xAB; 32]);
    assert_eq!(decoded.1.as_slice(), &[0x5C; 16]);
    assert!(decoded.2);
    assert_eq!(decoded.3, 7);
    assert_eq!(decoded.4, 3);
    assert!(matches!(sub.receiver.try_recv(), Err(TryRecvError::Empty)));
    assert_eq!(stream.phase, StreamPhase::Streaming);
}

#[test]
fn shutdown_before_any_event_closes_after_the_first_heartbeat() {
    let mut channel: EventChannel<EventStreamMessage> = EventChannel::new(16);
    let mut sub = channel.subscribe();
    let mut stream = LiveStream::new();
    assert_eq!(stream.connect(), vec![0x90]);
    assert_eq!(channel.announce_shutdown(), PublishOutcome::Delivered(1));
    let msg = sub.receiver.try_recv().unwrap();
    assert!(matches!(stream.step(StreamEvent::Received(msg)), StreamAction::Finish));
    assert_eq!(stream.phase, StreamPhase::Closed);
    assert!(matches!(stream.step(StreamEvent::Tick), StreamAction::Finish));
}

#[test]
fn stream_steps() {
    let mut stream = LiveStream::new();
    assert_eq!(stream.phase, StreamPhase::Connecting);
    stream.connect();
    assert_eq!(emitted(stream.step(StreamEvent::Tick)), vec![0x90]);
    assert!(matches!(stream.step(StreamEvent::Lagged(12)), StreamAction::Skip));
    assert_eq!(stream.phase, StreamPhase::Streaming);
    let data = SerializedEventData::new(&request(9, 9, true).to_event()).ok().unwrap();
    let expected = data.as_bytes().clone();
    let frame = emitted(stream.step(StreamEvent::Received(EventStreamMessage::Data(data))));
    assert_eq!(frame, expected);
    assert!(matches!(stream.step(StreamEvent::ClientGone), StreamAction::Finish));
    assert!(matches!(stream.step(StreamEvent::Received(EventStreamMessage::Shutdown)), StreamAction::Finish));
}

#[test]
fn closed_channel_ends_the_stream() {
    let mut stream = LiveStream::new();
    stream.connect();
    assert!(matches!(stream.step(StreamEvent::ChannelClosed), StreamAction::Finish));
    assert_eq!(stream.phase, StreamPhase::Closed);
}

#[test]
fn encoding_failure_is_an_internal_error() {
    let mut channel: EventChannel<EventStreamMessage> = EventChannel::new(16);
    let mut sub = channel.subscribe();
    let failed: Result<SerializedEventData, &str> = Err("broken");
    assert_eq!(publish_encoded(&mut channel, failed), IngestStatus::InternalError);
    assert!(matches!(sub.receiver.try_recv(), Err(TryRecvError::Empty)));
    let ok: Result<SerializedEventData, &str> = Ok(SerializedEventData::new(&request(1, 1, true).to_event()).ok().unwrap());
    assert_eq!(publish_encoded(&mut channel, ok), IngestStatus::Accepted);
    assert!(sub.receiver.try_recv().is_ok());
}

#[test]
fn ingest_status_codes() {
    assert_eq!(IngestStatus::Accepted.status_code(), 202);
    assert_eq!(IngestStatus::BadRequest.status_code(), 400);
    assert_eq!(IngestStatus::InternalError.status_code(), 500);
}

fn announcement(message: &str) -> AnnouncementMessage {
    AnnouncementMessage {
        message: message.to_string(),
        kind: AnnouncementKind::Maintenance,
        channel: None,
    }
}

#[test]
fn empty_announcement_is_refused_and_not_published() {
    let mut channel: EventChannel<AnnouncementMessage> = EventChannel::new(16);
    let mut sub = channel.subscribe();
    assert_eq!(post_announcement(&mut channel, announcement("")), IngestStatus::BadRequest);
    assert!(matches!(sub.receiver.try_recv(), Err(TryRecvError::Empty)));
}

#[test]
fn blank_announcement_is_refused() {
    let mut channel: EventChannel<AnnouncementMessage> = EventChannel::new(16);
    let mut sub = channel.subscribe();
    assert_eq!(post_announcement(&mut channel, announcement("  \t\n ")), IngestStatus::BadRequest);
    assert!(matches!(sub.receiver.try_recv(), Err(TryRecvError::Empty)));
}

#[test]
fn announcement_is_published() {
    let mut channel: EventChannel<AnnouncementMessage> = EventChannel::new(16);
    let mut sub = channel.subscribe();
    let mut msg = announcement(" Servers restart at noon ");
    msg.kind = AnnouncementKind::Critical;
    msg.channel = Some("eu".to_string());
    assert_eq!(post_announcement(&mut channel, msg), IngestStatus::Accepted);
    let got = sub.receiver.try_recv().unwrap();
    assert_eq!(got.message, " Servers restart at noon ");
    assert_eq!(got.kind, AnnouncementKind::Critical);
    assert_eq!(got.channel.as_deref(), Some("eu"));
}

#[test]
fn announcement_without_subscribers_is_accepted() {
    let mut channel: EventChannel<AnnouncementMessage> = EventChannel::new(16);
    assert_eq!(post_announcement(&mut channel, announcement("hello")), IngestStatus::Accepted);
}

#[test]
fn trimmed_message_check() {
    assert_eq!(check_trimmed_message(""), IngestStatus::BadRequest);
    assert_eq!(check_trimmed_message(" "), IngestStatus::Accepted);
    assert_eq!(check_trimmed_message("x"), IngestStatus::Accepted);
}

fn text_request(hash_len: usize, salt_len: usize) -> loginstate::UpdatePlayerLoginStateRequest {
    loginstate::UpdatePlayerLoginStateRequest {
        content_id_hash: "h".repeat(hash_len),
        content_id_salt: "s".repeat(salt_len),
        logged_in: true,
        territory_id: 132,
        world_id: 70000,
    }
}

#[test]
fn text_login_state_with_short_identity_is_refused() {
    let mut channel = EventChannel::new(16);
    let mut sub = channel.subscribe();
    assert_eq!(send_loginstate_handler(&mut channel, text_request(63, 32)), IngestStatus::BadRequest);
    assert_eq!(send_loginstate_handler(&mut channel, text_request(64, 31)), IngestStatus::BadRequest);
    assert!(matches!(sub.receiver.try_recv(), Err(TryRecvError::Empty)));
}

#[test]
fn text_login_state_is_published() {
    let mut channel = EventChannel::new(16);
    let mut sub = channel.subscribe();
    assert_eq!(send_loginstate_handler(&mut channel, text_request(64, 32)), IngestStatus::Accepted);
    let got = sub.receiver.try_recv().unwrap();
    assert_eq!(got.content_id_hash, "h".repeat(64));
    assert_eq!(got.content_id_salt, "s".repeat(32));
    assert_eq!(
        got.state_update_type,
        PlayerStateUpdateType::LoginStateChange { world_id: 70000, territory_id: 132, logged_in: true }
    );
}

#[test]
fn cloned_channel_shares_subscribers() {
    let mut channel: EventChannel<EventStreamMessage> = EventChannel::new(16);
    let mut sub = channel.subscribe();
    let mut other = channel.clone();
    assert_eq!(other.receiver_count(), 1);
    assert_eq!(other.announce_shutdown(), PublishOutcome::Delivered(1));
    assert!(matches!(sub.receiver.try_recv(), Ok(EventStreamMessage::Shutdown)));
}

#[test]
fn event_encoding_of_one_byte_numbers() {
    let data = EventData {
        content_id_hash: [0; 32],
        content_id_salt: [0; 16],
        logged_in: true,
        territory_id: 200,
        world_id: 127,
    };
    let data = SerializedEventData::new(&data).ok().unwrap();
    let bytes = data.as_bytes();
    assert_eq!(bytes.len(), 3 + 32 + 2 + 16 + 1 + 2 + 1);
    assert_eq!(&bytes[bytes.len() - 4..], &[0xc3, 0xcc, 200, 127]);
}

#[test]
fn update_encoding_is_compact_msgpack() {
    let update = text_request(64, 32).into_update();
    let bytes = encode_update(&update).ok().unwrap();
    let mut expected = vec![0x93, 0xd9, 64];
    expected.extend_from_slice("h".repeat(64).as_bytes());
    expected.extend_from_slice(&[0xd9, 32]);
    expected.extend_from_slice("s".repeat(32).as_bytes());
    expected.extend_from_slice(&[0x81, 0xb0]);
    expected.extend_from_slice(b"LoginStateChange");
    expected.extend_from_slice(&[0x93, 0xce, 0x00, 0x01, 0x11, 0x70, 0xcc, 132, 0xc3]);
    assert_eq!(bytes, expected);
}

#[test]
fn update_stream_steps() {
    assert_eq!(emitted(update_stream_step(UpdateStreamEvent::Encoded(Ok(vec![1, 2, 3])))), vec![1, 2, 3]);
    assert!(matches!(update_stream_step(UpdateStreamEvent::Encoded(Err(()))), StreamAction::Skip));
    assert!(matches!(update_stream_step(UpdateStreamEvent::Lagged(4)), StreamAction::Skip));
    assert!(matches!(update_stream_step(UpdateStreamEvent::ChannelClosed), StreamAction::Finish));
    assert!(matches!(update_stream_step(UpdateStreamEvent::ClientGone), StreamAction::Finish));
    assert!(matches!(update_stream_step(UpdateStreamEvent::ServerShutdown), StreamAction::Finish));
}

#[test]
fn published_update_reaches_a_subscriber_as_its_encoding() {
    let mut channel = EventChannel::new(16);
    let mut sub = channel.subscribe();
    assert_eq!(send_loginstate_handler(&mut channel, text_request(64, 32)), IngestStatus::Accepted);
    let got = sub.receiver.try_recv().unwrap();
    let frame = emitted(update_stream_step(UpdateStreamEvent::Encoded(encode_update(&got).map_err(|_| ()))));
    assert_eq!(frame, encode_update(&text_request(64, 32).into_update()).ok().unwrap());
}
