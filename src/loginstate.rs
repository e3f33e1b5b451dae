//! Ingestion of login state changes in the text identity profile, where the
//! hash and salt travel as text.
use vstd::prelude::*;
use crate::channel::EventChannel;
use crate::content_id::{CONTENT_ID_HASH_LENGTH, CONTENT_ID_SALT_LENGTH};
use crate::event::{msgpack_bool, msgpack_u16};
use crate::ingest::IngestStatus;
use crate::stream::StreamAction;
use vstd::utf8::encode_utf8;

verus! {

/// A login state change as submitted.
#[derive(Clone, Debug)]
pub struct UpdatePlayerLoginStateRequest {
    pub content_id_hash: String,
    pub content_id_salt: String,
    pub logged_in: bool,
    pub territory_id: u16,
    pub world_id: u32,
}

/// What changed about the player.
#[derive(Clone, Copy, Debug, PartialEq, Eq, Structural)]
pub enum PlayerStateUpdateType {
    LoginStateChange { world_id: u32, territory_id: u16, logged_in: bool },
}

/// The update broadcast to subscribers.
#[derive(Clone, Debug)]
pub struct PlayerEventStreamUpdate {
    pub content_id_hash: String,
    pub content_id_salt: String,
    pub state_update_type: PlayerStateUpdateType,
}

/// Whether the identity fields are long enough.
pub open spec fn well_shaped(hash: Seq<char>, salt: Seq<char>) -> bool {
    hash.len() >= CONTENT_ID_HASH_LENGTH && salt.len() >= CONTENT_ID_SALT_LENGTH
}

/// The update that a request reports.
pub open spec fn update_of(req: UpdatePlayerLoginStateRequest) -> PlayerEventStreamUpdate {
    PlayerEventStreamUpdate {
        content_id_hash: req.content_id_hash,
        content_id_salt: req.content_id_salt,
        state_update_type: PlayerStateUpdateType::LoginStateChange {
            world_id: req.world_id,
            territory_id: req.territory_id,
            logged_in: req.logged_in,
        },
    }
}

impl UpdatePlayerLoginStateRequest {
    /// Whether the identity fields are long enough.
    pub fn is_well_shaped(&self) -> (r: bool)
        ensures
            r == well_shaped(self.content_id_hash@, self.content_id_salt@),
    {
        self.content_id_hash.as_str().unicode_len() >= CONTENT_ID_HASH_LENGTH
            && self.content_id_salt.as_str().unicode_len() >= CONTENT_ID_SALT_LENGTH
    }

    /// The update this request reports.
    pub fn into_update(self) -> (r: PlayerEventStreamUpdate)
        ensures
            r == update_of(self),
    {
        PlayerEventStreamUpdate {
            content_id_hash: self.content_id_hash,
            content_id_salt: self.content_id_salt,
            state_update_type: PlayerStateUpdateType::LoginStateChange {
                world_id: self.world_id,
                territory_id: self.territory_id,
                logged_in: self.logged_in,
            },
        }
    }
}

/// Validates a login state change and, if its identity is well shaped,
/// publishes it.
pub fn send_loginstate_handler(
    channel: &mut EventChannel<PlayerEventStreamUpdate>,
    update: UpdatePlayerLoginStateRequest,
) -> (r: IngestStatus)
    ensures
        r == (if well_shaped(update.content_id_hash@, update.content_id_salt@) {
            IngestStatus::Accepted
        } else {
            IngestStatus::BadRequest
        }),
        r == IngestStatus::Accepted ==> final(channel).published() == old(
            channel,
        ).published().push(update_of(update)),
        r != IngestStatus::Accepted ==> final(channel).published() == old(channel).published(),
{
    if !update.is_well_shaped() {
        return IngestStatus::BadRequest;
    }
    let _ = channel.publish(update.into_update());
    IngestStatus::Accepted
}

/// The MessagePack form of an unsigned integer of 32 bits, in its smallest
/// form, most significant byte first.
pub open spec fn msgpack_u32(v: u32) -> Seq<u8> {
    if v < 65536 {
        msgpack_u16(v as u16)
    } else {
        seq![
            0xceu8,
            (v / 16777216) as u8,
            ((v / 65536) % 256) as u8,
            ((v / 256) % 256) as u8,
            (v % 256) as u8,
        ]
    }
}

/// The MessagePack form of a text of fewer than 65536 UTF-8 bytes.
pub open spec fn msgpack_str(b: Seq<u8>) -> Seq<u8> {
    if b.len() < 32 {
        seq![(0xa0 + b.len()) as u8] + b
    } else if b.len() < 256 {
        seq![0xd9u8, b.len() as u8] + b
    } else {
        seq![0xdau8, (b.len() / 256) as u8, (b.len() % 256) as u8] + b
    }
}

/// The name under which a login state change is tagged on the wire.
pub open spec fn login_state_change_tag() -> Seq<char> {
    seq!['L', 'o', 'g', 'i', 'n', 'S', 't', 'a', 't', 'e', 'C', 'h', 'a', 'n', 'g', 'e']
}

/// The compact MessagePack encoding of an update: a three element array of
/// the hash, the salt and the change, the change being a one entry map from
/// its tag to the array of world, territory and login flag.
pub open spec fn update_msgpack(
    hash: Seq<char>,
    salt: Seq<char>,
    tag: Seq<char>,
    world_id: u32,
    territory_id: u16,
    logged_in: bool,
) -> Seq<u8> {
    seq![0x93u8] + msgpack_str(encode_utf8(hash)) + msgpack_str(encode_utf8(salt)) + seq![0x81u8]
        + msgpack_str(encode_utf8(tag)) + seq![0x93u8] + msgpack_u32(world_id) + msgpack_u16(
        territory_id,
    ) + msgpack_bool(logged_in)
}

/// Whether every text of an update is short enough for the two forms
/// `msgpack_str` spells out.
pub open spec fn update_fits(hash: Seq<char>, salt: Seq<char>, tag: Seq<char>) -> bool {
    encode_utf8(hash).len() < 65536 && encode_utf8(salt).len() < 65536 && encode_utf8(tag).len()
        < 65536
}

/// Relies on `rmp_serde::to_vec` of a tuple (an array) of the two texts
/// (`write_str`) and a one entry `BTreeMap` from the tag to the tuple of world,
/// territory and flag (`write_map_len`, then the key and the array), which is
/// how rmp-serde writes a struct variant. Integers take their smallest form,
/// big endian.
#[verifier::external_body]
fn encode_update_fields(
    hash: &str,
    salt: &str,
    tag: &str,
    world_id: u32,
    territory_id: u16,
    logged_in: bool,
) -> (r: Result<Vec<u8>, rmp_serde::encode::Error>)
    ensures
        r is Ok && update_fits(hash@, salt@, tag@) ==> r->Ok_0@ == update_msgpack(
            hash@,
            salt@,
            tag@,
            world_id,
            territory_id,
            logged_in,
        ),
{
    let change: std::collections::BTreeMap<&str, (u32, u16, bool)> = std::iter::once(
        (tag, (world_id, territory_id, logged_in)),
    ).collect();
    rmp_serde::to_vec(&(hash, salt, change))
}

/// The wire bytes of an update.
pub open spec fn update_bytes(u: PlayerEventStreamUpdate) -> Seq<u8> {
    match u.state_update_type {
        PlayerStateUpdateType::LoginStateChange { world_id, territory_id, logged_in } =>
            update_msgpack(
            u.content_id_hash@,
            u.content_id_salt@,
            login_state_change_tag(),
            world_id,
            territory_id,
            logged_in,
        ),
    }
}

/// Whether every text of an update is short enough for the encoding to be
/// spelled out.
pub open spec fn update_encodable(u: PlayerEventStreamUpdate) -> bool {
    update_fits(u.content_id_hash@, u.content_id_salt@, login_state_change_tag())
}

/// Encodes an update for the wire, once per subscriber.
pub fn encode_update(u: &PlayerEventStreamUpdate) -> (r: Result<Vec<u8>, rmp_serde::encode::Error>)
    ensures
        r is Ok && update_encodable(*u) ==> r->Ok_0@ == update_bytes(*u),
{
    let tag = "LoginStateChange";
    proof {
        reveal_strlit("LoginStateChange");
        assert(tag@ =~= login_state_change_tag());
    }
    match u.state_update_type {
        PlayerStateUpdateType::LoginStateChange { world_id, territory_id, logged_in } =>
            encode_update_fields(
            u.content_id_hash.as_str(),
            u.content_id_salt.as_str(),
            tag,
            world_id,
            territory_id,
            logged_in,
        ),
    }
}

/// Something that happened to a stream of updates.
pub enum UpdateStreamEvent {
    /// The subscription yielded an update, and this is what encoding it gave.
    Encoded(Result<Vec<u8>, ()>),
    /// The subscription fell behind and this many updates were lost.
    Lagged(u64),
    /// Every sender of the channel is gone.
    ChannelClosed,
    /// The client went away.
    ClientGone,
    /// The server is shutting down.
    ServerShutdown,
}

/// What a stream of updates does about one event: it forwards the bytes of
/// an encoded update, skips an update that could not be encoded and a lag,
/// and ends on a closed channel, a departed client or a shutdown.
pub fn update_stream_step(ev: UpdateStreamEvent) -> (r: StreamAction)
    ensures
        ev matches UpdateStreamEvent::Encoded(Ok(b)) ==> r matches StreamAction::Emit(v) && v@
            == b@,
        ev matches UpdateStreamEvent::Encoded(Err(_)) ==> r is Skip,
        ev is Lagged ==> r is Skip,
        (ev is ChannelClosed || ev is ClientGone || ev is ServerShutdown) <==> r is Finish,
{
    match ev {
        UpdateStreamEvent::Encoded(Ok(b)) => StreamAction::Emit(b),
        UpdateStreamEvent::Encoded(Err(_)) => StreamAction::Skip,
        UpdateStreamEvent::Lagged(_) => StreamAction::Skip,
        _ => StreamAction::Finish,
    }
}

} // verus!
