//! The player event model and its wire form.
use vstd::prelude::*;

verus! {

/// Declares the MessagePack encoder's error so that encoding results can be
/// carried through verified code.
#[verifier::external_type_specification]
#[verifier::external_body]
pub struct ExEncodeError(rmp_serde::encode::Error);

/// The compact MessagePack form of an unsigned integer of 16 bits: a
/// positive fixint below 128, `0xcc` and one byte below 256, otherwise `0xcd`
/// and two bytes, most significant first.
pub open spec fn msgpack_u16(v: u16) -> Seq<u8> {
    if v < 128 {
        seq![v as u8]
    } else if v < 256 {
        seq![0xccu8, v as u8]
    } else {
        seq![0xcdu8, (v / 256) as u8, (v % 256) as u8]
    }
}

/// The MessagePack form of a boolean.
pub open spec fn msgpack_bool(b: bool) -> Seq<u8> {
    if b {
        seq![0xc3u8]
    } else {
        seq![0xc2u8]
    }
}

/// The compact MessagePack encoding of an event: a five element array of the
/// hash and salt (as `bin 8` strings), the login flag, the territory and the
/// world.
pub open spec fn event_msgpack(
    hash: Seq<u8>,
    salt: Seq<u8>,
    logged_in: bool,
    territory_id: u16,
    world_id: u16,
) -> Seq<u8> {
    seq![0x95u8, 0xc4u8, 32u8] + hash + seq![0xc4u8, 16u8] + salt + msgpack_bool(logged_in)
        + msgpack_u16(territory_id) + msgpack_u16(world_id)
}

/// Relies on `rmp_serde::to_vec` of a tuple (an array, `write_array_len`),
/// with the byte fields wrapped in `serde_bytes::Bytes` (`write_bin`), the
/// flag as `write_bool` and the integers as `write_uint` (smallest form, big
/// endian). It writes into a `Vec` whose only failure is an exhausted
/// allocator, which, as for every allocation in this library, is not
/// modelled.
#[verifier::external_body]
fn encode_event_fields(
    hash: &[u8; 32],
    salt: &[u8; 16],
    logged_in: bool,
    territory_id: u16,
    world_id: u16,
) -> (r: Result<Vec<u8>, rmp_serde::encode::Error>)
    ensures
        r is Ok,
        r is Ok ==> r->Ok_0@ == event_msgpack(hash@, salt@, logged_in, territory_id, world_id),
{
    rmp_serde::to_vec(
        &(
            serde_bytes::Bytes::new(hash),
            serde_bytes::Bytes::new(salt),
            logged_in,
            territory_id,
            world_id,
        ),
    )
}

/// A player's login state changed.
#[derive(Clone, Copy, Debug)]
pub struct EventData {
    pub content_id_hash: [u8; 32],
    pub content_id_salt: [u8; 16],
    pub logged_in: bool,
    pub territory_id: u16,
    pub world_id: u16,
}

/// The wire bytes of an event.
pub open spec fn event_bytes(d: EventData) -> Seq<u8> {
    event_msgpack(d.content_id_hash@, d.content_id_salt@, d.logged_in, d.territory_id, d.world_id)
}

/// An event encoded once, at publish time, so that subscribers forward the
/// bytes as they are.
#[derive(Clone, Debug)]
pub struct SerializedEventData(Vec<u8>);

impl View for SerializedEventData {
    type V = Seq<u8>;

    closed spec fn view(&self) -> Seq<u8> {
        self.0@
    }
}

impl SerializedEventData {
    /// Encodes `data`.
    pub fn new(data: &EventData) -> (r: Result<Self, rmp_serde::encode::Error>)
        ensures
            r is Ok,
            r is Ok ==> r->Ok_0@ == event_bytes(*data),
    {
        match encode_event_fields(
            &data.content_id_hash,
            &data.content_id_salt,
            data.logged_in,
            data.territory_id,
            data.world_id,
        ) {
            Ok(bytes) => Ok(SerializedEventData(bytes)),
            Err(e) => Err(e),
        }
    }

    /// The encoded bytes.
    pub fn as_bytes(&self) -> (r: &Vec<u8>)
        ensures
            r@ == self@,
    {
        &self.0
    }

    /// The encoded bytes, taking ownership.
    pub fn into_bytes(self) -> (r: Vec<u8>)
        ensures
            r@ == self@,
    {
        self.0
    }
}

/// What travels through the event channel.
#[derive(Clone, Debug)]
pub enum EventStreamMessage {
    /// An encoded event.
    Data(SerializedEventData),
    /// No further events will come: open streams close.
    Shutdown,
}

/// The ingestion request of the binary identity profile.
#[derive(Clone, Copy, Debug)]
pub struct UpdatePlayerLoginStateRequest {
    pub content_id_hash: [u8; 32],
    pub content_id_salt: [u8; 16],
    pub logged_in: bool,
    pub territory_id: u16,
    pub world_id: u16,
}

impl UpdatePlayerLoginStateRequest {
    /// The event that this request reports.
    pub fn to_event(&self) -> (r: EventData)
        ensures
            r.content_id_hash@ == self.content_id_hash@,
            r.content_id_salt@ == self.content_id_salt@,
            r.logged_in == self.logged_in,
            r.territory_id == self.territory_id,
            r.world_id == self.world_id,
    {
        EventData {
            content_id_hash: self.content_id_hash,
            content_id_salt: self.content_id_salt,
            logged_in: self.logged_in,
            territory_id: self.territory_id,
            world_id: self.world_id,
        }
    }
}

} // verus!
