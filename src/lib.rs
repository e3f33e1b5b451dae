//! A small real-time notification relay: validated event ingestion, a bounded
//! broadcast channel, and the per-subscriber live stream protocol.
use vstd::prelude::*;

pub mod text;
pub mod client_key;
pub mod content_id;
pub mod event;
pub mod channel;
pub mod stream;
pub mod ingest;
pub mod announcement;
pub mod loginstate;

verus! {

} // verus!
