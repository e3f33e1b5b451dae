//! The per-subscriber live stream: an initial heartbeat, then periodic
//! heartbeats merged with the subscription's data, until a shutdown.
//!
//! The waiting (timer, channel, socket) happens outside; this module decides,
//! for each thing that happened, what to send and whether to go on.
use vstd::prelude::*;
use crate::event::{EventStreamMessage, SerializedEventData};

verus! {

/// Seconds between two heartbeats of an idle stream.
pub const HEARTBEAT_INTERVAL_SECS: u64 = 30;

/// The heartbeat frame: an empty MessagePack array.
pub open spec fn heartbeat() -> Seq<u8> {
    seq![0x90u8]
}

/// A fresh heartbeat frame.
pub fn heartbeat_frame() -> (r: Vec<u8>)
    ensures
        r@ == heartbeat(),
{
    let mut v: Vec<u8> = Vec::new();
    v.push(0x90u8);
    proof {
        assert(v@ =~= heartbeat());
    }
    v
}

/// Where a stream stands.
#[derive(Clone, Copy, Debug, PartialEq, Eq, Structural)]
pub enum StreamPhase {
    /// Subscribed; the first heartbeat is not sent yet.
    Connecting,
    /// Forwarding heartbeats and data.
    Streaming,
    /// Ended; nothing more is sent.
    Closed,
}

/// Something that happened to a stream.
#[derive(Clone, Debug)]
pub enum StreamEvent {
    /// The heartbeat timer fired.
    Tick,
    /// The subscription yielded a message.
    Received(EventStreamMessage),
    /// The subscription fell behind and this many messages were lost.
    Lagged(u64),
    /// Every sender of the channel is gone.
    ChannelClosed,
    /// The client went away.
    ClientGone,
}

/// What to do about an event.
#[derive(Clone, Debug)]
pub enum StreamAction {
    /// Send these bytes as one frame.
    Emit(Vec<u8>),
    /// Send nothing and keep going.
    Skip,
    /// End the stream cleanly.
    Finish,
}

/// Whether an event ends the stream.
pub open spec fn ends_stream(ev: StreamEvent) -> bool {
    match ev {
        StreamEvent::Received(EventStreamMessage::Shutdown) => true,
        StreamEvent::ChannelClosed => true,
        StreamEvent::ClientGone => true,
        _ => false,
    }
}

/// The phase after `ev` in `phase`.
pub open spec fn step_phase(phase: StreamPhase, ev: StreamEvent) -> StreamPhase {
    if phase == StreamPhase::Closed || ends_stream(ev) {
        StreamPhase::Closed
    } else {
        StreamPhase::Streaming
    }
}

/// The frames sent for `ev` in `phase`.
pub open spec fn step_frames(phase: StreamPhase, ev: StreamEvent) -> Seq<Seq<u8>> {
    if phase == StreamPhase::Closed {
        seq![]
    } else {
        match ev {
            StreamEvent::Tick => seq![heartbeat()],
            StreamEvent::Received(EventStreamMessage::Data(d)) => seq![d@],
            _ => seq![],
        }
    }
}

/// The frames that an action sends.
pub open spec fn action_frames(a: StreamAction) -> Seq<Seq<u8>> {
    match a {
        StreamAction::Emit(v) => seq![v@],
        _ => seq![],
    }
}

/// The frames sent for a run of events, starting in `phase`.
pub open spec fn frames(phase: StreamPhase, evs: Seq<StreamEvent>) -> Seq<Seq<u8>>
    decreases evs.len(),
{
    if evs.len() == 0 {
        seq![]
    } else {
        step_frames(phase, evs[0]) + frames(step_phase(phase, evs[0]), evs.drop_first())
    }
}

/// The phase after a run of events, starting in `phase`.
pub open spec fn run_phase(phase: StreamPhase, evs: Seq<StreamEvent>) -> StreamPhase
    decreases evs.len(),
{
    if evs.len() == 0 {
        phase
    } else {
        run_phase(step_phase(phase, evs[0]), evs.drop_first())
    }
}

/// The state of one subscriber's stream.
pub struct LiveStream {
    pub phase: StreamPhase,
}

impl LiveStream {
    /// A stream whose subscription has just been opened.
    pub fn new() -> (r: LiveStream)
        ensures
            r.phase == StreamPhase::Connecting,
    {
        LiveStream { phase: StreamPhase::Connecting }
    }

    /// The first frame: a heartbeat, sent before anything else so that the
    /// connection shows as alive at once.
    pub fn connect(&mut self) -> (r: Vec<u8>)
        requires
            old(self).phase == StreamPhase::Connecting,
        ensures
            final(self).phase == StreamPhase::Streaming,
            r@ == heartbeat(),
    {
        self.phase = StreamPhase::Streaming;
        heartbeat_frame()
    }

    /// Decides what to send for `ev`: a heartbeat for a tick, the encoded
    /// bytes for a data message, nothing for a lag, and the end of the stream
    /// for a shutdown, a closed channel or a departed client.
    pub fn step(&mut self, ev: StreamEvent) -> (r: StreamAction)
        requires
            old(self).phase != StreamPhase::Connecting,
        ensures
            final(self).phase == step_phase(old(self).phase, ev),
            action_frames(r) == step_frames(old(self).phase, ev),
            (r is Finish) == (final(self).phase == StreamPhase::Closed),
    {
        if self.phase == StreamPhase::Closed {
            return StreamAction::Finish;
        }
        match ev {
            StreamEvent::Tick => StreamAction::Emit(heartbeat_frame()),
            StreamEvent::Received(EventStreamMessage::Data(d)) => StreamAction::Emit(
                d.into_bytes(),
            ),
            StreamEvent::Lagged(_) => StreamAction::Skip,
            _ => {
                self.phase = StreamPhase::Closed;
                StreamAction::Finish
            },
        }
    }
}

/// A closed stream sends nothing and stays closed.
pub proof fn lemma_closed_is_silent(evs: Seq<StreamEvent>)
    ensures
        frames(StreamPhase::Closed, evs) == Seq::<Seq<u8>>::empty(),
        run_phase(StreamPhase::Closed, evs) == StreamPhase::Closed,
    decreases evs.len(),
{
    if evs.len() > 0 {
        lemma_closed_is_silent(evs.drop_first());
        assert(frames(StreamPhase::Closed, evs) =~= Seq::<Seq<u8>>::empty());
    }
}

/// Once an event that ends the stream occurs, the stream is closed and no
/// frame is sent for that event or any later one.
pub proof fn lemma_no_frames_after_end(phase: StreamPhase, evs: Seq<StreamEvent>, k: int)
    requires
        0 <= k < evs.len(),
        ends_stream(evs[k]),
    ensures
        frames(phase, evs) == frames(phase, evs.take(k)),
        run_phase(phase, evs.take(k + 1)) == StreamPhase::Closed,
        run_phase(phase, evs) == StreamPhase::Closed,
    decreases k,
{
    let p2 = step_phase(phase, evs[0]);
    if k == 0 {
        lemma_closed_is_silent(evs.drop_first());
        lemma_closed_is_silent(evs.take(1).drop_first());
        assert(frames(phase, evs) =~= Seq::<Seq<u8>>::empty());
        assert(frames(phase, evs.take(0)) =~= Seq::<Seq<u8>>::empty());
    } else {
        lemma_no_frames_after_end(p2, evs.drop_first(), k - 1);
        assert(evs.take(k).drop_first() =~= evs.drop_first().take(k - 1));
        assert(evs.take(k + 1).drop_first() =~= evs.drop_first().take(k));
        assert(evs.take(k)[0] == evs[0]);
        assert(evs.take(k + 1)[0] == evs[0]);
    }
}

/// Running two stretches of events one after the other sends the frames of
/// the first, then those of the second from where the first left off.
pub proof fn lemma_frames_append(phase: StreamPhase, a: Seq<StreamEvent>, b: Seq<StreamEvent>)
    ensures
        frames(phase, a + b) == frames(phase, a) + frames(run_phase(phase, a), b),
        run_phase(phase, a + b) == run_phase(run_phase(phase, a), b),
    decreases a.len(),
{
    if a.len() == 0 {
        assert(a + b =~= b);
        assert(frames(phase, a) + frames(phase, b) =~= frames(phase, b));
    } else {
        lemma_frames_append(step_phase(phase, a[0]), a.drop_first(), b);
        assert((a + b).drop_first() =~= a.drop_first() + b);
        assert((a + b)[0] == a[0]);
        assert(frames(phase, a + b) =~= frames(phase, a) + frames(run_phase(phase, a), b));
    }
}

/// Whether no event of `evs` ends the stream.
pub open spec fn all_open(evs: Seq<StreamEvent>) -> bool {
    forall|i: int| 0 <= i < evs.len() ==> !ends_stream(#[trigger] evs[i])
}

/// A streaming stream stays open through events that do not end it.
pub proof fn lemma_stays_open(evs: Seq<StreamEvent>)
    requires
        all_open(evs),
    ensures
        run_phase(StreamPhase::Streaming, evs) == StreamPhase::Streaming,
    decreases evs.len(),
{
    if evs.len() > 0 {
        assert(!ends_stream(evs[0]));
        assert forall|i: int| 0 <= i < evs.drop_first().len() implies !ends_stream(
            #[trigger] evs.drop_first()[i],
        ) by {
            assert(evs.drop_first()[i] == evs[i + 1]);
        }
        lemma_stays_open(evs.drop_first());
    }
}

/// While the stream is open, each further event is answered in turn: its
/// frame (a heartbeat for a tick, the bytes for a data message) comes after
/// every frame sent so far, so heartbeats and data each keep their order.
pub proof fn lemma_each_event_in_turn(evs: Seq<StreamEvent>, ev: StreamEvent)
    requires
        all_open(evs),
    ensures
        frames(StreamPhase::Streaming, evs.push(ev)) == frames(StreamPhase::Streaming, evs)
            + step_frames(StreamPhase::Streaming, ev),
{
    let one = seq![ev];
    lemma_stays_open(evs);
    lemma_frames_append(StreamPhase::Streaming, evs, one);
    assert(evs.push(ev) =~= evs + one);
    assert(one[0] == ev);
    assert(one.drop_first() =~= Seq::<StreamEvent>::empty());
    assert(frames(step_phase(StreamPhase::Streaming, ev), one.drop_first()) =~= Seq::<
        Seq<u8>,
    >::empty());
    assert(frames(StreamPhase::Streaming, one) =~= step_frames(StreamPhase::Streaming, ev));
}

/// A lag sends nothing and leaves the stream open: the frames sent are
/// those that would have been sent had the lag not happened, so what follows
/// the lag is still delivered, in order.
pub proof fn lemma_lag_then_resume(pre: Seq<StreamEvent>, n: u64, post: Seq<StreamEvent>)
    requires
        all_open(pre),
    ensures
        frames(StreamPhase::Streaming, pre + seq![StreamEvent::Lagged(n)] + post) == frames(
            StreamPhase::Streaming,
            pre + post,
        ),
        run_phase(StreamPhase::Streaming, pre + seq![StreamEvent::Lagged(n)]) == StreamPhase::Streaming,
{
    let lag = seq![StreamEvent::Lagged(n)];
    let s = StreamPhase::Streaming;
    lemma_stays_open(pre);
    lemma_frames_append(s, pre, lag + post);
    lemma_frames_append(s, pre, post);
    lemma_frames_append(s, pre, lag);
    assert(pre + lag + post =~= pre + (lag + post));
    assert((lag + post).drop_first() =~= post);
    assert(frames(s, lag + post) =~= frames(s, post));
    assert(lag[0] == StreamEvent::Lagged(n));
    assert(lag.drop_first() =~= Seq::<StreamEvent>::empty());
    assert(run_phase(s, lag.drop_first()) == s);
    assert(run_phase(s, lag) == s);
}

/// The stream event for a delivered data message.
pub open spec fn data_event(d: SerializedEventData) -> StreamEvent {
    StreamEvent::Received(EventStreamMessage::Data(d))
}

/// Delivered data messages are all forwarded, byte for byte and in order,
/// and the stream stays open.
pub proof fn lemma_data_forwarded_in_order(ds: Seq<SerializedEventData>)
    ensures
        frames(StreamPhase::Streaming, ds.map_values(|d: SerializedEventData| data_event(d)))
            == ds.map_values(|d: SerializedEventData| d@),
        run_phase(StreamPhase::Streaming, ds.map_values(|d: SerializedEventData| data_event(d)))
            == StreamPhase::Streaming,
    decreases ds.len(),
{
    let evs = ds.map_values(|d: SerializedEventData| data_event(d));
    if ds.len() > 0 {
        lemma_data_forwarded_in_order(ds.drop_first());
        assert(evs.drop_first() =~= ds.drop_first().map_values(
            |d: SerializedEventData| data_event(d),
        ));
        assert(frames(StreamPhase::Streaming, evs) =~= ds.map_values(
            |d: SerializedEventData| d@,
        ));
    } else {
        assert(frames(StreamPhase::Streaming, evs) =~= ds.map_values(
            |d: SerializedEventData| d@,
        ));
    }
}

} // verus!
