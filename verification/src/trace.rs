//! Whole runs of a stream, and what holds of every one of them.
//!
//! A run is what a stream does for a consumer that keeps pulling while the
//! capture engine answers with a given trace of events. It is defined from
//! the transitions of the engine and of the stream alone, so what is proved
//! here of a run holds of any caller that feeds the two machines as their
//! steps ask.

use crate::config::{Config, ConfigView};
use crate::errors::Error;
use crate::packet::{Packet, RecordHeader};
use crate::packet_iterator::{
    classify_spec,
    ItemView,
    NativeEvent,
    PacketIterator,
    PacketIteratorView,
    Signal,
    Step,
    StepView,
    LOOP_STOPPED,
};
use crate::stream::{
    Demand,
    DemandView,
    PacketStream,
    StreamPoll,
    StreamPollView,
    StreamStateView,
    StreamView,
};
use vstd::prelude::*;

verus! {

/// What a stream has come to after a trace of events.
pub struct Run {
    /// The stream itself.
    pub stream: StreamView,
    /// The engine of the dispatch cycle that is in flight.
    pub engine: PacketIteratorView,
    /// The batches handed to the consumer, oldest first.
    pub batches: Seq<Seq<Packet>>,
    /// The failure handed to the consumer, if there was one.
    pub failure: Option<Error>,
}

impl Run {
    /// A new stream, pulled from for the first time.
    pub open spec fn start(config: ConfigView, live_capture: bool) -> Run {
        let stream = StreamView::idle(config, live_capture).demand().0;
        Run { stream, engine: stream.engine(), batches: Seq::empty(), failure: None }
    }

    /// Whether the consumer was told that the sequence has ended.
    pub open spec fn ended(self) -> bool {
        self.stream.state is Ended
    }

    /// Every packet handed to the consumer, in the order of handing over.
    pub open spec fn emitted(self) -> Seq<Packet> {
        self.batches.flatten()
    }

    /// A dispatch cycle finishes with `item`: the stream takes it, what it
    /// makes of it goes to the consumer, and the consumer pulls again.
    pub open spec fn hand_over(self, item: ItemView) -> Run {
        let (answered, poll) = self.stream.complete(item);
        let stream = answered.demand().0;
        Run {
            stream,
            engine: stream.engine(),
            batches: match poll {
                StreamPollView::Ready(Some(Ok(batch))) => self.batches.push(batch),
                _ => self.batches,
            },
            failure: match poll {
                StreamPollView::Ready(Some(Err(e))) => Some(e),
                _ => self.failure,
            },
        }
    }

    /// The run after one more event. With no cycle in flight no native call
    /// is made, so the event is not taken in.
    pub open spec fn advance(self, event: NativeEvent) -> Run {
        if !self.stream.outstanding() {
            self
        } else {
            let (engine, step) = self.engine.step(event);
            match step {
                StepView::Finish { item, .. } => self.hand_over(item),
                _ => Run { engine, ..self },
            }
        }
    }
}

/// The run of a new stream over `trace`.
pub open spec fn run(config: ConfigView, live_capture: bool, trace: Seq<NativeEvent>) -> Run
    decreases trace.len(),
{
    if trace.len() == 0 {
        Run::start(config, live_capture)
    } else {
        run(config, live_capture, trace.drop_last()).advance(trace.last())
    }
}

/// What the consumer of a replayed session has received.
#[derive(Debug, PartialEq, Eq)]
pub struct Replayed {
    /// The batches, oldest first.
    pub batches: Vec<Vec<Packet>>,
    /// The failure that ended the sequence, if one did.
    pub failure: Option<Error>,
    /// Whether the end of the sequence was reached.
    pub ended: bool,
}

/// Batches as sequences.
pub open spec fn batch_views(batches: Seq<Vec<Packet>>) -> Seq<Seq<Packet>> {
    batches.map_values(|batch: Vec<Packet>| batch@)
}

/// The engine of the next cycle, if the stream schedules one.
fn next_engine(stream: &mut PacketStream) -> (engine: Option<PacketIterator>)
    requires
        !old(stream)@.outstanding(),
    ensures
        final(stream)@ == old(stream)@.demand().0,
        match engine {
            Some(e) => final(stream)@.outstanding() && e@ == final(stream)@.engine(),
            None => final(stream)@.state is Ended,
        },
{
    match stream.demand() {
        Demand::Schedule(engine) => Some(engine),
        _ => None,
    }
}

/// Replays a recorded session: runs a new stream over `trace`, the events
/// that the capture engine answered with, for a consumer that pulls until the
/// sequence ends. Events that come after the end are not looked at.
pub fn replay(config: Config, live_capture: bool, trace: Vec<NativeEvent>) -> (r: Replayed)
    ensures
        batch_views(r.batches@) == run(config@, live_capture, trace@).batches,
        r.failure == run(config@, live_capture, trace@).failure,
        r.ended == run(config@, live_capture, trace@).ended(),
{
    let ghost events = trace@;
    let ghost settings = config@;
    let mut trace = trace;
    let mut stream = PacketStream::idle(config, live_capture);
    let mut engine = next_engine(&mut stream);
    let mut batches: Vec<Vec<Packet>> = Vec::new();
    let mut failure: Option<Error> = None;
    let mut i: usize = 0;
    assert(events.take(0) =~= Seq::<NativeEvent>::empty());
    assert(batch_views(batches@) =~= Seq::<Seq<Packet>>::empty());
    while i < trace.len() && engine.is_some()
        invariant
            i <= trace.len(),
            trace@.len() == events.len(),
            forall|k: int| i <= k < events.len() ==> trace@[k] == events[k],
            stream@ == run(settings, live_capture, events.take(i as int)).stream,
            batch_views(batches@) == run(settings, live_capture, events.take(i as int)).batches,
            failure == run(settings, live_capture, events.take(i as int)).failure,
            match engine {
                Some(e) => stream@.outstanding() && e@ == run(
                    settings,
                    live_capture,
                    events.take(i as int),
                ).engine,
                None => stream@.state is Ended,
            },
        decreases trace.len() - i,
    {
        let ghost before = run(settings, live_capture, events.take(i as int));
        proof {
            assert(events.take(i as int).push(events[i as int]) =~= events.take(i + 1));
            lemma_run_push(settings, live_capture, events.take(i as int), events[i as int]);
        }
        let mut event = NativeEvent::Interrupted;
        core::mem::swap(&mut trace[i], &mut event);
        match engine {
            None => {},
            Some(mut running) => {
                match running.step(event) {
                    Step::Finish { item, .. } => {
                        match stream.complete(item) {
                            StreamPoll::Ready(Some(Ok(batch))) => {
                                batches.push(batch);
                                assert(batch_views(batches@) =~= before.batches.push(batch@));
                            },
                            StreamPoll::Ready(Some(Err(e))) => {
                                failure = Some(e);
                            },
                            _ => {},
                        }
                        engine = next_engine(&mut stream);
                    },
                    _ => {
                        engine = Some(running);
                    },
                }
            },
        }
        i += 1;
    }
    proof {
        if i < events.len() {
            lemma_nothing_after_the_end(settings, live_capture, events, i as int);
        } else {
            assert(events.take(i as int) =~= events);
        }
    }
    Replayed { batches, failure, ended: stream.is_ended() }
}

/// The packet that an event brings, if it brings one.
pub open spec fn packet_of(event: NativeEvent) -> Option<Packet> {
    match event {
        NativeEvent::Delivered { header, data } => Packet::decode_spec(header, data),
        NativeEvent::Fetched { code, header, data } => if code > 0 {
            Packet::decode_spec(header, data)
        } else {
            None
        },
        _ => None,
    }
}

/// The packets that the events of `trace` bring, in order.
pub open spec fn delivered(trace: Seq<NativeEvent>) -> Seq<Packet>
    decreases trace.len(),
{
    if trace.len() == 0 {
        Seq::empty()
    } else {
        match packet_of(trace.last()) {
            Some(packet) => delivered(trace.drop_last()).push(packet),
            None => delivered(trace.drop_last()),
        }
    }
}

/// An event that reports a hard failure of the capture engine.
pub open spec fn is_failure(event: NativeEvent) -> bool {
    match event {
        NativeEvent::Returned { code } => classify_spec(code) == Signal::Failure,
        NativeEvent::Fetched { code, .. } => classify_spec(code) == Signal::Failure,
        NativeEvent::Diagnostic { .. } => true,
        _ => false,
    }
}

/// An event that says that the session is over: an interrupt, or a native
/// call that found its loop stopped.
pub open spec fn is_closing(event: NativeEvent) -> bool {
    match event {
        NativeEvent::Interrupted => true,
        NativeEvent::Returned { code } => code == LOOP_STOPPED,
        NativeEvent::Fetched { code, .. } => code == LOOP_STOPPED,
        _ => false,
    }
}

/// The stream of a run keeps its configuration, and between events it either
/// has a cycle in flight or has ended. A failure ends it.
pub proof fn lemma_run_shape(config: ConfigView, live_capture: bool, trace: Seq<NativeEvent>)
    ensures
        ({
            let r = run(config, live_capture, trace);
            &&& r.stream.config == config
            &&& r.stream.live_capture == live_capture
            &&& r.engine.max_packets_read == config.max_packets_read
            &&& r.engine.live_capture == live_capture
            &&& r.ended() || r.stream.state == (StreamStateView::Awaiting { outstanding: true })
            &&& r.failure is Some ==> r.ended()
            &&& r.ended() || r.engine.is_complete ==> r.engine.pending.len() == 0
        }),
    decreases trace.len(),
{
    if trace.len() > 0 {
        lemma_run_shape(config, live_capture, trace.drop_last());
    }
}

/// A run over a trace with one more event is the run over the trace, advanced
/// by that event.
pub proof fn lemma_run_push(
    config: ConfigView,
    live_capture: bool,
    trace: Seq<NativeEvent>,
    event: NativeEvent,
)
    ensures
        run(config, live_capture, trace.push(event)) == run(config, live_capture, trace).advance(
            event,
        ),
{
    assert(trace.push(event).drop_last() =~= trace);
}

/// Once the sequence has ended, nothing more happens: further events are not
/// taken in, and every further demand is answered with the end.
pub proof fn lemma_ended_is_final(r: Run, event: NativeEvent)
    requires
        r.ended(),
    ensures
        r.advance(event) == r,
        r.stream.demand() == (r.stream, DemandView::End),
{
}

/// What comes after the end changes nothing: a run that has ended after the
/// first `k` events of a trace is the run over the whole trace.
pub proof fn lemma_nothing_after_the_end(
    config: ConfigView,
    live_capture: bool,
    trace: Seq<NativeEvent>,
    k: int,
)
    requires
        0 <= k <= trace.len(),
        run(config, live_capture, trace.take(k)).ended(),
    ensures
        run(config, live_capture, trace) == run(config, live_capture, trace.take(k)),
    decreases trace.len() - k,
{
    if k == trace.len() {
        assert(trace.take(k) =~= trace);
    } else {
        assert(trace.take(k).push(trace[k]) =~= trace.take(k + 1));
        lemma_run_push(config, live_capture, trace.take(k), trace[k]);
        lemma_nothing_after_the_end(config, live_capture, trace, k + 1);
    }
}

/// An interrupt that comes before the first pull ends the sequence at that
/// pull: the consumer gets no packet and no failure, whatever the capture
/// engine would have delivered.
pub proof fn lemma_interrupted_at_start(
    config: ConfigView,
    live_capture: bool,
    trace: Seq<NativeEvent>,
)
    requires
        trace.len() > 0,
        trace[0] is Interrupted,
    ensures
        run(config, live_capture, trace).ended(),
        run(config, live_capture, trace).batches.len() == 0,
        run(config, live_capture, trace).failure is None,
    decreases trace.len(),
{
    let rest = trace.drop_last();
    if rest.len() == 0 {
        assert(run(config, live_capture, rest) == Run::start(config, live_capture));
    } else {
        lemma_interrupted_at_start(config, live_capture, rest);
    }
}

/// No event of the trace reports a hard failure.
pub open spec fn failure_free(trace: Seq<NativeEvent>) -> bool {
    forall|k: int| 0 <= k < trace.len() ==> !is_failure(#[trigger] trace[k])
}

/// No event of the trace says that the session is over.
pub open spec fn closing_free(trace: Seq<NativeEvent>) -> bool {
    forall|k: int| 0 <= k < trace.len() ==> !is_closing(#[trigger] trace[k])
}

/// Every event of the trace was taken in: the sequence had not ended when the
/// last one came.
pub open spec fn taken_in(config: ConfigView, live_capture: bool, trace: Seq<NativeEvent>) -> bool {
    trace.len() == 0 || !run(config, live_capture, trace.drop_last()).ended()
}

/// While the capture engine neither fails nor says that the session is over,
/// the sequence does not end.
pub proof fn lemma_open_run_goes_on(config: ConfigView, live_capture: bool, trace: Seq<NativeEvent>)
    requires
        failure_free(trace),
        closing_free(trace),
    ensures
        !run(config, live_capture, trace).ended(),
        !run(config, live_capture, trace).engine.is_complete,
        taken_in(config, live_capture, trace),
    decreases trace.len(),
{
    if trace.len() > 0 {
        let rest = trace.drop_last();
        assert forall|k: int| 0 <= k < rest.len() implies !is_failure(#[trigger] rest[k])
            && !is_closing(rest[k]) by {
            assert(rest[k] == trace[k]);
        }
        lemma_open_run_goes_on(config, live_capture, rest);
        lemma_run_shape(config, live_capture, rest);
        assert(!is_failure(trace[trace.len() - 1]));
        assert(!is_closing(trace[trace.len() - 1]));
    }
}

/// Nothing is lost. As long as the capture engine reports no hard failure,
/// the packets handed to the consumer, batch after batch, followed by those
/// gathered in the cycle in flight, are the packets that the events brought,
/// one for one and in the same order.
pub proof fn lemma_nothing_lost(
    config: ConfigView,
    live_capture: bool,
    trace: Seq<NativeEvent>,
)
    requires
        failure_free(trace),
        taken_in(config, live_capture, trace),
    ensures
        run(config, live_capture, trace).emitted() + run(
            config,
            live_capture,
            trace,
        ).engine.pending == delivered(trace),
        run(config, live_capture, trace).failure is None,
        !run(config, live_capture, trace).ended() ==> !run(
            config,
            live_capture,
            trace,
        ).engine.is_complete,
    decreases trace.len(),
{
    broadcast use Seq::lemma_flatten_push;

    if trace.len() == 0 {
        assert(Seq::<Seq<Packet>>::empty().flatten() =~= Seq::<Packet>::empty());
        assert(run(config, live_capture, trace).emitted() + run(
            config,
            live_capture,
            trace,
        ).engine.pending =~= delivered(trace));
    } else {
        let rest = trace.drop_last();
        let after = run(config, live_capture, trace);
        assert forall|k: int| 0 <= k < rest.len() implies !is_failure(#[trigger] rest[k]) by {
            assert(rest[k] == trace[k]);
        }
        if rest.len() > 0 && run(config, live_capture, rest.drop_last()).ended() {
            lemma_ended_is_final(run(config, live_capture, rest.drop_last()), rest.last());
        }
        lemma_nothing_lost(config, live_capture, rest);
        lemma_run_shape(config, live_capture, rest);
        assert(!is_failure(trace[trace.len() - 1]));
        assert(after.emitted() + after.engine.pending =~= delivered(trace));
    }
}

/// Capture order is kept, whatever happens. The packets handed to the
/// consumer, batch after batch, followed by those gathered in the cycle in
/// flight, are always the first of the packets that the events brought, in
/// the same order; and they are all of them for as long as the sequence has
/// not ended and the capture engine has not failed.
pub proof fn lemma_capture_order_kept(
    config: ConfigView,
    live_capture: bool,
    trace: Seq<NativeEvent>,
)
    ensures
        (run(config, live_capture, trace).emitted() + run(
            config,
            live_capture,
            trace,
        ).engine.pending).is_prefix_of(delivered(trace)),
        !run(config, live_capture, trace).ended() && !run(
            config,
            live_capture,
            trace,
        ).engine.is_complete ==> run(config, live_capture, trace).emitted() + run(
            config,
            live_capture,
            trace,
        ).engine.pending == delivered(trace),
    decreases trace.len(),
{
    broadcast use Seq::lemma_flatten_push;

    let after = run(config, live_capture, trace);
    if trace.len() == 0 {
        assert(Seq::<Seq<Packet>>::empty().flatten() =~= Seq::<Packet>::empty());
        assert(after.emitted() + after.engine.pending =~= delivered(trace));
    } else {
        let rest = trace.drop_last();
        let before = run(config, live_capture, rest);
        lemma_capture_order_kept(config, live_capture, rest);
        lemma_run_shape(config, live_capture, rest);
        if !before.ended() && !before.engine.is_complete && !is_failure(trace.last()) {
            assert(after.emitted() + after.engine.pending =~= delivered(trace));
        } else {
            assert(after.emitted() + after.engine.pending =~= before.emitted());
            assert(before.emitted().is_prefix_of(before.emitted() + before.engine.pending));
        }
    }
}

/// Timestamps come out as they went in. Where the capture engine delivers
/// its packets in the order of their timestamps, the consumer receives them
/// in that order, within each batch and from one batch to the next.
pub proof fn lemma_timestamp_order_kept(
    config: ConfigView,
    live_capture: bool,
    trace: Seq<NativeEvent>,
)
    requires
        forall|i: int, j: int|
            0 <= i <= j < delivered(trace).len() ==> delivered(trace)[i]@.timestamp <= delivered(
                trace,
            )[j]@.timestamp,
    ensures
        forall|i: int, j: int|
            0 <= i <= j < run(config, live_capture, trace).emitted().len() ==> run(
                config,
                live_capture,
                trace,
            ).emitted()[i]@.timestamp <= run(config, live_capture, trace).emitted()[j]@.timestamp,
{
    lemma_capture_order_kept(config, live_capture, trace);
    let r = run(config, live_capture, trace);
    assert forall|i: int, j: int| 0 <= i <= j < r.emitted().len() implies r.emitted()[i]@.timestamp
        <= r.emitted()[j]@.timestamp by {
        assert(r.emitted()[i] == (r.emitted() + r.engine.pending)[i]);
        assert(r.emitted()[j] == (r.emitted() + r.engine.pending)[j]);
    }
}

/// Two signals that the session is over end the sequence, whatever came
/// before. What the cycle in flight had gathered is handed over as a last
/// batch, nothing else reaches the consumer, and no failure is made up.
/// An interrupt in mid-stream is such a signal, and it stays set: the
/// sequence ends within two dispatch cycles of it.
pub proof fn lemma_closing_ends_run(
    config: ConfigView,
    live_capture: bool,
    trace: Seq<NativeEvent>,
    first: NativeEvent,
    second: NativeEvent,
)
    requires
        is_closing(first),
        is_closing(second),
    ensures
        ({
            let before = run(config, live_capture, trace);
            let between = run(config, live_capture, trace.push(first));
            let after = run(config, live_capture, trace.push(first).push(second));
            &&& after.ended()
            &&& after.failure == before.failure
            &&& after.emitted() == before.emitted() + before.engine.pending
            &&& after.batches == if before.engine.pending.len() == 0 {
                before.batches
            } else {
                before.batches.push(before.engine.pending)
            }
            &&& before.engine.pending.len() == 0 ==> between.ended()
        }),
{
    broadcast use Seq::lemma_flatten_push;

    let before = run(config, live_capture, trace);
    let after = run(config, live_capture, trace.push(first).push(second));
    lemma_run_shape(config, live_capture, trace);
    lemma_run_push(config, live_capture, trace, first);
    lemma_run_push(config, live_capture, trace.push(first), second);
    assert(after.emitted() =~= before.emitted() + before.engine.pending);
}

/// A finite input is replayed in full. When the capture engine brings its
/// records without failure and then says twice that the session is over, the
/// consumer has received exactly the packets that were brought, in order,
/// and then the end of the sequence, with no failure.
pub proof fn lemma_finite_input_replayed(
    config: ConfigView,
    live_capture: bool,
    body: Seq<NativeEvent>,
    first: NativeEvent,
    second: NativeEvent,
)
    requires
        failure_free(body),
        closing_free(body),
        is_closing(first),
        is_closing(second),
    ensures
        run(config, live_capture, body.push(first).push(second)).ended(),
        run(config, live_capture, body.push(first).push(second)).failure is None,
        run(config, live_capture, body.push(first).push(second)).emitted() == delivered(body),
{
    lemma_open_run_goes_on(config, live_capture, body);
    lemma_nothing_lost(config, live_capture, body);
    lemma_closing_ends_run(config, live_capture, body, first, second);
}

/// What holds of every packet that the events bring holds of every packet
/// that the run holds: each of them came with an event, as it is.
pub proof fn lemma_packets_are_as_delivered(
    config: ConfigView,
    live_capture: bool,
    trace: Seq<NativeEvent>,
    holds: spec_fn(Packet) -> bool,
)
    requires
        forall|k: int|
            0 <= k < trace.len() ==> (packet_of(#[trigger] trace[k]) matches Some(packet)
                ==> holds(packet)),
    ensures
        forall|b: int, i: int|
            0 <= b < run(config, live_capture, trace).batches.len() && 0 <= i < run(
                config,
                live_capture,
                trace,
            ).batches[b].len() ==> holds(#[trigger] run(config, live_capture, trace).batches[b][i]),
        forall|i: int|
            0 <= i < run(config, live_capture, trace).engine.pending.len() ==> holds(
                #[trigger] run(config, live_capture, trace).engine.pending[i],
            ),
    decreases trace.len(),
{
    if trace.len() > 0 {
        let rest = trace.drop_last();
        assert forall|k: int| 0 <= k < rest.len() implies (packet_of(#[trigger] rest[k]) matches Some(
            packet,
        ) ==> holds(packet)) by {
            assert(rest[k] == trace[k]);
        }
        lemma_packets_are_as_delivered(config, live_capture, rest, holds);
        assert(packet_of(trace[trace.len() - 1]) matches Some(packet) ==> holds(packet));
    }
}

/// Every packet that reaches the consumer holds exactly the bytes that were
/// captured of it: as many as its captured length says.
pub proof fn lemma_emitted_well_formed(
    config: ConfigView,
    live_capture: bool,
    trace: Seq<NativeEvent>,
)
    ensures
        forall|b: int, i: int|
            0 <= b < run(config, live_capture, trace).batches.len() && 0 <= i < run(
                config,
                live_capture,
                trace,
            ).batches[b].len() ==> (#[trigger] run(
                config,
                live_capture,
                trace,
            ).batches[b][i])@.well_formed(),
{
    broadcast use Packet::lemma_assemble;

    lemma_packets_are_as_delivered(
        config,
        live_capture,
        trace,
        |packet: Packet| packet@.well_formed(),
    );
}

/// The header that comes with an event, if one does.
pub open spec fn header_of(event: NativeEvent) -> Option<RecordHeader> {
    match event {
        NativeEvent::Delivered { header, .. } => header,
        NativeEvent::Fetched { header, .. } => header,
        _ => None,
    }
}

/// Where the capture engine keeps to the snapshot length of the
/// configuration, so does every packet that reaches the consumer.
pub proof fn lemma_emitted_within_snaplen(
    config: ConfigView,
    live_capture: bool,
    trace: Seq<NativeEvent>,
)
    requires
        forall|k: int|
            0 <= k < trace.len() ==> (header_of(#[trigger] trace[k]) matches Some(header)
                ==> header.caplen <= config.snaplen),
    ensures
        forall|b: int, i: int|
            0 <= b < run(config, live_capture, trace).batches.len() && 0 <= i < run(
                config,
                live_capture,
                trace,
            ).batches[b].len() ==> (#[trigger] run(
                config,
                live_capture,
                trace,
            ).batches[b][i])@.captured_length <= config.snaplen,
{
    broadcast use Packet::lemma_assemble;

    lemma_packets_are_as_delivered(
        config,
        live_capture,
        trace,
        |packet: Packet| packet@.captured_length <= config.snaplen,
    );
}

/// Size at which the batches of a configuration are handed out.
pub open spec fn ceiling(config: ConfigView) -> nat {
    if config.max_packets_read == 0 {
        1
    } else {
        config.max_packets_read as nat
    }
}

/// The capture engine delivers no more than it was asked for: whenever an
/// event brings a packet, the batch in the making has room for it.
pub open spec fn has_room(config: ConfigView, live_capture: bool, trace: Seq<NativeEvent>) -> bool
    decreases trace.len(),
{
    trace.len() == 0 || {
        &&& has_room(config, live_capture, trace.drop_last())
        &&& packet_of(trace.last()) is Some ==> run(
            config,
            live_capture,
            trace.drop_last(),
        ).engine.pending.len() < ceiling(config)
    }
}

/// Records are fetched one at a time: no event comes from a bulk dispatch.
pub open spec fn record_at_a_time(trace: Seq<NativeEvent>) -> bool {
    forall|k: int|
        0 <= k < trace.len() ==> !(#[trigger] trace[k] is Delivered) && !(trace[k] is Returned)
}

/// No batch is empty.
pub proof fn lemma_batches_never_empty(
    config: ConfigView,
    live_capture: bool,
    trace: Seq<NativeEvent>,
)
    ensures
        forall|b: int|
            0 <= b < run(config, live_capture, trace).batches.len() ==> (#[trigger] run(
                config,
                live_capture,
                trace,
            ).batches[b]).len() >= 1,
    decreases trace.len(),
{
    if trace.len() > 0 {
        lemma_batches_never_empty(config, live_capture, trace.drop_last());
    }
}

/// No batch exceeds the ceiling, as long as the capture engine delivers no
/// more than it was asked for.
pub proof fn lemma_batches_within_ceiling(
    config: ConfigView,
    live_capture: bool,
    trace: Seq<NativeEvent>,
)
    requires
        has_room(config, live_capture, trace),
    ensures
        forall|b: int|
            0 <= b < run(config, live_capture, trace).batches.len() ==> (#[trigger] run(
                config,
                live_capture,
                trace,
            ).batches[b]).len() <= ceiling(config),
        run(config, live_capture, trace).engine.pending.len() <= ceiling(config),
    decreases trace.len(),
{
    if trace.len() > 0 {
        lemma_batches_within_ceiling(config, live_capture, trace.drop_last());
        lemma_run_shape(config, live_capture, trace.drop_last());
    }
}

/// When records are fetched one at a time there is always room: the batch is
/// looked at after each record, and handed out as soon as it is full.
pub proof fn lemma_record_at_a_time_has_room(
    config: ConfigView,
    live_capture: bool,
    trace: Seq<NativeEvent>,
)
    requires
        record_at_a_time(trace),
    ensures
        has_room(config, live_capture, trace),
        run(config, live_capture, trace).engine.pending.len() < ceiling(config),
    decreases trace.len(),
{
    if trace.len() > 0 {
        let rest = trace.drop_last();
        assert forall|k: int| 0 <= k < rest.len() implies !(#[trigger] rest[k] is Delivered) && !(
        rest[k] is Returned) by {
            assert(rest[k] == trace[k]);
        }
        lemma_record_at_a_time_has_room(config, live_capture, rest);
        lemma_run_shape(config, live_capture, rest);
        assert(!(trace[trace.len() - 1] is Delivered) && !(trace[trace.len() - 1] is Returned));
    }
}

/// Records come from bulk dispatch calls only: none is fetched by itself.
pub open spec fn bulk_only(trace: Seq<NativeEvent>) -> bool {
    forall|k: int| 0 <= k < trace.len() ==> !(#[trigger] trace[k] is Fetched)
}

/// Number of records that the bulk dispatch call under way has delivered:
/// the deliveries at the end of the trace.
pub open spec fn burst(trace: Seq<NativeEvent>) -> nat
    decreases trace.len(),
{
    if trace.len() == 0 || !(trace.last() is Delivered) {
        0
    } else {
        burst(trace.drop_last()) + 1
    }
}

/// The run at the moment at which the bulk dispatch call under way was made.
pub open spec fn run_at_call(config: ConfigView, live_capture: bool, trace: Seq<NativeEvent>) -> Run {
    run(config, live_capture, trace.take(trace.len() - burst(trace)))
}

/// No bulk dispatch call delivers more records than the count it was made
/// with, which is the room of the engine at that moment.
pub open spec fn keeps_to_count(config: ConfigView, live_capture: bool, trace: Seq<NativeEvent>) -> bool
    decreases trace.len(),
{
    trace.len() == 0 || {
        &&& keeps_to_count(config, live_capture, trace.drop_last())
        &&& trace.last() is Delivered ==> burst(trace) <= run_at_call(
            config,
            live_capture,
            trace,
        ).engine.room()
    }
}

/// The deliveries of a bulk dispatch call are no more than `burst` counts.
proof fn lemma_burst_bounds(trace: Seq<NativeEvent>)
    ensures
        burst(trace) <= trace.len(),
        trace.len() > 0 && trace.last() is Delivered ==> trace.take(trace.len() - burst(trace))
            == trace.drop_last().take(trace.drop_last().len() - burst(trace.drop_last())),
    decreases trace.len(),
{
    if trace.len() > 0 {
        lemma_burst_bounds(trace.drop_last());
        if trace.last() is Delivered {
            let rest = trace.drop_last();
            assert(trace.take(trace.len() - burst(trace)) =~= rest.take(rest.len() - burst(rest)));
        }
    }
}

/// With bulk dispatch there is always room, as long as no call delivers more
/// than the count it was made with.
pub proof fn lemma_bulk_has_room(config: ConfigView, live_capture: bool, trace: Seq<NativeEvent>)
    requires
        bulk_only(trace),
        keeps_to_count(config, live_capture, trace),
    ensures
        has_room(config, live_capture, trace),
        run_at_call(config, live_capture, trace).engine.pending.len() < ceiling(config),
        run(config, live_capture, trace).engine.pending.len() <= run_at_call(
            config,
            live_capture,
            trace,
        ).engine.pending.len() + burst(trace),
    decreases trace.len(),
{
    if trace.len() == 0 {
        assert(trace.take(0) =~= trace);
    } else {
        let rest = trace.drop_last();
        assert forall|k: int| 0 <= k < rest.len() implies !(#[trigger] rest[k] is Fetched) by {
            assert(rest[k] == trace[k]);
        }
        lemma_bulk_has_room(config, live_capture, rest);
        lemma_run_shape(config, live_capture, rest);
        lemma_burst_bounds(trace);
        assert(!(trace[trace.len() - 1] is Fetched));
        if trace.last() is Delivered {
            let at_call = run_at_call(config, live_capture, trace);
            assert(at_call == run_at_call(config, live_capture, rest));
            lemma_run_shape(config, live_capture, trace.take(trace.len() - burst(trace)));
            assert(at_call.engine.ceiling() == ceiling(config));
            assert(burst(trace) <= at_call.engine.room());
        } else {
            assert(trace.take(trace.len() as int) =~= trace);
        }
    }
}

/// With a ceiling of one packet every batch holds exactly one.
pub proof fn lemma_single_packet_batches(
    config: ConfigView,
    live_capture: bool,
    trace: Seq<NativeEvent>,
)
    requires
        has_room(config, live_capture, trace),
        config.max_packets_read <= 1,
    ensures
        forall|b: int|
            0 <= b < run(config, live_capture, trace).batches.len() ==> (#[trigger] run(
                config,
                live_capture,
                trace,
            ).batches[b]).len() == 1,
{
    lemma_batches_never_empty(config, live_capture, trace);
    lemma_batches_within_ceiling(config, live_capture, trace);
}

} // verus!
