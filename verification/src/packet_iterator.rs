//! The dispatch engine: one cycle of native calls, event by event.
//!
//! A dispatch cycle gathers the packets that the capture engine delivers into
//! one batch. The caller makes the native calls; after each one it reports
//! what happened as a [`NativeEvent`], and [`PacketIterator::step`] decides
//! whether the cycle goes on, and what it yields when it stops.

use crate::config::Config;
use crate::errors::Error;
use crate::packet::{all_well_formed, Packet, RecordHeader};
use vstd::prelude::*;

verus! {

/// Return code by which a native dispatch call says that its loop was stopped.
pub const LOOP_STOPPED: i32 = -2;

/// What the return code of a native dispatch call stands for.
#[derive(Clone, Copy, Debug, PartialEq, Eq)]
pub enum Signal {
    /// The loop was stopped: no more data will come.
    LoopStopped,
    /// The call failed.
    Failure,
    /// No data is ready at the moment.
    NoData,
    /// Records were delivered.
    Delivered,
}

/// Minus two says that the loop was stopped, any other negative code that the
/// call failed, zero that no data was ready, a positive code that records were
/// delivered.
pub open spec fn classify_spec(code: i32) -> Signal {
    if code == LOOP_STOPPED {
        Signal::LoopStopped
    } else if code < 0 {
        Signal::Failure
    } else if code == 0 {
        Signal::NoData
    } else {
        Signal::Delivered
    }
}

/// Classifies the return code of a native dispatch call.
pub fn classify(code: i32) -> (s: Signal)
    ensures
        s == classify_spec(code),
{
    if code == LOOP_STOPPED {
        Signal::LoopStopped
    } else if code < 0 {
        Signal::Failure
    } else if code == 0 {
        Signal::NoData
    } else {
        Signal::Delivered
    }
}

/// Outcome of one dispatch cycle.
#[derive(Clone, Debug, PartialEq, Eq)]
pub enum PacketIteratorItem {
    /// The session has ended and the cycle gathered nothing.
    Complete,
    /// The capture engine reported a hard failure.
    Failed(Error),
    /// Nothing was ready; the session is still open.
    NoPackets,
    /// The batch of this cycle, in order of capture.
    Packets(Vec<Packet>),
}

/// A [`PacketIteratorItem`] with its batch as a sequence.
pub enum ItemView {
    Complete,
    Failed(Error),
    NoPackets,
    Packets(Seq<Packet>),
}

impl View for PacketIteratorItem {
    type V = ItemView;

    open spec fn view(&self) -> ItemView {
        match *self {
            PacketIteratorItem::Complete => ItemView::Complete,
            PacketIteratorItem::Failed(e) => ItemView::Failed(e),
            PacketIteratorItem::NoPackets => ItemView::NoPackets,
            PacketIteratorItem::Packets(batch) => ItemView::Packets(batch@),
        }
    }
}

impl ItemView {
    /// After `Complete` and `Failed` the session yields nothing more.
    pub open spec fn is_terminal(self) -> bool {
        self is Complete || self is Failed
    }
}

impl PacketIteratorItem {
    /// Whether the session yields nothing more after this outcome.
    pub fn is_terminal(&self) -> (b: bool)
        ensures
            b == self@.is_terminal(),
    {
        match self {
            PacketIteratorItem::Complete => true,
            PacketIteratorItem::Failed(_) => true,
            PacketIteratorItem::NoPackets => false,
            PacketIteratorItem::Packets(_) => false,
        }
    }
}

/// What the caller saw of the capture engine since the last step.
#[derive(Clone, Debug, PartialEq, Eq)]
pub enum NativeEvent {
    /// The interrupt flag was found set before a native call was made.
    Interrupted,
    /// A bulk dispatch call handed one record to its callback. Either part
    /// is `None` where the capture engine passed no pointer for it.
    Delivered { header: Option<RecordHeader>, data: Option<Vec<u8>> },
    /// A bulk dispatch call returned `code`.
    Returned { code: i32 },
    /// A single-record fetch returned `code`; `header` and `data` are what its
    /// two out-pointers held then, which means something only if `code` is
    /// positive.
    Fetched { code: i32, header: Option<RecordHeader>, data: Option<Vec<u8>> },
    /// The diagnostic of the capture engine, fetched after [`Step::Diagnose`].
    Diagnostic { message: String },
}

/// What the caller does after a step.
#[derive(Debug, PartialEq, Eq)]
pub enum Step {
    /// Look at the interrupt flag, make the next native call, report it.
    Continue,
    /// The call failed: fetch the diagnostic of the capture engine and
    /// report it.
    Diagnose,
    /// The cycle is over and yields `item`. If `stop_native` is set, ask the
    /// capture engine to stop its loop before anything else.
    Finish { item: PacketIteratorItem, stop_native: bool },
}

/// A [`Step`] with its batch as a sequence.
pub enum StepView {
    Continue,
    Diagnose,
    Finish { item: ItemView, stop_native: bool },
}

impl View for Step {
    type V = StepView;

    open spec fn view(&self) -> StepView {
        match *self {
            Step::Continue => StepView::Continue,
            Step::Diagnose => StepView::Diagnose,
            Step::Finish { item, stop_native } => StepView::Finish { item: item@, stop_native },
        }
    }
}

/// State of a dispatch engine, as mathematical values.
pub struct PacketIteratorView {
    /// Packets gathered in the running cycle, oldest first.
    pub pending: Seq<Packet>,
    pub max_packets_read: usize,
    pub live_capture: bool,
    pub is_complete: bool,
}

impl PacketIteratorView {
    /// An engine that has gathered nothing yet.
    pub open spec fn fresh(max_packets_read: usize, live_capture: bool) -> PacketIteratorView {
        PacketIteratorView {
            pending: Seq::empty(),
            max_packets_read,
            live_capture,
            is_complete: false,
        }
    }

    /// Size at which a batch is handed out: the configured ceiling, and one
    /// where that is zero, since no batch is empty.
    pub open spec fn ceiling(self) -> nat {
        if self.max_packets_read == 0 {
            1
        } else {
            self.max_packets_read as nat
        }
    }

    /// Most records that the next bulk dispatch call may deliver: what the
    /// batch still has room for, at least one, and no more than the native
    /// call can be asked for.
    pub open spec fn room(self) -> int {
        let left = self.ceiling() - self.pending.len();
        if left < 1 {
            1
        } else if left > i32::MAX {
            i32::MAX as int
        } else {
            left
        }
    }

    /// The state with an empty batch.
    pub open spec fn drained(self) -> PacketIteratorView {
        PacketIteratorView { pending: Seq::empty(), ..self }
    }

    /// The state after the last outcome of the session.
    pub open spec fn ended(self) -> PacketIteratorView {
        PacketIteratorView { pending: Seq::empty(), is_complete: true, ..self }
    }

    /// The state after one record was delivered: its packet joins the batch,
    /// and a record that does not decode is dropped.
    pub open spec fn deliver(self, header: Option<RecordHeader>, data: Option<Vec<u8>>) -> PacketIteratorView {
        match Packet::decode_spec(header, data) {
            Some(packet) => PacketIteratorView { pending: self.pending.push(packet), ..self },
            None => self,
        }
    }

    /// The cycle stops because the session is over: an empty batch ends the
    /// session, any other is handed out first.
    pub open spec fn close(self) -> (PacketIteratorView, StepView) {
        if self.pending.len() == 0 {
            (self.ended(), StepView::Finish { item: ItemView::Complete, stop_native: false })
        } else {
            (
                self.drained(),
                StepView::Finish { item: ItemView::Packets(self.pending), stop_native: false },
            )
        }
    }

    /// What follows from the return code of a native dispatch call.
    pub open spec fn on_return(self, code: i32) -> (PacketIteratorView, StepView) {
        match classify_spec(code) {
            Signal::LoopStopped => self.close(),
            Signal::Failure => (self.ended(), StepView::Diagnose),
            Signal::NoData => {
                let item = if self.pending.len() == 0 {
                    ItemView::NoPackets
                } else {
                    ItemView::Packets(self.pending)
                };
                (self.drained(), StepView::Finish { item, stop_native: !self.live_capture })
            },
            Signal::Delivered => {
                if self.pending.len() >= self.ceiling() {
                    (
                        self.drained(),
                        StepView::Finish {
                            item: ItemView::Packets(self.pending),
                            stop_native: false,
                        },
                    )
                } else {
                    (self, StepView::Continue)
                }
            },
        }
    }

    /// An engine whose session has ended reports `Complete` and stays as it is.
    pub open spec fn rest(self) -> (PacketIteratorView, StepView) {
        (self, StepView::Finish { item: ItemView::Complete, stop_native: false })
    }

    /// The transition of the engine: the state after `event`, and what the
    /// caller does next.
    ///
    /// A diagnostic always ends the session with the failure it describes,
    /// and what was gathered is discarded. An engine whose session has ended
    /// answers every other event with `Complete`. Otherwise an interrupt
    /// closes the cycle, a delivered record joins the batch, and a return code
    /// is acted on; the record that comes with a fetch counts only if the
    /// code is positive.
    pub open spec fn step(self, event: NativeEvent) -> (PacketIteratorView, StepView) {
        if self.is_complete && !(event is Diagnostic) {
            self.rest()
        } else {
            match event {
                NativeEvent::Interrupted => self.close(),
                NativeEvent::Delivered { header, data } => (
                    self.deliver(header, data),
                    StepView::Continue,
                ),
                NativeEvent::Returned { code } => self.on_return(code),
                NativeEvent::Fetched { code, header, data } => if code > 0 {
                    self.deliver(header, data).on_return(code)
                } else {
                    self.on_return(code)
                },
                NativeEvent::Diagnostic { message } => (
                    self.ended(),
                    StepView::Finish {
                        item: ItemView::Failed(Error::Dispatch { msg: message }),
                        stop_native: false,
                    },
                ),
            }
        }
    }
}

/// The dispatch engine of one session.
#[derive(Debug)]
pub struct PacketIterator {
    max_packets_read: usize,
    live_capture: bool,
    is_complete: bool,
    pending: Vec<Packet>,
}

impl View for PacketIterator {
    type V = PacketIteratorView;

    closed spec fn view(&self) -> PacketIteratorView {
        PacketIteratorView {
            pending: self.pending@,
            max_packets_read: self.max_packets_read,
            live_capture: self.live_capture,
            is_complete: self.is_complete,
        }
    }
}

/// An empty batch with room for about twice `max_packets_read` packets,
/// as far as memory is to be had.
fn accumulator(max_packets_read: usize) -> (batch: Vec<Packet>)
    ensures
        batch@ == Seq::<Packet>::empty(),
{
    let room: usize = if max_packets_read <= usize::MAX / 2 {
        2 * max_packets_read
    } else {
        usize::MAX
    };
    let mut batch: Vec<Packet> = Vec::new();
    let _ = batch.try_reserve(room);
    batch
}

impl PacketIterator {
    #[verifier::type_invariant]
    spec fn inv(self) -> bool {
        all_well_formed(self.pending@)
    }

    /// The engine of a session that is a live capture, or the replay of a
    /// file, with the batch ceiling of `config`.
    pub fn new(config: &Config, live_capture: bool) -> (it: PacketIterator)
        ensures
            it@ == PacketIteratorView::fresh(config@.max_packets_read, live_capture),
    {
        PacketIterator::with_ceiling(config.max_packets_read(), live_capture)
    }

    /// An engine with the batch ceiling `max_packets_read`.
    pub(crate) fn with_ceiling(max_packets_read: usize, live_capture: bool) -> (it: PacketIterator)
        ensures
            it@ == PacketIteratorView::fresh(max_packets_read, live_capture),
    {
        PacketIterator {
            max_packets_read,
            live_capture,
            is_complete: false,
            pending: accumulator(max_packets_read),
        }
    }

    /// Whether the session has yielded its last outcome.
    pub fn is_complete(&self) -> (b: bool)
        ensures
            b == self@.is_complete,
    {
        self.is_complete
    }

    /// Whether the session is a live capture.
    pub fn is_live_capture(&self) -> (b: bool)
        ensures
            b == self@.live_capture,
    {
        self.live_capture
    }

    /// Number of packets gathered in the running cycle.
    pub fn pending_len(&self) -> (n: usize)
        ensures
            n == self@.pending.len(),
    {
        self.pending.len()
    }

    /// Size at which a batch is handed out.
    pub fn ceiling(&self) -> (n: usize)
        ensures
            n == self@.ceiling(),
            n >= 1,
    {
        if self.max_packets_read == 0 {
            1
        } else {
            self.max_packets_read
        }
    }

    /// The count to hand to the next bulk dispatch call.
    pub fn room(&self) -> (n: i32)
        ensures
            n == self@.room(),
            n >= 1,
    {
        let ceiling = self.ceiling();
        let held = self.pending.len();
        if held >= ceiling {
            1
        } else if ceiling - held > i32::MAX as usize {
            i32::MAX
        } else {
            (ceiling - held) as i32
        }
    }

    /// Takes the batch out and leaves `empty` in its place.
    fn take_pending(&mut self, empty: Vec<Packet>) -> (batch: Vec<Packet>)
        requires
            empty@.len() == 0,
        ensures
            batch@ == old(self)@.pending,
            all_well_formed(batch@),
            final(self)@ == old(self)@.drained(),
    {
        proof {
            use_type_invariant(&*self);
        }
        let mut batch = empty;
        core::mem::swap(&mut self.pending, &mut batch);
        assert(self.pending@ =~= Seq::<Packet>::empty());
        batch
    }

    /// Ends the session: what was gathered is given up.
    fn end(&mut self)
        ensures
            final(self)@ == old(self)@.ended(),
    {
        let _ = self.take_pending(Vec::new());
        self.is_complete = true;
    }

    /// Hands out the batch, with or without a wish to stop the native loop,
    /// and makes room for the next.
    fn hand_out(&mut self, stop_native: bool) -> (r: Step)
        ensures
            final(self)@ == old(self)@.drained(),
            r@ == (StepView::Finish {
                item: ItemView::Packets(old(self)@.pending),
                stop_native,
            }),
            r matches Step::Finish { item: PacketIteratorItem::Packets(batch), .. }
                && all_well_formed(batch@),
    {
        let batch = self.take_pending(accumulator(self.max_packets_read));
        Step::Finish { item: PacketIteratorItem::Packets(batch), stop_native }
    }

    /// Puts the packet of one delivered record into the batch.
    fn deliver(&mut self, header: Option<RecordHeader>, data: Option<Vec<u8>>)
        ensures
            final(self)@ == old(self)@.deliver(header, data),
    {
        proof {
            use_type_invariant(&*self);
        }
        match Packet::decode(header, data) {
            Some(packet) => {
                proof {
                    Packet::lemma_assemble(header->0, data->0);
                }
                let mut batch: Vec<Packet> = Vec::new();
                core::mem::swap(&mut self.pending, &mut batch);
                batch.push(packet);
                core::mem::swap(&mut self.pending, &mut batch);
            },
            None => {},
        }
    }

    /// Stops the cycle because the session is over.
    fn close(&mut self) -> (r: Step)
        ensures
            final(self)@ == old(self)@.close().0,
            r@ == old(self)@.close().1,
            r matches Step::Finish { item: PacketIteratorItem::Packets(batch), .. }
                ==> all_well_formed(batch@),
    {
        if self.pending.len() == 0 {
            self.end();
            Step::Finish { item: PacketIteratorItem::Complete, stop_native: false }
        } else {
            self.hand_out(false)
        }
    }

    /// Acts on the return code of a native dispatch call.
    fn on_return(&mut self, code: i32) -> (r: Step)
        ensures
            final(self)@ == old(self)@.on_return(code).0,
            r@ == old(self)@.on_return(code).1,
            r matches Step::Finish { item: PacketIteratorItem::Packets(batch), .. }
                ==> all_well_formed(batch@),
    {
        match classify(code) {
            Signal::LoopStopped => self.close(),
            Signal::Failure => {
                self.end();
                Step::Diagnose
            },
            Signal::NoData => {
                let stop_native = !self.live_capture;
                if self.pending.len() == 0 {
                    assert(self@.pending =~= Seq::<Packet>::empty());
                    Step::Finish { item: PacketIteratorItem::NoPackets, stop_native }
                } else {
                    self.hand_out(stop_native)
                }
            },
            Signal::Delivered => {
                if self.pending.len() >= self.ceiling() {
                    self.hand_out(false)
                } else {
                    Step::Continue
                }
            },
        }
    }

    /// Takes in one event and says what to do next.
    ///
    /// A batch that is handed out is never empty, its packets hold exactly
    /// the bytes that were captured of them, and it keeps within the ceiling
    /// if there was room for the record that the event brought. The only
    /// failure that a cycle yields is that of a dispatch.
    pub fn step(&mut self, event: NativeEvent) -> (r: Step)
        ensures
            final(self)@ == old(self)@.step(event).0,
            r@ == old(self)@.step(event).1,
            r matches Step::Finish { item: PacketIteratorItem::Failed(e), .. } ==> e is Dispatch,
            r matches Step::Finish { item: PacketIteratorItem::Packets(batch), .. } ==> {
                &&& batch@.len() >= 1
                &&& all_well_formed(batch@)
                &&& old(self)@.pending.len() < old(self)@.ceiling() ==> batch@.len() <= old(
                    self,
                )@.ceiling()
            },
    {
        match event {
            NativeEvent::Diagnostic { message } => {
                self.end();
                Step::Finish {
                    item: PacketIteratorItem::Failed(Error::Dispatch { msg: message }),
                    stop_native: false,
                }
            },
            NativeEvent::Interrupted => {
                if self.is_complete {
                    Step::Finish { item: PacketIteratorItem::Complete, stop_native: false }
                } else {
                    self.close()
                }
            },
            NativeEvent::Delivered { header, data } => {
                if self.is_complete {
                    Step::Finish { item: PacketIteratorItem::Complete, stop_native: false }
                } else {
                    self.deliver(header, data);
                    Step::Continue
                }
            },
            NativeEvent::Returned { code } => {
                if self.is_complete {
                    Step::Finish { item: PacketIteratorItem::Complete, stop_native: false }
                } else {
                    self.on_return(code)
                }
            },
            NativeEvent::Fetched { code, header, data } => {
                if self.is_complete {
                    Step::Finish { item: PacketIteratorItem::Complete, stop_native: false }
                } else {
                    if code > 0 {
                        self.deliver(header, data);
                    }
                    self.on_return(code)
                }
            },
        }
    }
}

} // verus!
