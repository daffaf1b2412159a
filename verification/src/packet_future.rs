//! The bridge between the consumer and the background lane.
//!
//! Dispatch cycles block, so they run away from the consumer. A
//! [`PacketFuture`] keeps count of them: it lets one cycle be scheduled when
//! none is in flight, and turns the outcome of a finished cycle into what the
//! consumer is told.

use crate::config::Config;
use crate::errors::Error;
use crate::packet::Packet;
use crate::packet_iterator::{ItemView, PacketIterator, PacketIteratorItem, PacketIteratorView};
use vstd::prelude::*;

verus! {

/// What the caller does after polling a [`PacketFuture`].
#[derive(Debug)]
pub enum FuturePoll {
    /// No cycle was in flight: run this engine for one cycle on the
    /// background lane.
    Schedule(PacketIterator),
    /// A cycle is in flight: look whether it has finished.
    Check,
}

/// A [`FuturePoll`] over the state of its engine.
pub enum FuturePollView {
    Schedule(PacketIteratorView),
    Check,
}

impl View for FuturePoll {
    type V = FuturePollView;

    open spec fn view(&self) -> FuturePollView {
        match *self {
            FuturePoll::Schedule(engine) => FuturePollView::Schedule(engine@),
            FuturePoll::Check => FuturePollView::Check,
        }
    }
}

/// What a finished cycle resolves to, with its batch as a sequence: `None`
/// while there is nothing to tell the consumer, else the end of the session
/// (`Ok(None)`), a batch, or a failure.
pub type Resolution = Option<Result<Option<Seq<Packet>>, Error>>;

/// The batch of a resolution as a sequence.
pub open spec fn resolution_view(r: Option<Result<Option<Vec<Packet>>, Error>>) -> Resolution {
    match r {
        None => None,
        Some(Err(e)) => Some(Err(e)),
        Some(Ok(None)) => Some(Ok(None)),
        Some(Ok(Some(batch))) => Some(Ok(Some(batch@))),
    }
}

/// How an outcome of the dispatch engine resolves. A cycle that found no
/// packets resolves to nothing, and so does one that claims a batch without a
/// packet in it: the consumer never sees an empty batch.
pub open spec fn resolve(item: ItemView) -> Resolution {
    match item {
        ItemView::Complete => Some(Ok(None)),
        ItemView::Failed(e) => Some(Err(e)),
        ItemView::NoPackets => None,
        ItemView::Packets(batch) => if batch.len() == 0 {
            None
        } else {
            Some(Ok(Some(batch)))
        },
    }
}

/// State of a [`PacketFuture`].
pub struct PacketFutureView {
    pub max_packets_read: usize,
    pub live_capture: bool,
    /// Whether a dispatch cycle is in flight.
    pub outstanding: bool,
}

impl PacketFutureView {
    /// The engine that a newly scheduled cycle runs.
    pub open spec fn engine(self) -> PacketIteratorView {
        PacketIteratorView::fresh(self.max_packets_read, self.live_capture)
    }

    /// A poll schedules a cycle exactly when none is in flight.
    pub open spec fn poll(self) -> (PacketFutureView, FuturePollView) {
        if self.outstanding {
            (self, FuturePollView::Check)
        } else {
            (
                PacketFutureView { outstanding: true, ..self },
                FuturePollView::Schedule(self.engine()),
            )
        }
    }

    /// A finished cycle is in flight no longer.
    pub open spec fn complete(self, item: ItemView) -> (PacketFutureView, Resolution) {
        (PacketFutureView { outstanding: false, ..self }, resolve(item))
    }
}

/// One pending answer to the consumer, and the dispatch cycles it takes.
#[derive(Debug)]
pub struct PacketFuture {
    max_packets_read: usize,
    live_capture: bool,
    outstanding: bool,
}

impl View for PacketFuture {
    type V = PacketFutureView;

    closed spec fn view(&self) -> PacketFutureView {
        PacketFutureView {
            max_packets_read: self.max_packets_read,
            live_capture: self.live_capture,
            outstanding: self.outstanding,
        }
    }
}

impl PacketFuture {
    /// A future with no cycle in flight.
    pub fn new(config: &Config, live_capture: bool) -> (f: PacketFuture)
        ensures
            f@ == (PacketFutureView {
                max_packets_read: config@.max_packets_read,
                live_capture,
                outstanding: false,
            }),
    {
        PacketFuture { max_packets_read: config.max_packets_read(), live_capture, outstanding: false }
    }

    /// Whether a dispatch cycle is in flight.
    pub fn is_outstanding(&self) -> (b: bool)
        ensures
            b == self@.outstanding,
    {
        self.outstanding
    }

    /// One poll: schedules a cycle if none is in flight.
    pub fn poll(&mut self) -> (r: FuturePoll)
        ensures
            final(self)@ == old(self)@.poll().0,
            r@ == old(self)@.poll().1,
    {
        if self.outstanding {
            FuturePoll::Check
        } else {
            self.outstanding = true;
            FuturePoll::Schedule(PacketIterator::with_ceiling(self.max_packets_read, self.live_capture))
        }
    }

    /// Takes the outcome of the cycle that has finished.
    pub fn complete(&mut self, item: PacketIteratorItem) -> (r: Option<
        Result<Option<Vec<Packet>>, Error>,
    >)
        ensures
            final(self)@ == old(self)@.complete(item@).0,
            resolution_view(r) == old(self)@.complete(item@).1,
    {
        self.outstanding = false;
        match item {
            PacketIteratorItem::Complete => Some(Ok(None)),
            PacketIteratorItem::Failed(e) => Some(Err(e)),
            PacketIteratorItem::NoPackets => None,
            PacketIteratorItem::Packets(batch) => {
                if batch.len() == 0 {
                    None
                } else {
                    Some(Ok(Some(batch)))
                }
            },
        }
    }
}

} // verus!
