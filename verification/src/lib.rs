//! Pull-based packet capture, as a set of verified state machines.
//!
//! A capture session is driven by blocking calls into a native capture
//! engine. This crate holds every decision that surrounds those calls: how a
//! delivered record becomes a [`Packet`], when a dispatch cycle stops and what
//! it reports, how a finished cycle is turned into an item of the stream, and
//! in which order a live session is configured. The caller performs the native
//! calls and the scheduling, and reports what happened as plain values.

pub mod config;
pub mod errors;
pub mod packet;
pub mod packet_future;
pub mod packet_iterator;
pub mod stream;
pub mod trace;

pub use crate::config::{Config, ConfigView};
pub use crate::errors::Error;
pub use crate::packet::{Packet, PacketView, RecordHeader, Timestamp};
pub use crate::packet_future::{FuturePoll, PacketFuture};
pub use crate::packet_iterator::{NativeEvent, PacketIterator, PacketIteratorItem, Step};
pub use crate::stream::{
    activation_answered, activation_plan, Demand, PacketStream, SessionCommand, StreamPoll,
};
pub use crate::trace::{replay, Replayed};
