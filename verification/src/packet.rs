//! Captured packets and the records they are decoded from.

use vstd::prelude::*;

verus! {

/// Number of microseconds in one second.
pub const MICROS_PER_SECOND: u64 = 1_000_000;

/// Instant of capture: microseconds since the Unix epoch, held exactly.
/// Timestamps are ordered by time.
#[derive(Clone, Copy, Debug, PartialEq, Eq, PartialOrd, Ord)]
pub struct Timestamp {
    micros: u128,
}

impl View for Timestamp {
    type V = nat;

    /// Microseconds since the epoch.
    closed spec fn view(&self) -> nat {
        self.micros as nat
    }
}

impl Timestamp {
    /// The instant `secs` seconds and `micros` microseconds after the epoch.
    /// `micros` may exceed one second; nothing is rounded or cut off.
    pub fn from_parts(secs: u64, micros: u64) -> (t: Timestamp)
        ensures
            t@ == secs as nat * 1_000_000 + micros as nat,
    {
        let total: u128 = secs as u128 * 1_000_000u128 + micros as u128;
        Timestamp { micros: total }
    }

    /// Microseconds since the epoch.
    pub fn as_micros(&self) -> (m: u128)
        ensures
            m as nat == self@,
    {
        self.micros
    }

    /// Whole seconds since the epoch.
    pub fn secs(&self) -> (s: u128)
        ensures
            s as nat == self@ / 1_000_000,
    {
        self.micros / 1_000_000u128
    }

    /// Microseconds past the last whole second.
    pub fn subsec_micros(&self) -> (m: u32)
        ensures
            m as nat == self@ % 1_000_000,
    {
        (self.micros % 1_000_000u128) as u32
    }
}

/// Header of one record as the capture engine delivers it.
#[derive(Clone, Copy, Debug, PartialEq, Eq)]
pub struct RecordHeader {
    /// Seconds since the epoch.
    pub ts_sec: u64,
    /// Microseconds to add to `ts_sec`.
    pub ts_usec: u64,
    /// Number of bytes that were captured.
    pub caplen: u32,
    /// Length of the packet on the wire.
    pub len: u32,
}

/// What a [`Packet`] holds, as mathematical values.
pub struct PacketView {
    /// Microseconds since the epoch.
    pub timestamp: nat,
    pub captured_length: u32,
    pub original_length: u32,
    pub data: Seq<u8>,
}

impl PacketView {
    /// The bytes held are exactly the bytes that were captured.
    pub open spec fn well_formed(self) -> bool {
        self.data.len() == self.captured_length
    }
}

/// Every packet of the batch holds exactly the bytes that were captured of it.
pub open spec fn all_well_formed(batch: Seq<Packet>) -> bool {
    forall|i: int| 0 <= i < batch.len() ==> (#[trigger] batch[i])@.well_formed()
}

/// One captured packet. Never changed after it is made.
#[derive(Debug, PartialEq, Eq)]
pub struct Packet {
    timestamp: Timestamp,
    captured_length: u32,
    original_length: u32,
    data: Vec<u8>,
}

impl View for Packet {
    type V = PacketView;

    closed spec fn view(&self) -> PacketView {
        PacketView {
            timestamp: self.timestamp@,
            captured_length: self.captured_length,
            original_length: self.original_length,
            data: self.data@,
        }
    }
}

impl Clone for Packet {
    fn clone(&self) -> (r: Packet)
        ensures
            r@ == self@,
    {
        proof {
            use_type_invariant(self);
        }
        let data = self.data.clone();
        assert(data@ =~= self.data@);
        Packet {
            timestamp: self.timestamp,
            captured_length: self.captured_length,
            original_length: self.original_length,
            data,
        }
    }
}

impl Packet {
    #[verifier::type_invariant]
    spec fn inv(self) -> bool {
        self.data@.len() == self.captured_length
    }

    /// The packet that a record with header `header` and bytes `data` decodes to.
    pub closed spec fn assemble(header: RecordHeader, data: Vec<u8>) -> Packet {
        Packet {
            timestamp: Timestamp {
                micros: (header.ts_sec as nat * 1_000_000 + header.ts_usec as nat) as u128,
            },
            captured_length: header.caplen,
            original_length: header.len,
            data,
        }
    }

    /// A record decodes to a packet when its header and its bytes are both
    /// there and the bytes are as many as the header says were captured.
    pub open spec fn decodable(header: Option<RecordHeader>, data: Option<Vec<u8>>) -> bool {
        &&& header is Some
        &&& data is Some
        &&& data->0@.len() == header->0.caplen
    }

    /// Decoding as a function: the packet of a decodable record, else nothing.
    pub open spec fn decode_spec(header: Option<RecordHeader>, data: Option<Vec<u8>>) -> Option<
        Packet,
    > {
        if Self::decodable(header, data) {
            Some(Self::assemble(header->0, data->0))
        } else {
            None
        }
    }

    /// What an assembled packet holds.
    pub broadcast proof fn lemma_assemble(header: RecordHeader, data: Vec<u8>)
        ensures
            (#[trigger] Self::assemble(header, data))@ == (PacketView {
                timestamp: header.ts_sec as nat * 1_000_000 + header.ts_usec as nat,
                captured_length: header.caplen,
                original_length: header.len,
                data: data@,
            }),
    {
    }

    /// A packet from its parts, or `None` when `data` does not hold exactly
    /// `captured_length` bytes.
    pub fn new(timestamp: Timestamp, captured_length: u32, original_length: u32, data: Vec<u8>) -> (r:
        Option<Packet>)
        ensures
            r is Some <==> data@.len() == captured_length,
            r matches Some(p) ==> p@ == (PacketView {
                timestamp: timestamp@,
                captured_length,
                original_length,
                data: data@,
            }),
    {
        if data.len() == captured_length as usize {
            Some(Packet { timestamp, captured_length, original_length, data })
        } else {
            None
        }
    }

    /// Decodes one delivered record. A record without header, without bytes,
    /// or whose bytes disagree with the captured length gives `None`.
    pub fn decode(header: Option<RecordHeader>, data: Option<Vec<u8>>) -> (r: Option<Packet>)
        ensures
            r == Self::decode_spec(header, data),
    {
        match (header, data) {
            (Some(h), Some(d)) => {
                if d.len() == h.caplen as usize {
                    Some(
                        Packet {
                            timestamp: Timestamp::from_parts(h.ts_sec, h.ts_usec),
                            captured_length: h.caplen,
                            original_length: h.len,
                            data: d,
                        },
                    )
                } else {
                    None
                }
            },
            _ => None,
        }
    }

    /// Instant of capture.
    pub fn timestamp(&self) -> (t: Timestamp)
        ensures
            t@ == self@.timestamp,
    {
        self.timestamp
    }

    /// Number of bytes captured; always the length of [`Packet::data`].
    pub fn actual_length(&self) -> (n: u32)
        ensures
            n == self@.captured_length,
            self@.well_formed(),
    {
        proof {
            use_type_invariant(self);
        }
        self.captured_length
    }

    /// Length of the packet on the wire, which may exceed what was captured.
    pub fn original_length(&self) -> (n: u32)
        ensures
            n == self@.original_length,
    {
        self.original_length
    }

    /// The captured bytes.
    pub fn data(&self) -> (d: &Vec<u8>)
        ensures
            d@ == self@.data,
            self@.well_formed(),
    {
        proof {
            use_type_invariant(self);
        }
        &self.data
    }

    /// Gives up the packet for its bytes.
    pub fn into_data(self) -> (d: Vec<u8>)
        ensures
            d@ == self@.data,
            self@.well_formed(),
    {
        proof {
            use_type_invariant(&self);
        }
        self.data
    }
}

} // verus!
