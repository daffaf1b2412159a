//! Options of a capture.

use vstd::prelude::*;

verus! {

/// Batch ceiling of a default configuration.
pub const DEFAULT_MAX_PACKETS_READ: usize = 1000;

/// Snapshot length of a default configuration, in bytes.
pub const DEFAULT_SNAPLEN: u32 = 65535;

/// Capture buffer size of a default configuration, in bytes.
pub const DEFAULT_BUFFER_SIZE: u32 = 16777216;

/// Read timeout of a default configuration, in milliseconds.
pub const DEFAULT_TIMEOUT_MILLIS: u64 = 100;

/// What a [`Config`] holds.
pub struct ConfigView {
    pub max_packets_read: usize,
    pub snaplen: u32,
    pub buffer_size: u32,
    pub timeout: u64,
    pub bpf: Option<String>,
}

/// Options of a capture: the batch ceiling, the snapshot length, the size of
/// the capture buffer, the read timeout in milliseconds and an optional
/// filter expression.
#[derive(Clone, Debug, PartialEq, Eq)]
pub struct Config {
    max_packets_read: usize,
    snaplen: u32,
    buffer_size: u32,
    timeout: u64,
    bpf: Option<String>,
}

impl View for Config {
    type V = ConfigView;

    closed spec fn view(&self) -> ConfigView {
        ConfigView {
            max_packets_read: self.max_packets_read,
            snaplen: self.snaplen,
            buffer_size: self.buffer_size,
            timeout: self.timeout,
            bpf: self.bpf,
        }
    }
}

impl Config {
    /// A configuration from all of its options.
    pub fn new(
        max_packets_read: usize,
        snaplen: u32,
        buffer_size: u32,
        timeout: u64,
        bpf: Option<String>,
    ) -> (c: Config)
        ensures
            c@ == (ConfigView { max_packets_read, snaplen, buffer_size, timeout, bpf }),
    {
        Config { max_packets_read, snaplen, buffer_size, timeout, bpf }
    }

    /// Most packets that one batch may hold.
    pub fn max_packets_read(&self) -> (n: usize)
        ensures
            n == self@.max_packets_read,
    {
        self.max_packets_read
    }

    /// Sets the batch ceiling and leaves the rest as it was. The configuration
    /// is handed back, so that settings can be chained.
    pub fn with_max_packets_read(&mut self, amt: usize) -> (r: &mut Config)
        ensures
            r@ == (ConfigView { max_packets_read: amt, ..old(self)@ }),
            *final(self) == *final(r),
    {
        self.max_packets_read = amt;
        self
    }

    /// Most bytes captured of one packet.
    pub fn snaplen(&self) -> (n: u32)
        ensures
            n == self@.snaplen,
    {
        self.snaplen
    }

    /// Sets the snapshot length and leaves the rest as it was.
    pub fn with_snaplen(&mut self, amt: u32) -> (r: &mut Config)
        ensures
            r@ == (ConfigView { snaplen: amt, ..old(self)@ }),
            *final(self) == *final(r),
    {
        self.snaplen = amt;
        self
    }

    /// Size of the capture buffer, in bytes.
    pub fn buffer_size(&self) -> (n: u32)
        ensures
            n == self@.buffer_size,
    {
        self.buffer_size
    }

    /// Sets the size of the capture buffer and leaves the rest as it was.
    pub fn with_buffer_size(&mut self, amt: u32) -> (r: &mut Config)
        ensures
            r@ == (ConfigView { buffer_size: amt, ..old(self)@ }),
            *final(self) == *final(r),
    {
        self.buffer_size = amt;
        self
    }

    /// Read timeout of the session, in milliseconds.
    pub fn timeout(&self) -> (n: u64)
        ensures
            n == self@.timeout,
    {
        self.timeout
    }

    /// Sets the read timeout and leaves the rest as it was.
    pub fn with_timeout(&mut self, millis: u64) -> (r: &mut Config)
        ensures
            r@ == (ConfigView { timeout: millis, ..old(self)@ }),
            *final(self) == *final(r),
    {
        self.timeout = millis;
        self
    }

    /// The filter expression, if one is set.
    pub fn bpf(&self) -> (f: &Option<String>)
        ensures
            *f == self@.bpf,
    {
        &self.bpf
    }

    /// Sets the filter expression and leaves the rest as it was.
    pub fn with_bpf(&mut self, expr: String) -> (r: &mut Config)
        ensures
            r@ == (ConfigView { bpf: Some(expr), ..old(self)@ }),
            *final(self) == *final(r),
    {
        self.bpf = Some(expr);
        self
    }
}

impl Default for Config {
    /// A batch ceiling of 1000 packets, whole packets of up to 65535 bytes, a
    /// buffer of 16 MiB, a timeout of 100 ms and no filter.
    fn default() -> (c: Config)
        ensures
            c@ == (ConfigView {
                max_packets_read: DEFAULT_MAX_PACKETS_READ,
                snaplen: DEFAULT_SNAPLEN,
                buffer_size: DEFAULT_BUFFER_SIZE,
                timeout: DEFAULT_TIMEOUT_MILLIS,
                bpf: None,
            }),
    {
        Config {
            max_packets_read: DEFAULT_MAX_PACKETS_READ,
            snaplen: DEFAULT_SNAPLEN,
            buffer_size: DEFAULT_BUFFER_SIZE,
            timeout: DEFAULT_TIMEOUT_MILLIS,
            bpf: None,
        }
    }
}

} // verus!
