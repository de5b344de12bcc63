use vstd::prelude::*;

verus! {

/// Number of SYN-ACK rounds a handshake attempt makes before it gives up.
pub const HANDSHAKE_RETRIES: usize = 3;

/// Seconds an attempt waits for the final ACK after each SYN-ACK.
pub const HANDSHAKE_TIMEOUT_SECS: u64 = 5;

/// Window advertised in every outgoing SYN-ACK.
pub const SYN_ACK_WINDOW: u16 = 1024;

/// Maximum segment size assumed when the peer sends no MSS option.
pub const FALLBACK_MSS: usize = 536;

/// Window scale assumed when the peer sends no window-scale option.
pub const DEFAULT_WINDOW_SCALE: u8 = 1;

/// One side of a connection: an IPv4 address and a port.
#[derive(Clone, Copy, Debug, PartialEq, Eq, Structural, Hash)]
pub struct Endpoint {
    pub addr: u32,
    pub port: u16,
}

impl Endpoint {
    /// The key under which tables and sets file this endpoint.
    pub open spec fn key(&self) -> (u32, u16) {
        (self.addr, self.port)
    }

    pub fn new(addr: u32, port: u16) -> (r: Endpoint)
        ensures
            r.addr == addr,
            r.port == port,
    {
        Endpoint { addr, port }
    }

    pub fn to_key(&self) -> (r: (u32, u16))
        ensures
            r == self.key(),
    {
        (self.addr, self.port)
    }
}

/// Adding one in the 32-bit sequence space.
pub open spec fn seq_next(n: u32) -> u32 {
    ((n + 1) % 0x1_0000_0000) as u32
}

pub fn seq_successor(n: u32) -> (r: u32)
    ensures
        r == seq_next(n),
{
    n.wrapping_add(1)
}

/// Why a segment was turned away as malformed.
#[derive(Clone, Copy, Debug, PartialEq, Eq, Structural)]
pub enum Malformed {
    /// A segment for an in-flight attempt came without the ACK flag.
    ExpectedAck,
    /// The ACK for an in-flight attempt does not confirm its SYN-ACK.
    InvalidAckNumber,
    /// A segment that would open a connection is not a bare SYN.
    InvalidFlags,
}

/// The failures of the passive open.
#[derive(Clone, Copy, Debug, PartialEq, Eq, Structural)]
pub enum Fail {
    Malformed { details: Malformed },
    /// The backlog is full.
    ConnectionRefused,
    /// Every SYN-ACK round passed without a confirming ACK.
    Timeout,
}

/// The fields of an IPv4 header that the passive open reads.
#[derive(Clone, Copy, Debug, PartialEq, Eq, Structural)]
pub struct Ipv4Header {
    pub src_addr: u32,
    pub dst_addr: u32,
}

/// A TCP option as the header parser hands it over.
#[derive(Clone, Copy, Debug, PartialEq, Eq, Structural)]
pub enum TcpOption {
    NoOperation,
    MaximumSegmentSize(u16),
    WindowScale(u8),
    SelectiveAcknowledgementPermitted,
    Timestamp { sender: u32, echo: u32 },
}

/// A parsed TCP header.
#[derive(Clone, Debug)]
pub struct TcpHeader {
    pub src_port: u16,
    pub dst_port: u16,
    pub seq_num: u32,
    pub ack_num: u32,
    pub syn: bool,
    pub ack: bool,
    pub rst: bool,
    pub window_size: u16,
    pub options: Vec<TcpOption>,
}

impl TcpHeader {
    /// SYN set, ACK and RST clear.
    pub open spec fn is_bare_syn(&self) -> bool {
        self.syn && !self.ack && !self.rst
    }
}

/// Send-side state of an established connection.
#[derive(Clone, Copy, Debug, PartialEq, Eq, Structural)]
pub struct Sender {
    pub seq: u32,
    pub window_size: u32,
    pub window_scale: u8,
    pub mss: usize,
}

/// Receive-side state of an established connection.
#[derive(Clone, Copy, Debug, PartialEq, Eq, Structural)]
pub struct Receiver {
    pub seq: u32,
    pub window_size: u32,
}

/// A connection whose handshake has completed, ready to be accepted.
#[derive(Clone, Copy, Debug, PartialEq, Eq, Structural)]
pub struct ControlBlock {
    pub local: Endpoint,
    pub remote: Endpoint,
    pub sender: Sender,
    pub receiver: Receiver,
}

/// The outcome of a non-blocking poll.
#[derive(Clone, Copy, Debug, PartialEq, Eq, Structural)]
pub enum Poll<T> {
    Ready(T),
    Pending,
}

} // verus!
