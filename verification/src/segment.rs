//! Plain-value views of the headers the engine reads and writes.
//!
//! The external codec parses raw bytes into these records and encodes the
//! reply record back to bytes; the protocol logic itself only ever touches
//! the plain fields here. Addresses are carried as big-endian `u32` values.

use vstd::prelude::*;

verus! {

/// What the engine reads from a parsed IPv4 header.
#[derive(Clone, Copy, Debug, PartialEq, Eq, Structural)]
pub struct IpHeaderInfo {
    /// Source address, big-endian.
    pub src_addr: u32,
    /// Destination address, big-endian.
    pub dst_addr: u32,
    /// Upper-layer protocol number; TCP is 6.
    pub protocol: u8,
    /// Encoded length of this header in bytes; the next header starts here.
    pub header_len: usize,
}

/// What the engine reads from a parsed TCP header.
#[derive(Clone, Copy, Debug, PartialEq, Eq, Structural)]
pub struct TcpHeaderInfo {
    pub src_port: u16,
    pub dst_port: u16,
    /// Segment sequence number.
    pub seq: u32,
    /// Acknowledgment number.
    pub ack: u32,
    /// Window size advertised by the sender of this segment.
    pub wnd: u16,
    /// SYN control flag.
    pub syn: bool,
    /// ACK control flag.
    pub ack_flag: bool,
    /// Encoded length of this header in bytes; the payload starts here.
    pub header_len: usize,
}

/// Four-tuple identifying one TCP flow, recorded exactly as seen on the
/// wire. Immutable once constructed; used only as a lookup key.
#[derive(Clone, Copy, Debug, Hash, PartialEq, Eq, Structural)]
pub struct Quad {
    pub src_addr: u32,
    pub src_port: u16,
    pub dst_addr: u32,
    pub dst_port: u16,
}

/// Every field of a response segment the engine synthesizes: a TCP header
/// and the IPv4 header wrapped around it. The codec turns this into bytes.
#[derive(Clone, Copy, Debug, PartialEq, Eq, Structural)]
pub struct ReplySegment {
    /// Source address of the outgoing frame, big-endian.
    pub src_addr: u32,
    /// Destination address of the outgoing frame, big-endian.
    pub dst_addr: u32,
    /// Time-to-live of the outgoing frame.
    pub ttl: u8,
    pub src_port: u16,
    pub dst_port: u16,
    pub seq: u32,
    pub ack: u32,
    pub wnd: u16,
    pub syn: bool,
    pub ack_flag: bool,
}

/// The flow key of a segment as observed: addresses from the IP header,
/// ports from the TCP header, direction exactly as seen.
pub open spec fn quad_of(ip_h: IpHeaderInfo, tcp_h: TcpHeaderInfo) -> Quad {
    Quad {
        src_addr: ip_h.src_addr,
        src_port: tcp_h.src_port,
        dst_addr: ip_h.dst_addr,
        dst_port: tcp_h.dst_port,
    }
}

} // verus!
