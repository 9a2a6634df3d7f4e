//! The trusted boundary to the external header codec (etherparse).
//!
//! Parsing and serialization of raw IPv4 and TCP headers are not
//! reimplemented here: each call is wrapped once, and what the engine may
//! assume of it is stated over named results. A parse outcome and an
//! encoded frame are functions of the input bytes alone, so each carries
//! an uninterpreted name that the contracts of the callers speak of.

use crate::segment::{IpHeaderInfo, ReplySegment, TcpHeaderInfo};
use vstd::prelude::*;

verus! {

/// What `etherparse::Ipv4HeaderSlice::from_slice` yields on these bytes,
/// reduced to the fields the engine reads: `None` when the bytes do not
/// begin with a well-formed IPv4 header, otherwise the addresses, the
/// protocol number and the encoded header length.
pub uninterp spec fn ipv4_parse(b: Seq<u8>) -> Option<IpHeaderInfo>;

/// What `etherparse::TcpHeaderSlice::from_slice` yields on these bytes,
/// reduced to the fields the engine reads.
pub uninterp spec fn tcp_parse(b: Seq<u8>) -> Option<TcpHeaderInfo>;

/// The bytes of the IPv4 frame that carries a given reply segment, as the
/// external codec lays them out.
pub uninterp spec fn reply_frame_bytes(r: ReplySegment) -> Seq<u8>;

/// Relies on `etherparse::Ipv4HeaderSlice::from_slice` and its accessors
/// `source`, `destination`, `protocol` and `slice`: the outcome depends on
/// the bytes alone, and the header slice it hands back is a prefix of the
/// input, so its length never exceeds the input's.
#[verifier::external_body]
pub(crate) fn parse_ipv4(buf: &[u8]) -> (r: Option<IpHeaderInfo>)
    ensures
        r == ipv4_parse(buf@),
        r matches Some(h) ==> h.header_len <= buf@.len(),
{
    match etherparse::Ipv4HeaderSlice::from_slice(buf) {
        Ok(h) => Some(IpHeaderInfo {
            src_addr: u32::from_be_bytes(h.source()),
            dst_addr: u32::from_be_bytes(h.destination()),
            protocol: h.protocol().0,
            header_len: h.slice().len(),
        }),
        Err(_) => None,
    }
}

/// Relies on `etherparse::TcpHeaderSlice::from_slice` and its accessors
/// `source_port`, `destination_port`, `sequence_number`,
/// `acknowledgment_number`, `window_size`, `syn`, `ack` and `slice`: the
/// outcome depends on the bytes alone, and the header slice it hands back
/// is a prefix of the input, so its length never exceeds the input's.
#[verifier::external_body]
pub(crate) fn parse_tcp(buf: &[u8]) -> (r: Option<TcpHeaderInfo>)
    ensures
        r == tcp_parse(buf@),
        r matches Some(h) ==> h.header_len <= buf@.len(),
{
    match etherparse::TcpHeaderSlice::from_slice(buf) {
        Ok(h) => Some(TcpHeaderInfo {
            src_port: h.source_port(),
            dst_port: h.destination_port(),
            seq: h.sequence_number(),
            ack: h.acknowledgment_number(),
            wnd: h.window_size(),
            syn: h.syn(),
            ack_flag: h.ack(),
            header_len: h.slice().len(),
        }),
        Err(_) => None,
    }
}

/// Relies on `etherparse::TcpHeader::new`/`write` and
/// `etherparse::Ipv4Header::new`/`write`: the encoded frame is a function
/// of the header fields alone.
#[verifier::external_body]
pub(crate) fn encode_reply(r: &ReplySegment) -> (out: Vec<u8>)
    ensures
        out@ == reply_frame_bytes(*r),
{
    let mut tcp = etherparse::TcpHeader::new(r.src_port, r.dst_port, r.seq, r.wnd);
    tcp.acknowledgment_number = r.ack;
    tcp.syn = r.syn;
    tcp.ack = r.ack_flag;
    let src = r.src_addr.to_be_bytes();
    let dst = r.dst_addr.to_be_bytes();
    let len = tcp.header_len_u16();
    let ip = etherparse::Ipv4Header::new(len, r.ttl, etherparse::IpNumber::TCP, src, dst);
    let ip = match ip { Ok(h) => h, Err(_) => return Vec::new() };
    let mut out: Vec<u8> = Vec::new();
    let _ = ip.write(&mut out);
    let _ = tcp.write(&mut out);
    out
}

} // verus!
