//! The per-flow TCP engine: connection state, passive open, and segment
//! processing (RFC 793 S3.2).

use crate::segment::{IpHeaderInfo, ReplySegment, TcpHeaderInfo};
use crate::seqnum::{
    is_acceptable_ack, lemma_wrapping_lt_forward, seq_add, seq_le, spec_acceptable_ack,
    wrapping_add,
};
use vstd::prelude::*;

verus! {

/// Initial send sequence number chosen at passive open. A fixed value is a
/// known sequence-prediction weakness; a production stack must draw it from
/// an unpredictable per-flow source.
pub const INITIAL_SEND_SEQ: u32 = 0;

/// The receive window this endpoint advertises to its peers.
pub const LOCAL_WINDOW: u16 = 1024;

/// Time-to-live of the frames this endpoint sends.
pub const REPLY_TTL: u8 = 64;

/// The TCP state machine (RFC 793 S3.2). Only the subset a passive open can
/// reach is modeled: a connection is materialized already in `SynReceived`,
/// and the conceptual `Closed`/`Listen` predecessors are represented by the
/// flow's absence from the connection table.
#[derive(Clone, Copy, Debug, PartialEq, Eq, Structural)]
pub enum State {
    SynReceived,
    Established,
}

/// State of the send sequence space (RFC 793 S3.2 Fig 4): this endpoint's
/// outgoing byte stream.
#[derive(Clone, Copy, Debug, PartialEq, Eq, Structural)]
pub struct SendSequenceSpace {
    /// Send unacknowledged: oldest sequence number not yet acknowledged.
    pub una: u32,
    /// Send next: next sequence number to send.
    pub nxt: u32,
    /// Send window: the window the peer last advertised.
    pub wnd: u16,
    /// Send urgent flag (stored, unused in this subset).
    pub up: bool,
    /// Segment sequence number used for the last window update.
    pub wl1: usize,
    /// Segment acknowledgment number used for the last window update.
    pub wl2: usize,
    /// Initial send sequence number.
    pub iss: u32,
}

/// State of the receive sequence space (RFC 793 S3.2 Fig 5): the peer's
/// incoming byte stream.
#[derive(Clone, Copy, Debug, PartialEq, Eq, Structural)]
pub struct RecvSequenceSpace {
    /// Receive next: next sequence number expected from the peer.
    pub nxt: u32,
    /// Receive window: the window this endpoint advertises.
    pub wnd: u16,
    /// Receive urgent flag (stored, unused in this subset).
    pub up: bool,
    /// Initial receive sequence number, taken from the peer's SYN.
    pub irs: u32,
}

/// An end-to-end TCP connection: one send space, one receive space, the
/// current state, and the addresses needed to rebuild outgoing frames.
#[derive(Clone, Copy, Debug, PartialEq, Eq, Structural)]
pub struct Connection {
    pub state: State,
    pub send: SendSequenceSpace,
    pub recv: RecvSequenceSpace,
    /// Source address of the frames this connection sends, big-endian.
    pub ip_src: u32,
    /// Destination address of the frames this connection sends, big-endian.
    pub ip_dst: u32,
}

/// The connection a passive open creates on a SYN: both sides' SYNs each
/// consume one sequence number, so `send.nxt` and `recv.nxt` start one past
/// the respective initial numbers; outgoing frames are addressed back to the
/// segment's source.
pub open spec fn accepted_connection(ip_h: IpHeaderInfo, tcp_h: TcpHeaderInfo) -> Connection {
    Connection {
        state: State::SynReceived,
        send: SendSequenceSpace {
            una: INITIAL_SEND_SEQ,
            nxt: seq_add(INITIAL_SEND_SEQ, 1),
            wnd: LOCAL_WINDOW,
            up: false,
            wl1: 0,
            wl2: 0,
            iss: INITIAL_SEND_SEQ,
        },
        recv: RecvSequenceSpace {
            nxt: seq_add(tcp_h.seq, 1),
            wnd: tcp_h.wnd,
            up: false,
            irs: tcp_h.seq,
        },
        ip_src: ip_h.dst_addr,
        ip_dst: ip_h.src_addr,
    }
}

/// The SYN/ACK that answers a SYN: ports swapped, sequence number `iss`,
/// acknowledgment number `recv.nxt`, this endpoint's window, addressed from
/// the original destination back to the original source.
pub open spec fn syn_ack_reply(ip_h: IpHeaderInfo, tcp_h: TcpHeaderInfo) -> ReplySegment {
    ReplySegment {
        src_addr: ip_h.dst_addr,
        dst_addr: ip_h.src_addr,
        ttl: REPLY_TTL,
        src_port: tcp_h.dst_port,
        dst_port: tcp_h.src_port,
        seq: INITIAL_SEND_SEQ,
        ack: seq_add(tcp_h.seq, 1),
        wnd: LOCAL_WINDOW,
        syn: true,
        ack_flag: true,
    }
}

/// One step of the state machine on an already-accepted flow: a segment
/// whose acknowledgment fails the acceptability test is discarded and the
/// connection is untouched; an acceptable one completes the handshake when
/// the connection is still in `SynReceived`, and otherwise changes nothing.
pub open spec fn stepped(c: Connection, ack: u32) -> Connection {
    if spec_acceptable_ack(c.send.una, c.send.nxt, ack) {
        match c.state {
            State::SynReceived => Connection { state: State::Established, ..c },
            State::Established => c,
        }
    } else {
        c
    }
}

impl Connection {
    /// The send space is consistent: `una` never passes `nxt` on the
    /// sequence-number circle.
    pub open spec fn well_formed(self) -> bool {
        seq_le(self.send.una, self.send.nxt)
    }

    /// Passive open (RFC 793): answer an inbound SYN with a SYN/ACK and a
    /// fresh connection in `SynReceived`. Any other segment for an unknown
    /// flow creates nothing and emits nothing; that is a defined no-op, not
    /// an error. The payload is ignored: a SYN carries no enqueued data in
    /// this subset.
    pub fn accept(ip_h: &IpHeaderInfo, tcp_h: &TcpHeaderInfo, _data: &[u8]) -> (r: Option<
        (Connection, ReplySegment),
    >)
        ensures
            tcp_h.syn ==> r == Some(
                (accepted_connection(*ip_h, *tcp_h), syn_ack_reply(*ip_h, *tcp_h)),
            ),
            !tcp_h.syn ==> r is None,
            r matches Some(p) ==> p.0.well_formed(),
    {
        if !tcp_h.syn {
            return None;
        }
        let rcv_nxt = wrapping_add(tcp_h.seq, 1);
        let conn = Connection {
            state: State::SynReceived,
            send: SendSequenceSpace {
                una: INITIAL_SEND_SEQ,
                nxt: wrapping_add(INITIAL_SEND_SEQ, 1),
                wnd: LOCAL_WINDOW,
                up: false,
                wl1: 0,
                wl2: 0,
                iss: INITIAL_SEND_SEQ,
            },
            recv: RecvSequenceSpace { nxt: rcv_nxt, wnd: tcp_h.wnd, up: false, irs: tcp_h.seq },
            ip_src: ip_h.dst_addr,
            ip_dst: ip_h.src_addr,
        };
        let reply = ReplySegment {
            src_addr: ip_h.dst_addr,
            dst_addr: ip_h.src_addr,
            ttl: REPLY_TTL,
            src_port: tcp_h.dst_port,
            dst_port: tcp_h.src_port,
            seq: INITIAL_SEND_SEQ,
            ack: rcv_nxt,
            wnd: LOCAL_WINDOW,
            syn: true,
            ack_flag: true,
        };
        proof {
            lemma_wrapping_lt_forward(INITIAL_SEND_SEQ, 1);
        }
        Some((conn, reply))
    }

    /// Advance the state machine on a subsequent segment of this flow
    /// (RFC 793 S3.3): first the acceptability test on the acknowledgment
    /// number; a failing segment is discarded with no state change and no
    /// reply. An acceptable acknowledgment completes the handshake in
    /// `SynReceived`; in `Established` the segment is accepted and the
    /// sequence spaces are left intact. No reply is synthesized in this
    /// subset. The payload is not consumed.
    pub fn on_packet(&mut self, tcp_h: &TcpHeaderInfo, _data: &[u8])
        requires
            old(self).well_formed(),
        ensures
            *final(self) == stepped(*old(self), tcp_h.ack),
            final(self).well_formed(),
    {
        let acceptable = is_acceptable_ack(self.send.una, self.send.nxt, tcp_h.ack);
        if !acceptable {
            return;
        }
        match self.state {
            State::SynReceived => {
                // The acceptable acknowledgment covers our SYN: the
                // handshake is complete.
                self.state = State::Established;
            },
            State::Established => {
                // Payload, window updates and further control flags are
                // outside this subset; an accepted segment must not disturb
                // the sequence spaces.
            },
        }
    }
}

/// Law: a connection in `SynReceived` that receives an acceptable
/// acknowledgment transitions to `Established` with both sequence spaces
/// unchanged; an unacceptable one leaves the connection exactly as it was.
pub proof fn lemma_syn_received_transition(c: Connection, ack: u32)
    requires
        c.state == State::SynReceived,
    ensures
        spec_acceptable_ack(c.send.una, c.send.nxt, ack) ==> stepped(c, ack) == (Connection {
            state: State::Established,
            ..c
        }),
        !spec_acceptable_ack(c.send.una, c.send.nxt, ack) ==> stepped(c, ack) == c,
{
}

} // verus!
