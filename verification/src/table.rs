//! The connection table and dispatcher: routes each inbound, successfully
//! parsed TCP segment to the correct per-flow state, creating new flows on
//! demand (passive open) and discarding everything else as a defined no-op.

use crate::codec::{encode_reply, ipv4_parse, parse_ipv4, parse_tcp, reply_frame_bytes, tcp_parse};
use crate::conn::{accepted_connection, stepped, syn_ack_reply, Connection};
use crate::segment::{quad_of, IpHeaderInfo, Quad, ReplySegment, TcpHeaderInfo};
use vstd::prelude::*;
use vstd::slice::slice_subrange;

verus! {

/// The IPv4 protocol number of TCP.
pub const TCP_PROTOCOL: u8 = 6;

/// The entries hold pairwise distinct flow keys.
pub open spec fn unique_quads(s: Seq<(Quad, Connection)>) -> bool {
    forall|i: int, j: int| 0 <= i < j < s.len() ==> s[i].0 != s[j].0
}

/// Some entry holds this flow key.
pub open spec fn has_quad(s: Seq<(Quad, Connection)>, q: Quad) -> bool {
    exists|i: int| 0 <= i < s.len() && s[i].0 == q
}

/// The mapping an entry sequence denotes: later entries win, which is
/// immaterial once the keys are unique.
pub open spec fn map_of(s: Seq<(Quad, Connection)>) -> Map<Quad, Connection>
    decreases s.len(),
{
    if s.len() == 0 {
        Map::empty()
    } else {
        map_of(s.drop_last()).insert(s.last().0, s.last().1)
    }
}

proof fn lemma_map_of_has(s: Seq<(Quad, Connection)>, q: Quad)
    ensures
        map_of(s).contains_key(q) <==> has_quad(s, q),
    decreases s.len(),
{
    if s.len() > 0 {
        lemma_map_of_has(s.drop_last(), q);
        if s.last().0 == q {
            assert(has_quad(s, q)) by {
                assert(s[s.len() - 1].0 == q);
            }
        } else if map_of(s).contains_key(q) {
            let i = choose|i: int| 0 <= i < s.drop_last().len() && s.drop_last()[i].0 == q;
            assert(s[i].0 == q);
        } else if has_quad(s, q) {
            let i = choose|i: int| 0 <= i < s.len() && s[i].0 == q;
            assert(i < s.len() - 1 && s.drop_last()[i].0 == q);
        }
    }
}

proof fn lemma_map_of_at(s: Seq<(Quad, Connection)>, i: int)
    requires
        unique_quads(s),
        0 <= i < s.len(),
    ensures
        map_of(s).contains_key(s[i].0),
        map_of(s)[s[i].0] == s[i].1,
    decreases s.len(),
{
    if i < s.len() - 1 {
        assert(s.drop_last()[i] == s[i]);
        lemma_map_of_at(s.drop_last(), i);
        assert(s.last().0 != s[i].0);
    }
}

proof fn lemma_map_of_push(s: Seq<(Quad, Connection)>, q: Quad, c: Connection)
    ensures
        map_of(s.push((q, c))) == map_of(s).insert(q, c),
{
    let t = s.push((q, c));
    assert(t.drop_last() =~= s);
    assert(t.last() == (q, c));
}

proof fn lemma_map_of_update(s: Seq<(Quad, Connection)>, i: int, c: Connection)
    requires
        unique_quads(s),
        0 <= i < s.len(),
    ensures
        map_of(s.update(i, (s[i].0, c))) == map_of(s).insert(s[i].0, c),
    decreases s.len(),
{
    let q = s[i].0;
    let t = s.update(i, (q, c));
    if i == s.len() - 1 {
        assert(t.drop_last() =~= s.drop_last());
        assert(map_of(t) == map_of(s.drop_last()).insert(q, c));
        assert(map_of(s.drop_last()).insert(s.last().0, s.last().1).insert(q, c) =~= map_of(
            s.drop_last(),
        ).insert(q, c));
    } else {
        assert(t.drop_last() =~= s.drop_last().update(i, (q, c)));
        assert(s.drop_last()[i] == s[i]);
        lemma_map_of_update(s.drop_last(), i, c);
        assert(t.last() == s.last());
        // The two inserted keys differ, so the inserts commute.
        assert(s.last().0 != q);
        assert(map_of(s.drop_last()).insert(q, c).insert(s.last().0, s.last().1) =~= map_of(
            s.drop_last(),
        ).insert(s.last().0, s.last().1).insert(q, c));
    }
}

proof fn lemma_map_of_len(s: Seq<(Quad, Connection)>)
    requires
        unique_quads(s),
    ensures
        map_of(s).dom().finite(),
        map_of(s).len() == s.len(),
    decreases s.len(),
{
    broadcast use vstd::set::group_set_axioms, vstd::map::group_map_axioms;

    if s.len() > 0 {
        lemma_map_of_len(s.drop_last());
        lemma_map_of_has(s.drop_last(), s.last().0);
        // The last key is fresh: any earlier entry holding it would break
        // uniqueness.
        assert(!has_quad(s.drop_last(), s.last().0)) by {
            if has_quad(s.drop_last(), s.last().0) {
                let i = choose|i: int|
                    0 <= i < s.drop_last().len() && s.drop_last()[i].0 == s.last().0;
                assert(s[i].0 == s[s.len() - 1].0);
            }
        }
    }
}

/// What one parsed TCP segment does to the table: step the owning
/// connection if the flow is known; attempt a passive open if it is not,
/// which succeeds exactly on a SYN; drop anything else unchanged.
pub open spec fn segment_outcome(
    t: Map<Quad, Connection>,
    ip_h: IpHeaderInfo,
    tcp_h: TcpHeaderInfo,
) -> (Map<Quad, Connection>, Option<ReplySegment>) {
    let q = quad_of(ip_h, tcp_h);
    if t.contains_key(q) {
        (t.insert(q, stepped(t[q], tcp_h.ack)), None)
    } else if tcp_h.syn {
        (t.insert(q, accepted_connection(ip_h, tcp_h)), Some(syn_ack_reply(ip_h, tcp_h)))
    } else {
        (t, None)
    }
}

/// What one raw IPv4 frame does to the table: a frame that does not parse
/// as IPv4, does not carry TCP, or whose TCP header does not parse is
/// discarded with the table unchanged and nothing sent; otherwise the
/// segment outcome, with the reply encoded to bytes.
pub open spec fn frame_outcome(t: Map<Quad, Connection>, b: Seq<u8>) -> (
    Map<Quad, Connection>,
    Option<Seq<u8>>,
) {
    match ipv4_parse(b) {
        Option::None => (t, Option::None),
        Option::Some(ip_h) => {
            if ip_h.protocol != TCP_PROTOCOL {
                (t, Option::None)
            } else {
                match tcp_parse(b.subrange(ip_h.header_len as int, b.len() as int)) {
                    Option::None => (t, Option::None),
                    Option::Some(tcp_h) => {
                        let r = segment_outcome(t, ip_h, tcp_h);
                        (
                            r.0,
                            match r.1 {
                                Option::None => Option::None,
                                Option::Some(rep) => Option::Some(reply_frame_bytes(rep)),
                            },
                        )
                    },
                }
            }
        },
    }
}

/// A frame fails to decode when its bytes do not form an IPv4 header, or
/// announce TCP but do not go on with a TCP header. Per the error-handling
/// policy this is the one case that deserves a diagnostic; every other
/// rejection is a defined no-op of the protocol.
pub open spec fn frame_decode_failed(b: Seq<u8>) -> bool {
    match ipv4_parse(b) {
        Option::None => true,
        Option::Some(ip_h) => ip_h.protocol == TCP_PROTOCOL && tcp_parse(
            b.subrange(ip_h.header_len as int, b.len() as int),
        ) is None,
    }
}

/// What became of one inbound frame: the dispatcher's only observable
/// besides the table itself.
#[derive(Debug)]
pub enum FrameDisposition {
    /// The frame was routed and this reply frame must be written back.
    Reply(Vec<u8>),
    /// The frame was handled, or rejected as a defined no-op; nothing is
    /// sent and nothing is worth reporting.
    Silent,
    /// The frame failed to decode and was dropped; worth a diagnostic.
    Discarded,
}

/// Law: a segment that is not a SYN, arriving for a flow the table does not
/// know, changes nothing and is answered by nothing.
pub proof fn lemma_non_syn_unknown_is_noop(
    t: Map<Quad, Connection>,
    ip_h: IpHeaderInfo,
    tcp_h: TcpHeaderInfo,
)
    requires
        !t.contains_key(quad_of(ip_h, tcp_h)),
        !tcp_h.syn,
    ensures
        segment_outcome(t, ip_h, tcp_h) == (t, Option::<ReplySegment>::None),
{
}

/// Law: a frame that fails to decode is dropped with the table unchanged
/// and nothing sent, however often it is fed: the outcome is a function of
/// the table and the bytes alone, so the same malformed bytes meet the
/// same fate every time.
pub proof fn lemma_malformed_frame_is_discarded(t: Map<Quad, Connection>, b: Seq<u8>)
    requires
        frame_decode_failed(b),
    ensures
        frame_outcome(t, b) == (t, Option::<Seq<u8>>::None),
{
}

/// Mapping from flow key to connection state: unique keys, no ordering.
/// Owned by the dispatch loop; entries are inserted on the first valid SYN
/// per flow and looked up on every later frame for that flow.
pub struct ConnectionTable {
    entries: Vec<(Quad, Connection)>,
}

impl View for ConnectionTable {
    type V = Map<Quad, Connection>;

    closed spec fn view(&self) -> Map<Quad, Connection> {
        map_of(self.entries@)
    }
}

impl ConnectionTable {
    /// Keys are pairwise distinct and every held connection is well formed.
    pub closed spec fn wf(&self) -> bool {
        unique_quads(self.entries@) && (forall|i: int|
            0 <= i < self.entries@.len() ==> self.entries@[i].1.well_formed())
    }

    /// An empty table: the conceptual listen state for every flow.
    pub fn new() -> (t: ConnectionTable)
        ensures
            t.wf(),
            t@ == Map::<Quad, Connection>::empty(),
    {
        ConnectionTable { entries: Vec::new() }
    }

    /// How many flows the table holds.
    pub fn len(&self) -> (n: usize)
        requires
            self.wf(),
        ensures
            n == self@.len(),
    {
        proof {
            lemma_map_of_len(self.entries@);
        }
        self.entries.len()
    }

    /// The index of the entry holding this flow key, if one does.
    fn find_index(&self, q: &Quad) -> (r: Option<usize>)
        ensures
            r matches Some(i) ==> i < self.entries@.len() && self.entries@[i as int].0 == *q,
            r is None ==> !has_quad(self.entries@, *q),
    {
        let n = self.entries.len();
        let mut i: usize = 0;
        while i < n
            invariant
                n == self.entries@.len(),
                i <= n,
                forall|k: int| 0 <= k < i ==> self.entries@[k].0 != *q,
            decreases n - i,
        {
            if self.entries[i].0 == *q {
                return Some(i);
            }
            i = i + 1;
        }
        None
    }

    /// Whether the table holds an entry for this flow key.
    pub fn contains(&self, q: &Quad) -> (r: bool)
        ensures
            r == self@.contains_key(*q),
    {
        proof {
            lemma_map_of_has(self.entries@, *q);
        }
        match self.find_index(q) {
            Some(_) => true,
            None => false,
        }
    }

    /// The connection state held for this flow key, if any.
    pub fn get(&self, q: &Quad) -> (r: Option<&Connection>)
        requires
            self.wf(),
        ensures
            self@.contains_key(*q) ==> (r matches Some(c) && *c == self@[*q]),
            !self@.contains_key(*q) ==> r is None,
    {
        proof {
            lemma_map_of_has(self.entries@, *q);
        }
        match self.find_index(q) {
            Some(i) => {
                proof {
                    lemma_map_of_at(self.entries@, i as int);
                }
                Some(&self.entries[i].1)
            },
            None => None,
        }
    }

    /// Route one parsed segment: forward it to the owning connection if the
    /// flow key is known, otherwise attempt a passive open and insert the
    /// new connection only if it succeeds. A failed attempt is silently
    /// dropped; no entry is created, no error surfaces past this layer.
    pub fn process_segment(
        &mut self,
        ip_h: &IpHeaderInfo,
        tcp_h: &TcpHeaderInfo,
        data: &[u8],
    ) -> (reply: Option<ReplySegment>)
        requires
            old(self).wf(),
        ensures
            final(self).wf(),
            final(self)@ == segment_outcome(old(self)@, *ip_h, *tcp_h).0,
            reply == segment_outcome(old(self)@, *ip_h, *tcp_h).1,
    {
        let q = Quad {
            src_addr: ip_h.src_addr,
            src_port: tcp_h.src_port,
            dst_addr: ip_h.dst_addr,
            dst_port: tcp_h.dst_port,
        };
        proof {
            lemma_map_of_has(self.entries@, q);
        }
        match self.find_index(&q) {
            Some(i) => {
                proof {
                    lemma_map_of_at(self.entries@, i as int);
                    lemma_map_of_update(self.entries@, i as int, stepped(self.entries@[i as int].1, tcp_h.ack));
                }
                let mut c = self.entries[i].1;
                c.on_packet(tcp_h, data);
                self.entries[i] = (q, c);
                None
            },
            None => {
                match Connection::accept(ip_h, tcp_h, data) {
                    Some(pair) => {
                        proof {
                            lemma_map_of_push(self.entries@, q, pair.0);
                        }
                        self.entries.push((q, pair.0));
                        Some(pair.1)
                    },
                    None => None,
                }
            },
        }
    }

    /// Dispatch one raw IPv4 frame: parse the headers through the external
    /// codec, discard what is not a TCP-in-IPv4 packet, route the segment,
    /// and say what became of the frame. Only a decode failure counts as
    /// `Discarded`, the outcome that deserves a diagnostic; a frame of
    /// another protocol, or one that simply needs no answer, is `Silent`.
    pub fn handle_frame(&mut self, buf: &[u8]) -> (r: FrameDisposition)
        requires
            old(self).wf(),
        ensures
            final(self).wf(),
            final(self)@ == frame_outcome(old(self)@, buf@).0,
            (match r {
                FrameDisposition::Reply(v) => Some(v@),
                FrameDisposition::Silent => None,
                FrameDisposition::Discarded => None,
            }) == frame_outcome(old(self)@, buf@).1,
            r is Discarded <==> frame_decode_failed(buf@),
    {
        let ip_h = match parse_ipv4(buf) {
            Some(h) => h,
            None => {
                return FrameDisposition::Discarded;
            },
        };
        if ip_h.protocol != TCP_PROTOCOL {
            return FrameDisposition::Silent;
        }
        let rest = slice_subrange(buf, ip_h.header_len, buf.len());
        let tcp_h = match parse_tcp(rest) {
            Some(h) => h,
            None => {
                return FrameDisposition::Discarded;
            },
        };
        let data = slice_subrange(rest, tcp_h.header_len, rest.len());
        match self.process_segment(&ip_h, &tcp_h, data) {
            Some(rep) => FrameDisposition::Reply(encode_reply(&rep)),
            None => FrameDisposition::Silent,
        }
    }

    /// Dispatch a frame from an interface that prepends four bytes of link
    /// metadata: two flag bytes, then a big-endian upper-layer protocol
    /// identifier, which is 0x0800 for IPv4. A frame shorter than the
    /// prefix, or carrying another protocol, is a defined no-op, not a
    /// decode failure.
    pub fn handle_prefixed_frame(&mut self, buf: &[u8]) -> (r: FrameDisposition)
        requires
            old(self).wf(),
        ensures
            final(self).wf(),
            buf@.len() < 4 || buf@[2] != 0x08 || buf@[3] != 0x00 ==> *final(self) == *old(self)
                && r is Silent,
            buf@.len() >= 4 && buf@[2] == 0x08 && buf@[3] == 0x00 ==> final(self)@ == frame_outcome(
                old(self)@,
                buf@.subrange(4, buf@.len() as int),
            ).0 && (match r {
                FrameDisposition::Reply(v) => Some(v@),
                FrameDisposition::Silent => None,
                FrameDisposition::Discarded => None,
            }) == frame_outcome(old(self)@, buf@.subrange(4, buf@.len() as int)).1 && (r
                is Discarded <==> frame_decode_failed(buf@.subrange(4, buf@.len() as int))),
    {
        if buf.len() < 4 {
            return FrameDisposition::Silent;
        }
        if !(buf[2] == 0x08 && buf[3] == 0x00) {
            return FrameDisposition::Silent;
        }
        let inner = slice_subrange(buf, 4, buf.len());
        self.handle_frame(inner)
    }
}

} // verus!
