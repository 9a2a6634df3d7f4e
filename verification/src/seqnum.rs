//! Sequence-space arithmetic: circular (modulo 2^32) ordering, so that
//! sequence numbers that wrap around zero still compare correctly
//! (RFC 793 S3.3).

use vstd::arithmetic::div_mod::{lemma_mod_add_multiples_vanish, lemma_small_mod};
use vstd::prelude::*;

verus! {

/// `a` comes strictly before `b` on the 32-bit sequence-number circle:
/// going backward from `a` to `b` is further than half the circle.
pub open spec fn seq_lt(a: u32, b: u32) -> bool {
    (a - b) % 0x1_0000_0000 > 0x8000_0000
}

/// `a` comes before `b` on the circle, or is `b` itself.
pub open spec fn seq_le(a: u32, b: u32) -> bool {
    seq_lt(a, b) || a == b
}

/// `a + n` on the sequence-number circle.
pub open spec fn seq_add(a: u32, n: u32) -> u32 {
    ((a + n) % 0x1_0000_0000) as u32
}

/// An acknowledgment number is acceptable exactly when it lies strictly
/// after `una` and not after `nxt`, on the circle:
/// `SND.UNA < SEG.ACK <= SND.NXT` (RFC 793 S3.3).
pub open spec fn spec_acceptable_ack(una: u32, nxt: u32, ack: u32) -> bool {
    seq_lt(una, ack) && seq_le(ack, nxt)
}

/// The wrapped difference `(a - b) mod 2^32`, written without `%`.
proof fn lemma_wrap_diff(a: u32, b: u32)
    ensures
        a >= b ==> (a - b) % 0x1_0000_0000 == a - b,
        a < b ==> (a - b) % 0x1_0000_0000 == a - b + 0x1_0000_0000,
{
    if a >= b {
        lemma_small_mod((a - b) as nat, 0x1_0000_0000nat);
    } else {
        lemma_mod_add_multiples_vanish(a - b, 0x1_0000_0000);
        lemma_small_mod((a - b + 0x1_0000_0000) as nat, 0x1_0000_0000nat);
    }
}

/// The wrapped sum `(a + n) mod 2^32`, written without `%`.
proof fn lemma_wrap_sum(a: u32, n: u32)
    ensures
        a + n < 0x1_0000_0000 ==> seq_add(a, n) == a + n,
        a + n >= 0x1_0000_0000 ==> seq_add(a, n) == a + n - 0x1_0000_0000,
{
    if a + n < 0x1_0000_0000 {
        lemma_small_mod((a + n) as nat, 0x1_0000_0000nat);
    } else {
        lemma_mod_add_multiples_vanish(a + n - 0x1_0000_0000, 0x1_0000_0000);
        lemma_small_mod((a + n - 0x1_0000_0000) as nat, 0x1_0000_0000nat);
    }
}

/// Law: stepping forward by any distance `d` up to half the circle keeps
/// the order: `a` is strictly before `a + d`, never the other way round,
/// and no number is before itself.
pub proof fn lemma_wrapping_lt_forward(a: u32, d: u32)
    requires
        1 <= d <= 0x7FFF_FFFF,
    ensures
        seq_lt(a, seq_add(a, d)),
        !seq_lt(seq_add(a, d), a),
        !seq_lt(a, a),
{
    let b = seq_add(a, d);
    lemma_wrap_sum(a, d);
    lemma_wrap_diff(a, b);
    lemma_wrap_diff(b, a);
    lemma_wrap_diff(a, a);
}

/// Circular sequence-number comparison: true iff `lhs` is strictly before
/// `rhs` on the circle, i.e. `(lhs - rhs) mod 2^32 > 2^31`.
pub fn wrapping_lt(lhs: u32, rhs: u32) -> (r: bool)
    ensures
        r == seq_lt(lhs, rhs),
{
    proof {
        lemma_wrap_diff(lhs, rhs);
    }
    let diff: u32 = if lhs >= rhs {
        lhs - rhs
    } else {
        ((0xFFFF_FFFFu32 - rhs) + lhs) + 1
    };
    diff > 0x8000_0000
}

/// `a + n` modulo 2^32: the successor arithmetic of the sequence space.
pub fn wrapping_add(a: u32, n: u32) -> (r: u32)
    ensures
        r == seq_add(a, n),
{
    proof {
        lemma_wrap_sum(a, n);
    }
    if a <= 0xFFFF_FFFFu32 - n {
        a + n
    } else {
        (n - (0xFFFF_FFFFu32 - a)) - 1
    }
}

/// RFC 793 S3.3 acceptability test for an acknowledgment number, written
/// with the circular comparison, never raw integer order.
pub fn is_acceptable_ack(una: u32, nxt: u32, ack: u32) -> (r: bool)
    ensures
        r == spec_acceptable_ack(una, nxt, ack),
{
    wrapping_lt(una, ack) && (wrapping_lt(ack, nxt) || ack == nxt)
}

} // verus!
