//! Per-actor state fingerprints.
//!
//! Every tick each actor's agreement-relevant state (position and velocity
//! components, in a fixed field order, as fixed-width little-endian byte
//! sequences) is folded into a 16-bit Fletcher checksum.  Peers compare these
//! values for the same tick to detect divergence.  The fingerprint is always
//! recomputed from scratch, never maintained incrementally, so a corrupted
//! accumulator can never mask a real divergence.

use vstd::prelude::*;
use vstd::arithmetic::div_mod::{
    lemma_div_denominator,
    lemma_fundamental_div_mod,
    lemma_div_is_ordered,
    lemma_div_pos_is_pos,
    lemma_small_mod,
};

verus! {

/// The shift that makes every serialized component non-negative before it is
/// cut into bytes.  It exceeds every reachable position and velocity value.
pub const CHECKSUM_BIAS: i64 = 4294967296;

/// The latest fingerprint of one actor.
#[derive(Clone, Copy, Debug, PartialEq, Eq, Structural, Hash, Default)]
pub struct Checksum {
    pub value: u16,
}

/// A serialized component: the value shifted to be non-negative.
pub open spec fn biased(v: int) -> int {
    v + CHECKSUM_BIAS
}

/// Eight little-endian bytes of a non-negative value below `2^63`.
pub open spec fn le_bytes8(v: int) -> Seq<u8> {
    seq![
        (v % 256) as u8,
        ((v / 256) % 256) as u8,
        ((v / 65536) % 256) as u8,
        ((v / 16777216) % 256) as u8,
        ((v / 4294967296) % 256) as u8,
        ((v / 1099511627776) % 256) as u8,
        ((v / 281474976710656) % 256) as u8,
        ((v / 72057594037927936) % 256) as u8,
    ]
}

/// The two running Fletcher accumulators over a byte sequence.
pub open spec fn fletcher_sums(bytes: Seq<u8>) -> (int, int)
    decreases bytes.len(),
{
    if bytes.len() == 0 {
        (0, 0)
    } else {
        let prev: (int, int) = fletcher_sums(bytes.drop_last());
        let s1: int = (prev.0 + bytes.last()) % 255;
        (s1, (prev.1 + s1) % 255)
    }
}

/// The 16-bit Fletcher checksum of a byte sequence.
pub open spec fn fletcher16_spec(bytes: Seq<u8>) -> int {
    fletcher_sums(bytes).1 * 256 + fletcher_sums(bytes).0
}

/// The canonical byte image of the tracked state of one actor: position x,
/// position y, velocity x, velocity y, each as eight little-endian bytes.
pub open spec fn state_bytes(px: int, py: int, vx: int, vy: int) -> Seq<u8> {
    le_bytes8(biased(px)) + le_bytes8(biased(py)) + le_bytes8(biased(vx)) + le_bytes8(biased(vy))
}

/// The fingerprint of the tracked state of one actor.
pub open spec fn checksum_of(px: int, py: int, vx: int, vy: int) -> int {
    fletcher16_spec(state_bytes(px, py, vx, vy))
}

/// Recomposing eight little-endian bytes into the value they encode.
pub open spec fn le8_value(s: Seq<u8>) -> int {
    s[0] + 256 * (s[1] + 256 * (s[2] + 256 * (s[3] + 256 * (s[4] + 256 * (s[5] + 256 * (s[6]
        + 256 * s[7]))))))
}

/// The byte encoding loses nothing: the eight bytes recompose to the value.
pub proof fn lemma_le_bytes8_lossless(v: int)
    requires
        0 <= v < 0x8000000000000000,
    ensures
        le8_value(le_bytes8(v)) == v,
{
    let v1: int = v / 256;
    let v2: int = v / 65536;
    let v3: int = v / 16777216;
    let v4: int = v / 4294967296;
    let v5: int = v / 1099511627776;
    let v6: int = v / 281474976710656;
    let v7: int = v / 72057594037927936;
    lemma_div_denominator(v, 256, 256);
    lemma_div_denominator(v, 65536, 256);
    lemma_div_denominator(v, 16777216, 256);
    lemma_div_denominator(v, 4294967296, 256);
    lemma_div_denominator(v, 1099511627776, 256);
    lemma_div_denominator(v, 281474976710656, 256);
    assert(v2 == v1 / 256);
    assert(v3 == v2 / 256);
    assert(v4 == v3 / 256);
    assert(v5 == v4 / 256);
    assert(v6 == v5 / 256);
    assert(v7 == v6 / 256);
    lemma_fundamental_div_mod(v, 256);
    lemma_fundamental_div_mod(v1, 256);
    lemma_fundamental_div_mod(v2, 256);
    lemma_fundamental_div_mod(v3, 256);
    lemma_fundamental_div_mod(v4, 256);
    lemma_fundamental_div_mod(v5, 256);
    lemma_fundamental_div_mod(v6, 256);
    assert(0 <= v7 < 256) by {
        lemma_div_is_ordered(v, 0x7FFFFFFFFFFFFFFF, 72057594037927936);
        lemma_div_pos_is_pos(v, 72057594037927936);
    }
    assert(v7 % 256 == v7) by {
        lemma_small_mod(v7 as nat, 256);
    }
}

/// The canonical byte image is lossless: two actor states that differ in
/// any tracked field have different byte images, so a fingerprint collision
/// can only come from the sixteen-bit fold itself.
#[verifier::rlimit(60)]
pub proof fn lemma_state_bytes_lossless(
    px1: int,
    py1: int,
    vx1: int,
    vy1: int,
    px2: int,
    py2: int,
    vx2: int,
    vy2: int,
)
    requires
        -CHECKSUM_BIAS < px1 < CHECKSUM_BIAS,
        -CHECKSUM_BIAS < py1 < CHECKSUM_BIAS,
        -CHECKSUM_BIAS < vx1 < CHECKSUM_BIAS,
        -CHECKSUM_BIAS < vy1 < CHECKSUM_BIAS,
        -CHECKSUM_BIAS < px2 < CHECKSUM_BIAS,
        -CHECKSUM_BIAS < py2 < CHECKSUM_BIAS,
        -CHECKSUM_BIAS < vx2 < CHECKSUM_BIAS,
        -CHECKSUM_BIAS < vy2 < CHECKSUM_BIAS,
        state_bytes(px1, py1, vx1, vy1) == state_bytes(px2, py2, vx2, vy2),
    ensures
        px1 == px2,
        py1 == py2,
        vx1 == vx2,
        vy1 == vy2,
{
    let s1: Seq<u8> = state_bytes(px1, py1, vx1, vy1);
    let s2: Seq<u8> = state_bytes(px2, py2, vx2, vy2);
    assert(le_bytes8(biased(px1)) =~= s1.subrange(0, 8));
    assert(le_bytes8(biased(py1)) =~= s1.subrange(8, 16));
    assert(le_bytes8(biased(vx1)) =~= s1.subrange(16, 24));
    assert(le_bytes8(biased(vy1)) =~= s1.subrange(24, 32));
    assert(le_bytes8(biased(px2)) =~= s2.subrange(0, 8));
    assert(le_bytes8(biased(py2)) =~= s2.subrange(8, 16));
    assert(le_bytes8(biased(vx2)) =~= s2.subrange(16, 24));
    assert(le_bytes8(biased(vy2)) =~= s2.subrange(24, 32));
    lemma_le_bytes8_lossless(biased(px1));
    lemma_le_bytes8_lossless(biased(py1));
    lemma_le_bytes8_lossless(biased(vx1));
    lemma_le_bytes8_lossless(biased(vy1));
    lemma_le_bytes8_lossless(biased(px2));
    lemma_le_bytes8_lossless(biased(py2));
    lemma_le_bytes8_lossless(biased(vx2));
    lemma_le_bytes8_lossless(biased(vy2));
}

/// Both Fletcher accumulators always stay below 255.
pub proof fn lemma_fletcher_sums_range(bytes: Seq<u8>)
    ensures
        0 <= fletcher_sums(bytes).0 < 255,
        0 <= fletcher_sums(bytes).1 < 255,
    decreases bytes.len(),
{
    if bytes.len() > 0 {
        lemma_fletcher_sums_range(bytes.drop_last());
    }
}

/// Actors whose tracked fields agree always fingerprint identically: the
/// checksum is a function of position and velocity alone.
pub proof fn lemma_checksum_deterministic(
    px1: int,
    py1: int,
    vx1: int,
    vy1: int,
    px2: int,
    py2: int,
    vx2: int,
    vy2: int,
)
    requires
        px1 == px2,
        py1 == py2,
        vx1 == vx2,
        vy1 == vy2,
    ensures
        checksum_of(px1, py1, vx1, vy1) == checksum_of(px2, py2, vx2, vy2),
{
}

/// The Fletcher checksum of a byte slice, two accumulators mod 255 folded
/// into sixteen bits.
pub fn fletcher16(data: &[u8]) -> (r: u16)
    ensures
        r == fletcher16_spec(data@),
{
    let mut sum1: u16 = 0;
    let mut sum2: u16 = 0;
    let n: usize = data.len();
    let mut i: usize = 0;
    while i < n
        invariant
            i <= n,
            n == data@.len(),
            sum1 < 255,
            sum2 < 255,
            sum1 == fletcher_sums(data@.take(i as int)).0,
            sum2 == fletcher_sums(data@.take(i as int)).1,
        decreases n - i,
    {
        let b: u8 = data[i];
        sum1 = (sum1 + b as u16) % 255;
        sum2 = (sum2 + sum1) % 255;
        proof {
            assert(data@.take(i + 1).drop_last() =~= data@.take(i as int));
            assert(data@.take(i + 1).last() == data@[i as int]);
        }
        i = i + 1;
    }
    proof {
        assert(data@.take(n as int) =~= data@);
    }
    sum2 * 256 + sum1
}

/// Appending the eight little-endian bytes of one shifted component.
pub fn push_le8(bytes: &mut Vec<u8>, v: i64)
    requires
        -CHECKSUM_BIAS < v < CHECKSUM_BIAS,
    ensures
        final(bytes)@ == old(bytes)@ + le_bytes8(biased(v as int)),
{
    let u: u64 = (v + CHECKSUM_BIAS) as u64;
    bytes.push((u % 256) as u8);
    bytes.push(((u / 256) % 256) as u8);
    bytes.push(((u / 65536) % 256) as u8);
    bytes.push(((u / 16777216) % 256) as u8);
    bytes.push(((u / 4294967296) % 256) as u8);
    bytes.push(((u / 1099511627776) % 256) as u8);
    bytes.push(((u / 281474976710656) % 256) as u8);
    bytes.push(((u / 72057594037927936) % 256) as u8);
    proof {
        assert(final(bytes)@ =~= old(bytes)@ + le_bytes8(biased(v as int)));
    }
}

/// The fingerprint of one actor's tracked state, recomputed from scratch.
pub fn checksum_state(px: i64, py: i64, vx: i64, vy: i64) -> (r: u16)
    requires
        -CHECKSUM_BIAS < px < CHECKSUM_BIAS,
        -CHECKSUM_BIAS < py < CHECKSUM_BIAS,
        -CHECKSUM_BIAS < vx < CHECKSUM_BIAS,
        -CHECKSUM_BIAS < vy < CHECKSUM_BIAS,
    ensures
        r == checksum_of(px as int, py as int, vx as int, vy as int),
{
    let mut bytes: Vec<u8> = Vec::new();
    push_le8(&mut bytes, px);
    push_le8(&mut bytes, py);
    push_le8(&mut bytes, vx);
    push_le8(&mut bytes, vy);
    proof {
        assert(bytes@ =~= state_bytes(px as int, py as int, vx as int, vy as int));
    }
    fletcher16(bytes.as_slice())
}

} // verus!
