//! Distances as ordered keys.
//!
//! A pick compares distances and never computes with them, so it takes them
//! as integers that order as the distances do. For a single precision number
//! that is not negative and is a number at all, the bit pattern is such an
//! integer: this module says which number a bit pattern writes and proves
//! that a greater pattern writes a greater number.

use vstd::prelude::*;
use vstd::arithmetic::power2::{
    lemma_pow2_pos, lemma_pow2_strictly_increases, lemma_pow2_unfold, pow2,
};
use crate::viewport::picking::{admissible, is_closest};

verus! {

/// The key of a distance beyond every number: the bit pattern of positive
/// infinity. Keys below it write finite distances, keys above it write no
/// distance.
pub const INFINITE_DISTANCE: u32 = 0x7F80_0000;

/// The key of the distance 0.1, nearer than which nothing is picked by
/// default: the bit pattern of the single precision number next to a tenth.
pub const DEFAULT_PICK_FLOOR: u32 = 0x3DCC_CCCD;

/// The key beyond which nothing is picked by default: infinity.
pub const DEFAULT_PICK_CEILING: u32 = 0x7F80_0000;

/// The exponent field of a bit pattern: bits 23 to 30.
pub open spec fn exponent(bits: u32) -> nat {
    ((bits as int / 0x80_0000) % 0x100) as nat
}

/// The fraction field of a bit pattern: bits 0 to 22.
pub open spec fn fraction(bits: u32) -> nat {
    (bits as int % 0x80_0000) as nat
}

/// The key writes a finite distance: its sign bit is clear and its exponent
/// is not the greatest.
pub open spec fn is_finite_distance(bits: u32) -> bool {
    bits < INFINITE_DISTANCE
}

/// The distance that a finite key writes, in units of two to the power of
/// -149: the fraction alone for the least exponent, else the fraction with a
/// leading one, doubled once for every step of the exponent above one.
pub open spec fn magnitude(bits: u32) -> nat {
    if exponent(bits) == 0 {
        fraction(bits)
    } else {
        (0x80_0000 + fraction(bits)) * pow2((exponent(bits) - 1) as nat)
    }
}

/// A finite key is its exponent and fraction side by side, and its exponent
/// is below the greatest.
pub proof fn lemma_fields(bits: u32)
    requires
        is_finite_distance(bits),
    ensures
        bits == exponent(bits) * 0x80_0000 + fraction(bits),
        exponent(bits) < 0xFF,
        fraction(bits) < 0x80_0000,
{
    assert(bits as int / 0x80_0000 < 0xFF && bits as int == (bits as int / 0x80_0000) * 0x80_0000
        + bits as int % 0x80_0000) by (nonlinear_arith)
        requires
            0 <= bits as int,
            (bits as int) < 0x7F80_0000,
    ;
}

/// With the same exponent, the greater fraction writes the greater distance;
/// with a greater exponent, every fraction does.
proof fn lemma_magnitude_bounds(bits: u32)
    requires
        is_finite_distance(bits),
    ensures
        exponent(bits) == 0 ==> magnitude(bits) < 0x80_0000,
        exponent(bits) > 0 ==> 0x80_0000 * pow2((exponent(bits) - 1) as nat) <= magnitude(bits)
            < 0x80_0000 * pow2(exponent(bits)),
{
    lemma_fields(bits);
    if exponent(bits) > 0 {
        let e = (exponent(bits) - 1) as nat;
        let f = fraction(bits) as int;
        let p = pow2(e) as int;
        lemma_pow2_pos(e);
        lemma_pow2_unfold(exponent(bits));
        assert(pow2(exponent(bits)) == 2 * pow2(e));
        assert(0x80_0000 * p <= (0x80_0000 + f) * p < 0x80_0000 * (2 * p)) by (nonlinear_arith)
            requires
                0 <= f < 0x80_0000,
                p > 0,
        ;
    }
}

/// Finite keys order as the distances that they write.
pub proof fn lemma_key_order(a: u32, b: u32)
    requires
        is_finite_distance(a),
        is_finite_distance(b),
    ensures
        a < b <==> magnitude(a) < magnitude(b),
        a == b <==> magnitude(a) == magnitude(b),
{
    lemma_fields(a);
    lemma_fields(b);
    lemma_magnitude_bounds(a);
    lemma_magnitude_bounds(b);
    let ea = exponent(a);
    let eb = exponent(b);
    if ea == eb {
        if ea > 0 {
            let p = pow2((ea - 1) as nat) as int;
            let fa = fraction(a) as int;
            let fb = fraction(b) as int;
            lemma_pow2_pos((ea - 1) as nat);
            assert((fa < fb <==> (0x80_0000 + fa) * p < (0x80_0000 + fb) * p) && (fa == fb <==> (
            0x80_0000 + fa) * p == (0x80_0000 + fb) * p)) by (nonlinear_arith)
                requires
                    p > 0,
            ;
        }
    } else if ea < eb {
        lemma_below_next_exponent(a, b);
    } else {
        lemma_below_next_exponent(b, a);
    }
}

proof fn lemma_below_next_exponent(a: u32, b: u32)
    requires
        is_finite_distance(a),
        is_finite_distance(b),
        exponent(a) < exponent(b),
    ensures
        a < b,
        magnitude(a) < magnitude(b),
{
    lemma_fields(a);
    lemma_fields(b);
    lemma_magnitude_bounds(a);
    lemma_magnitude_bounds(b);
    let ea = exponent(a);
    let eb = exponent(b);
    assert(a < b) by (nonlinear_arith)
        requires
            a == ea * 0x80_0000 + fraction(a),
            b == eb * 0x80_0000 + fraction(b),
            ea < eb,
            fraction(a) < 0x80_0000,
    ;
    let low = (eb - 1) as nat;
    lemma_pow2_pos(low);
    if ea == 0 {
        assert(0x80_0000 <= 0x80_0000 * pow2(low)) by (nonlinear_arith)
            requires
                pow2(low) >= 1,
        ;
    } else {
        if ea < low {
            lemma_pow2_strictly_increases(ea, low);
        }
        assert(pow2(ea) <= pow2(low));
        assert(0x80_0000 * pow2(ea) <= 0x80_0000 * pow2(low)) by (nonlinear_arith)
            requires
                pow2(ea) <= pow2(low),
        ;
    }
}

/// Tells whether a key writes a finite distance.
pub fn writes_finite_distance(bits: u32) -> (r: bool)
    ensures
        r == is_finite_distance(bits),
{
    bits < INFINITE_DISTANCE
}

/// The default floor writes the single precision number next to a tenth:
/// 13421773 times two to the power of -27.
pub proof fn lemma_default_floor()
    ensures
        exponent(DEFAULT_PICK_FLOOR) == 123,
        fraction(DEFAULT_PICK_FLOOR) == 0x4C_CCCD,
        magnitude(DEFAULT_PICK_FLOOR) == 13421773 * pow2(122),
        is_finite_distance(DEFAULT_PICK_FLOOR),
{
    assert(0x3DCC_CCCDint / 0x80_0000 == 123 && 0x3DCC_CCCDint % 0x80_0000 == 0x4C_CCCD)
        by (nonlinear_arith);
}

/// The hit that a pick chooses is the nearest in distance, not only in key:
/// among hits below infinity, no admissible hit writes a smaller distance
/// than the chosen one.
pub proof fn lemma_closest_is_nearest(
    hits: Seq<Option<u32>>,
    floor: u32,
    ceiling: u32,
    chosen: int,
    other: int,
)
    requires
        ceiling <= INFINITE_DISTANCE,
        is_closest(hits, floor, ceiling, chosen),
        0 <= other < hits.len(),
        admissible(hits[other], floor, ceiling),
    ensures
        magnitude(hits[chosen].unwrap()) <= magnitude(hits[other].unwrap()),
        magnitude(hits[chosen].unwrap()) > magnitude(floor),
{
    lemma_key_order(hits[chosen].unwrap(), hits[other].unwrap());
    lemma_key_order(floor, hits[chosen].unwrap());
}

} // verus!
