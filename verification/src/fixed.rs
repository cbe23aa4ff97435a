//! Binary fixed-point scalars.
//!
//! A [`Fx`] holds a real quantity as `bits / 65536`: sixteen fractional
//! bits, the rest integral. All smoothing arithmetic in this crate rounds
//! toward negative infinity, so blends with a factor of `0` or of exactly
//! one stay exact, which is what the smoothing laws rest on.

use vstd::arithmetic::div_mod::{
    lemma_basic_div, lemma_div_is_ordered, lemma_div_pos_is_pos, lemma_fundamental_div_mod,
    lemma_fundamental_div_mod_converse, lemma_div_multiples_vanish, lemma_hoist_over_denominator,
    lemma_mod_bound,
};
use vstd::prelude::*;

verus! {

/// The fixed-point representation of one: 2^16.
pub const FX_ONE: i64 = 65536;

/// Magnitude bound (2^40 bits, about 1.6e7 in real units) under which all
/// arithmetic in this crate is proved free of overflow.
pub const FX_MAX: i64 = 1099511627776;

/// Whether a bit pattern lies in the magnitude range the arithmetic accepts.
pub open spec fn fx_in_range(b: int) -> bool {
    -(FX_MAX as int) <= b <= FX_MAX as int
}

/// A scalar in binary fixed point: the represented value is `bits / 65536`.
#[derive(Clone, Copy, PartialEq, Eq, Structural, Debug)]
pub struct Fx {
    pub bits: i64,
}

impl Fx {
    /// Whether the scalar lies in the range the arithmetic accepts.
    pub open spec fn wf(self) -> bool {
        fx_in_range(self.bits as int)
    }

    /// Builds a scalar from a raw bit pattern (`bits / 65536` in real units).
    pub fn from_bits(bits: i64) -> (r: Fx)
        ensures
            r.bits == bits,
    {
        Fx { bits }
    }

    /// Builds the scalar that represents the whole number `u`.
    pub fn from_units(u: i32) -> (r: Fx)
        ensures
            r.bits == u * 65536,
    {
        Fx { bits: (u as i64) * 65536 }
    }
}

/// The product of a blend factor `t` (scaled by 2^16) and a difference `d`,
/// rounded toward negative infinity. Division here is Euclidean, which for
/// the positive divisor 2^16 is exactly floor division.
pub open spec fn mul_frac_spec(t: int, d: int) -> int {
    (t * d) / 65536
}

/// Floor division by a positive divisor turns into ceiling division of the
/// negated numerator: `(-m) / o == -((m + o - 1) / o)` for `m >= 0`.
proof fn lemma_div_neg_is_neg_ceil(m: int, o: int)
    requires
        0 <= m,
        0 < o,
    ensures
        (-m) / o == -((m + o - 1) / o),
{
    let q = m / o;
    let r = m % o;
    lemma_fundamental_div_mod(m, o);
    lemma_mod_bound(m, o);
    if r == 0 {
        assert(-m == (-q) * o + 0) by (nonlinear_arith)
            requires
                m == o * q + r,
                r == 0,
        ;
        lemma_fundamental_div_mod_converse(-m, o, -q, 0);
        assert(m + o - 1 == q * o + (o - 1)) by (nonlinear_arith)
            requires
                m == o * q + r,
                r == 0,
        ;
        lemma_fundamental_div_mod_converse(m + o - 1, o, q, o - 1);
    } else {
        assert(-m == (-q - 1) * o + (o - r)) by (nonlinear_arith)
            requires
                m == o * q + r,
        ;
        lemma_fundamental_div_mod_converse(-m, o, -q - 1, o - r);
        assert(m + o - 1 == (q + 1) * o + (r - 1)) by (nonlinear_arith)
            requires
                m == o * q + r,
        ;
        lemma_fundamental_div_mod_converse(m + o - 1, o, q + 1, r - 1);
    }
}

/// A factor in `[0, 1]` scales a difference toward zero: the product stays
/// between `0` and `d`.
pub proof fn lemma_mul_frac_bounds(t: int, d: int)
    requires
        0 <= t <= 65536,
    ensures
        d >= 0 ==> 0 <= mul_frac_spec(t, d) <= d,
        d <= 0 ==> d <= mul_frac_spec(t, d) <= 0,
{
    if d >= 0 {
        assert(0 <= t * d <= 65536 * d) by (nonlinear_arith)
            requires
                0 <= t <= 65536,
                d >= 0,
        ;
        lemma_div_pos_is_pos(t * d, 65536);
        lemma_div_is_ordered(t * d, 65536 * d, 65536);
        lemma_div_multiples_vanish(d, 65536);
    } else {
        assert(65536 * d <= t * d <= 0) by (nonlinear_arith)
            requires
                0 <= t <= 65536,
                d <= 0,
        ;
        lemma_div_is_ordered(65536 * d, t * d, 65536);
        lemma_div_multiples_vanish(d, 65536);
        lemma_div_is_ordered(t * d, 0, 65536);
        assert(0int / 65536 == 0) by {
            lemma_basic_div(0, 65536);
        }
    }
}

/// A factor of exactly one hands the difference back unchanged.
pub proof fn lemma_mul_frac_one(d: int)
    ensures
        mul_frac_spec(65536, d) == d,
{
    lemma_div_multiples_vanish(d, 65536);
}

/// A zero difference scales to zero whatever the factor.
pub proof fn lemma_mul_frac_zero(t: int)
    ensures
        mul_frac_spec(t, 0) == 0,
{
    assert(t * 0 == 0) by (nonlinear_arith);
    lemma_basic_div(0, 65536);
}

/// A zero factor scales any difference to zero.
pub proof fn lemma_mul_frac_zero_factor(d: int)
    ensures
        mul_frac_spec(0, d) == 0,
{
    lemma_basic_div(0, 65536);
}

/// Scaling by a nonnegative factor is monotone in the difference.
pub proof fn lemma_mul_frac_d_ordered(t: int, d1: int, d2: int)
    requires
        0 <= t,
        d1 <= d2,
    ensures
        mul_frac_spec(t, d1) <= mul_frac_spec(t, d2),
{
    assert(t * d1 <= t * d2) by (nonlinear_arith)
        requires
            0 <= t,
            d1 <= d2,
    ;
    lemma_div_is_ordered(t * d1, t * d2, 65536);
}

/// Scaling by a factor is monotone in the factor when the difference is
/// nonnegative.
pub proof fn lemma_mul_frac_ordered(t1: int, t2: int, d: int)
    requires
        0 <= t1 <= t2,
        0 <= d,
    ensures
        mul_frac_spec(t1, d) <= mul_frac_spec(t2, d),
{
    assert(t1 * d <= t2 * d) by (nonlinear_arith)
        requires
            t1 <= t2,
            0 <= d,
    ;
    lemma_div_is_ordered(t1 * d, t2 * d, 65536);
}

/// Computes `mul_frac_spec` on scalars: the difference `d` scaled by the
/// blend factor `t`, rounded toward negative infinity. The difference of
/// two in-range scalars spans twice the range, so `d` may go that far.
pub fn mul_frac(t: Fx, d: Fx) -> (r: Fx)
    requires
        0 <= t.bits <= FX_ONE,
        -2199023255552 <= d.bits <= 2199023255552,
    ensures
        r.bits == mul_frac_spec(t.bits as int, d.bits as int),
        d.bits >= 0 ==> 0 <= r.bits <= d.bits,
        d.bits <= 0 ==> d.bits <= r.bits <= 0,
{
    proof {
        lemma_mul_frac_bounds(t.bits as int, d.bits as int);
    }
    if d.bits >= 0 {
        let t64: u64 = t.bits as u64;
        let d64: u64 = d.bits as u64;
        proof {
            assert(t64 * d64 <= 65536 * 2199023255552) by (nonlinear_arith)
                requires
                    t64 <= 65536,
                    d64 <= 2199023255552,
            ;
        }
        let p: u64 = t64 * d64;
        let q: u64 = p / 65536;
        Fx { bits: q as i64 }
    } else {
        let t64: u64 = t.bits as u64;
        let nd: u64 = (-d.bits) as u64;
        proof {
            assert(t64 * nd <= 65536 * 2199023255552) by (nonlinear_arith)
                requires
                    t64 <= 65536,
                    nd <= 2199023255552,
            ;
        }
        let p: u64 = t64 * nd;
        proof {
            assert(t.bits * d.bits == -(p as int)) by (nonlinear_arith)
                requires
                    p == t64 * nd,
                    t64 == t.bits,
                    nd == -d.bits,
            ;
            lemma_div_neg_is_neg_ceil(p as int, 65536);
        }
        let q: u64 = (p + 65535) / 65536;
        Fx { bits: -(q as i64) }
    }
}

/// Linear interpolation: `from` moved toward `to` by the fraction `t`.
/// `lerp_spec(from, to, 0) == from` and `lerp_spec(from, to, 65536) == to`.
pub open spec fn lerp_spec(from: int, to: int, t: int) -> int {
    from + mul_frac_spec(t, to - from)
}

/// The result of a blend with a factor in `[0, 1]` lies between its two
/// endpoints.
pub proof fn lemma_lerp_bracket(from: int, to: int, t: int)
    requires
        0 <= t <= 65536,
    ensures
        from <= to ==> from <= lerp_spec(from, to, t) <= to,
        to <= from ==> to <= lerp_spec(from, to, t) <= from,
{
    lemma_mul_frac_bounds(t, to - from);
}

/// Blending `from` toward `to` by `1 - s` lands on exactly the same scalar
/// as blending `to` toward `from` by `s`: the two parameterizations of an
/// exponential damper used in this crate agree bit for bit.
pub proof fn lemma_lerp_complement(from: int, to: int, s: int)
    requires
        0 <= s <= 65536,
    ensures
        lerp_spec(from, to, 65536 - s) == lerp_spec(to, from, s),
{
    let d = to - from;
    assert((65536 - s) * d == s * (-d) + d * 65536) by (nonlinear_arith);
    lemma_hoist_over_denominator(s * (-d), d, 65536nat);
}

/// Computes `lerp_spec` on scalars: a fixed-fraction blend of `from`
/// toward `to`.
pub fn lerp(from: Fx, to: Fx, t: Fx) -> (r: Fx)
    requires
        from.wf(),
        to.wf(),
        0 <= t.bits <= FX_ONE,
    ensures
        r.bits == lerp_spec(from.bits as int, to.bits as int, t.bits as int),
        from.bits <= to.bits ==> from.bits <= r.bits <= to.bits,
        to.bits <= from.bits ==> to.bits <= r.bits <= from.bits,
        r.wf(),
{
    let d = Fx { bits: to.bits - from.bits };
    let m = mul_frac(t, d);
    Fx { bits: from.bits + m.bits }
}

} // verus!
