//! The closed set of smoothing rules.
//!
//! A [`Function`] is a pure rule `(current, target, dt) -> next` that moves
//! a scalar toward a target over one time step, with its own tunable
//! parameters. `Lerp` and `DamperBad` are deliberately frame-rate dependent
//! (the same parameters trace different paths at different tick rates);
//! `DamperExact` and `DamperExact2` are two parameterizations of the same
//! frame-rate-independent exponential decay, built on a base-two decay
//! table [`exp2_neg_spec`].

use crate::fixed::{
    lemma_lerp_bracket, lemma_lerp_complement, lemma_mul_frac_bounds,
    lemma_mul_frac_one, lemma_mul_frac_ordered, lemma_mul_frac_d_ordered, lemma_mul_frac_zero,
    lemma_mul_frac_zero_factor, lerp_spec, mul_frac_spec, Fx, FX_MAX, FX_ONE,
};
use vstd::arithmetic::div_mod::{
    lemma_basic_div, lemma_div_is_ordered_by_denominator, lemma_div_pos_is_pos,
    lemma_fundamental_div_mod, lemma_mod_bound,
};
use vstd::arithmetic::power2::{
    lemma2_to64, lemma_pow2_pos, lemma_pow2_strictly_increases, lemma_pow2_unfold, pow2,
};
use vstd::prelude::*;

verus! {

/// Linear coefficient of the quadratic decay table, `0.69275` in fixed
/// point. Together with [`EXP2_QUAD`] it pins `exp2_frac_spec(0) == 1`
/// and `exp2_frac_spec(65536) == 1/2` exactly.
pub const EXP2_LIN: i64 = 45400;

/// Quadratic coefficient of the decay table, `0.19275` in fixed point;
/// `EXP2_LIN - EXP2_QUAD == 32768` makes the table land on one half at a
/// whole step.
pub const EXP2_QUAD: i64 = 12632;

/// Quadratic approximation of `2^(-f / 65536)` on one fractional step
/// `0 <= f < 65536`, scaled by 2^16. Exact at the endpoints: one at `f == 0`
/// and one half at `f == 65536`.
pub open spec fn exp2_frac_spec(f: int) -> int {
    65536 - mul_frac_spec(EXP2_LIN as int, f) + mul_frac_spec(
        EXP2_QUAD as int,
        mul_frac_spec(f, f),
    )
}

/// `2^(-x / 65536)` scaled by 2^16, for `x >= 0`: the fractional part goes
/// through the quadratic table, each whole step halves the result.
pub open spec fn exp2_neg_spec(x: int) -> int {
    exp2_frac_spec(x % 65536) / (pow2((x / 65536) as nat) as int)
}

/// The decay table is exact at both ends of a fractional step: it opens
/// at one and closes at exactly one half, the same value the whole-step
/// halving produces, so the two pieces of the decay meet seamlessly.
pub proof fn lemma_exp2_frac_endpoints()
    ensures
        exp2_frac_spec(0) == 65536,
        exp2_frac_spec(65536) == 32768,
{
    lemma_mul_frac_zero(EXP2_LIN as int);
    lemma_mul_frac_zero(0);
    lemma_mul_frac_zero(EXP2_QUAD as int);
    lemma_mul_frac_one(65536);
    assert(mul_frac_spec(EXP2_LIN as int, 65536) == 45400) by {
        assert(EXP2_LIN as int * 65536 == 65536 * 45400) by (nonlinear_arith);
        vstd::arithmetic::div_mod::lemma_div_multiples_vanish(45400, 65536);
    }
    assert(mul_frac_spec(EXP2_QUAD as int, 65536) == 12632) by {
        assert(EXP2_QUAD as int * 65536 == 65536 * 12632) by (nonlinear_arith);
        vstd::arithmetic::div_mod::lemma_div_multiples_vanish(12632, 65536);
    }
}

/// The quadratic decay table stays within `[0, 1]` on a fractional step.
pub proof fn lemma_exp2_frac_bounds(f: int)
    requires
        0 <= f <= 65536,
    ensures
        0 <= exp2_frac_spec(f) <= 65536,
        f == 0 ==> exp2_frac_spec(f) == 65536,
{
    lemma_mul_frac_bounds(EXP2_LIN as int, f);
    lemma_mul_frac_bounds(f, f);
    lemma_mul_frac_bounds(EXP2_QUAD as int, mul_frac_spec(f, f));
    lemma_mul_frac_d_ordered(EXP2_QUAD as int, mul_frac_spec(f, f), f);
    lemma_mul_frac_ordered(EXP2_QUAD as int, EXP2_LIN as int, f);
    if f == 0 {
        lemma_mul_frac_zero(EXP2_LIN as int);
        lemma_mul_frac_zero(f);
        lemma_mul_frac_zero(EXP2_QUAD as int);
    }
}

/// The decay `2^(-x / 65536)` stays within `[0, 1]` and starts at exactly
/// one.
pub proof fn lemma_exp2_neg_bounds(x: int)
    requires
        x >= 0,
    ensures
        0 <= exp2_neg_spec(x) <= 65536,
        x == 0 ==> exp2_neg_spec(x) == 65536,
{
    let f = x % 65536;
    let k = (x / 65536) as nat;
    lemma_mod_bound(x, 65536);
    lemma_exp2_frac_bounds(f);
    lemma_pow2_pos(k);
    lemma_div_pos_is_pos(exp2_frac_spec(f), pow2(k) as int);
    lemma_div_is_ordered_by_denominator(exp2_frac_spec(f), 1, pow2(k) as int);
    assert(exp2_frac_spec(f) / 1int == exp2_frac_spec(f));
    if x == 0 {
        lemma_div_pos_is_pos(0, 65536);
        assert(x / 65536 == 0 && x % 65536 == 0) by {
            lemma_basic_div(x, 65536);
            lemma_fundamental_div_mod(x, 65536);
        }
        assert(pow2(0) == 1) by {
            lemma2_to64();
        }
    }
}

/// Computes the quadratic decay table on one fractional step.
fn exp2_frac(f: u64) -> (r: u64)
    requires
        f < 65536,
    ensures
        r == exp2_frac_spec(f as int),
        r <= 65536,
{
    proof {
        lemma_exp2_frac_bounds(f as int);
        lemma_mul_frac_bounds(EXP2_LIN as int, f as int);
        lemma_mul_frac_bounds(f as int, f as int);
    }
    let af: u64 = (45400 * f) / 65536;
    let ff: u64 = (f * f) / 65536;
    let bf: u64 = (12632 * ff) / 65536;
    65536 - af + bf
}

/// Computes `exp2_neg_spec`: the base-two exponential decay of a
/// nonnegative fixed-point exponent. Wide argument, so that a product of
/// two in-range scalars can be fed in unclamped.
fn exp2_neg(x: u128) -> (r: Fx)
    ensures
        r.bits == exp2_neg_spec(x as int),
        0 <= r.bits <= FX_ONE,
        x == 0 ==> r.bits == FX_ONE,
{
    proof {
        lemma_exp2_neg_bounds(x as int);
        lemma_mod_bound(x as int, 65536);
    }
    let k: u128 = x / 65536;
    let f: u64 = (x % 65536) as u64;
    let p: u64 = exp2_frac(f);
    let kk: u64 = if k >= 17 { 17 } else { k as u64 };
    let mut r: u64 = p;
    let mut i: u64 = 0;
    proof {
        assert(pow2(0) == 1) by {
            lemma2_to64();
        }
        assert(p as int / 1int == p as int);
    }
    while i < kk
        invariant
            i <= kk <= 17,
            p <= 65536,
            r == p as int / (pow2(i as nat) as int),
        decreases kk - i,
    {
        proof {
            lemma_pow2_pos(i as nat);
            lemma_pow2_unfold((i + 1) as nat);
            vstd::arithmetic::div_mod::lemma_div_denominator(
                p as int,
                pow2(i as nat) as int,
                2,
            );
            lemma_pow2_pos((i + 1) as nat);
            lemma_div_pos_is_pos(p as int, pow2(i as nat) as int);
        }
        r = r / 2;
        i = i + 1;
    }
    proof {
        let kspec = ((x as int) / 65536) as nat;
        if k >= 17 {
            assert(pow2(17) == 131072) by {
                lemma2_to64();
            }
            lemma_exp2_frac_bounds(f as int);
            lemma_basic_div(p as int, pow2(17) as int);
            if kspec > 17 {
                lemma_pow2_strictly_increases(17, kspec);
                lemma_basic_div(exp2_frac_spec(f as int), pow2(kspec) as int);
            }
        }
    }
    Fx { bits: r as i64 }
}

/// A smoothing rule: one pure update `(current, target, dt) -> next`,
/// carrying its own parameters.
#[derive(Clone, Copy, PartialEq, Eq, Structural, Debug)]
pub enum Function {
    /// Jumps fully to the target on every step.
    Exact,
    /// Fixed-fraction blend per call; frame-rate dependent by design.
    Lerp { factor: Fx },
    /// Naive damping with `clamp(damper * dt, 0, 1)` as the blend factor;
    /// frame-rate dependent by design.
    DamperBad { damper: Fx },
    /// Frame-rate-independent exponential decay, parameterized by the time
    /// for the gap to halve (guarded away from zero by one bit).
    DamperExact { half_life: Fx },
    /// The same decay law, parameterized directly by a decay rate and
    /// blended in the opposite order.
    DamperExact2 { rate: Fx },
}

/// Clamps a fixed-point blend factor into `[0, 1]`.
pub open spec fn clamp01_spec(v: int) -> int {
    if v < 0 {
        0
    } else if v > 65536 {
        65536
    } else {
        v
    }
}

/// The exponent each exact damper feeds into the decay table: elapsed time
/// over half-life for `DamperExact`, rate times elapsed time for
/// `DamperExact2`.
pub open spec fn damper_exponent_spec(f: Function, dt: int) -> int {
    match f {
        Function::DamperExact { half_life } => (dt * 65536) / (half_life.bits + 1),
        Function::DamperExact2 { rate } => mul_frac_spec(rate.bits as int, dt),
        _ => 0,
    }
}

/// What one evaluation of each rule returns, on fixed-point bit patterns.
pub open spec fn execute_spec(f: Function, from: int, to: int, dt: int) -> int {
    match f {
        Function::Exact => to,
        Function::Lerp { factor } => lerp_spec(from, to, factor.bits as int),
        Function::DamperBad { damper } => lerp_spec(
            from,
            to,
            clamp01_spec(mul_frac_spec(damper.bits as int, dt)),
        ),
        Function::DamperExact { .. } => lerp_spec(
            from,
            to,
            65536 - exp2_neg_spec(damper_exponent_spec(f, dt)),
        ),
        Function::DamperExact2 { .. } => lerp_spec(to, from, exp2_neg_spec(damper_exponent_spec(f, dt))),
    }
}

impl Function {
    /// Whether the rule's parameter lies in the range its arithmetic
    /// accepts. The documented interface ranges (factor in (0,1], damper,
    /// half-life and rate positive and bounded) all lie inside this.
    pub open spec fn wf(self) -> bool {
        match self {
            Function::Exact => true,
            Function::Lerp { factor } => 0 <= factor.bits <= FX_ONE,
            Function::DamperBad { damper } => 0 <= damper.bits <= FX_MAX,
            Function::DamperExact { half_life } => 0 <= half_life.bits <= FX_MAX,
            Function::DamperExact2 { rate } => 0 <= rate.bits <= FX_MAX,
        }
    }
}

/// Every rule's step lands between the current value and the target: a
/// value short of its goal never overshoots and never retreats.
pub proof fn lemma_execute_bracket(f: Function, from: int, to: int, dt: int)
    requires
        f.wf(),
        dt >= 0,
    ensures
        from <= to ==> from <= execute_spec(f, from, to, dt) <= to,
        to <= from ==> to <= execute_spec(f, from, to, dt) <= from,
{
    match f {
        Function::Exact => {},
        Function::Lerp { factor } => {
            lemma_lerp_bracket(from, to, factor.bits as int);
        },
        Function::DamperBad { damper } => {
            lemma_lerp_bracket(from, to, clamp01_spec(mul_frac_spec(damper.bits as int, dt)));
        },
        Function::DamperExact { half_life } => {
            let x = damper_exponent_spec(f, dt);
            lemma_div_pos_is_pos(dt * 65536, half_life.bits + 1);
            lemma_exp2_neg_bounds(x);
            lemma_lerp_bracket(from, to, 65536 - exp2_neg_spec(x));
        },
        Function::DamperExact2 { rate } => {
            let x = damper_exponent_spec(f, dt);
            assert(rate.bits * dt >= 0) by (nonlinear_arith)
                requires
                    rate.bits >= 0,
                    dt >= 0,
            ;
            lemma_div_pos_is_pos(rate.bits * dt, 65536);
            lemma_exp2_neg_bounds(x);
            lemma_lerp_bracket(to, from, exp2_neg_spec(x));
        },
    }
}

/// A value already at its goal stays there, under every rule and for any
/// time step.
pub proof fn lemma_fixed_point(f: Function, v: int, dt: int)
    ensures
        execute_spec(f, v, v, dt) == v,
{
    match f {
        Function::Exact => {},
        Function::Lerp { factor } => {
            lemma_mul_frac_zero(factor.bits as int);
        },
        Function::DamperBad { damper } => {
            lemma_mul_frac_zero(clamp01_spec(mul_frac_spec(damper.bits as int, dt)));
        },
        Function::DamperExact { .. } => {
            lemma_mul_frac_zero(65536 - exp2_neg_spec(damper_exponent_spec(f, dt)));
        },
        Function::DamperExact2 { .. } => {
            lemma_mul_frac_zero(exp2_neg_spec(damper_exponent_spec(f, dt)));
        },
    }
}

/// With a zero time step every rule but `Exact` (which still snaps) and
/// `Lerp` (which blends a fixed fraction per call, whatever the step) is a
/// no-op.
pub proof fn lemma_zero_dt(f: Function, from: int, to: int)
    requires
        f.wf(),
    ensures
        !(f is Exact) && !(f is Lerp) ==> execute_spec(f, from, to, 0) == from,
{
    match f {
        Function::Exact => {},
        Function::Lerp { .. } => {},
        Function::DamperBad { damper } => {
            lemma_mul_frac_zero(damper.bits as int);
            lemma_mul_frac_zero_factor(to - from);
        },
        Function::DamperExact { half_life } => {
            lemma_basic_div(0, half_life.bits + 1);
            lemma_exp2_neg_bounds(0);
            lemma_mul_frac_zero_factor(to - from);
        },
        Function::DamperExact2 { rate } => {
            lemma_mul_frac_zero(rate.bits as int);
            lemma_exp2_neg_bounds(0);
            lemma_mul_frac_one(from - to);
        },
    }
}

/// The two parameterizations of the exact damper are the same law: whenever
/// half-life and rate correspond (they feed the decay table the same
/// exponent), the two rules return the same scalar, bit for bit.
pub proof fn lemma_damper_parameterizations_agree(
    half_life: Fx,
    rate: Fx,
    from: int,
    to: int,
    dt: int,
)
    requires
        0 <= half_life.bits,
        0 <= rate.bits,
        dt >= 0,
        damper_exponent_spec(Function::DamperExact { half_life }, dt)
            == damper_exponent_spec(Function::DamperExact2 { rate }, dt),
    ensures
        execute_spec(Function::DamperExact { half_life }, from, to, dt) == execute_spec(
            Function::DamperExact2 { rate },
            from,
            to,
            dt,
        ),
{
    let x = damper_exponent_spec(Function::DamperExact { half_life }, dt);
    lemma_div_pos_is_pos(dt * 65536, half_life.bits + 1);
    lemma_exp2_neg_bounds(x);
    lemma_lerp_complement(from, to, exp2_neg_spec(x));
}

impl Function {
    /// Evaluates the rule once: the next value of a scalar at `from`
    /// chasing `to` across a time step of `dt`.
    pub fn execute(&self, from: Fx, to: Fx, dt: Fx) -> (r: Fx)
        requires
            self.wf(),
            from.wf(),
            to.wf(),
            0 <= dt.bits <= FX_MAX,
        ensures
            r.bits == execute_spec(*self, from.bits as int, to.bits as int, dt.bits as int),
            from.bits <= to.bits ==> from.bits <= r.bits <= to.bits,
            to.bits <= from.bits ==> to.bits <= r.bits <= from.bits,
            r.wf(),
            from.bits == to.bits ==> r.bits == from.bits,
            *self is Exact ==> r.bits == to.bits,
            dt.bits == 0 && !(*self is Exact) && !(*self is Lerp) ==> r.bits == from.bits,
    {
        proof {
            lemma_execute_bracket(*self, from.bits as int, to.bits as int, dt.bits as int);
            lemma_fixed_point(*self, from.bits as int, dt.bits as int);
            lemma_zero_dt(*self, from.bits as int, to.bits as int);
        }
        match self {
            Function::Exact => to,
            Function::Lerp { factor } => crate::fixed::lerp(from, to, *factor),
            Function::DamperBad { damper } => {
                let d64: u128 = damper.bits as u128;
                let t64: u128 = dt.bits as u128;
                proof {
                    assert(d64 * t64 <= 1099511627776 * 1099511627776) by (nonlinear_arith)
                        requires
                            d64 <= 1099511627776,
                            t64 <= 1099511627776,
                    ;
                    lemma_div_pos_is_pos(d64 as int * t64 as int, 65536);
                }
                let q: u128 = (d64 * t64) / 65536;
                let t: Fx = if q >= 65536 {
                    Fx { bits: FX_ONE }
                } else {
                    Fx { bits: q as i64 }
                };
                crate::fixed::lerp(from, to, t)
            },
            Function::DamperExact { half_life } => {
                let num: u64 = (dt.bits as u64) * 65536;
                let x: u64 = num / (half_life.bits as u64 + 1);
                let s: Fx = exp2_neg(x as u128);
                crate::fixed::lerp(from, to, Fx { bits: FX_ONE - s.bits })
            },
            Function::DamperExact2 { rate } => {
                let r64: u128 = rate.bits as u128;
                let t64: u128 = dt.bits as u128;
                proof {
                    assert(r64 * t64 <= 1099511627776 * 1099511627776) by (nonlinear_arith)
                        requires
                            r64 <= 1099511627776,
                            t64 <= 1099511627776,
                    ;
                }
                let x: u128 = (r64 * t64) / 65536;
                let s: Fx = exp2_neg(x);
                crate::fixed::lerp(to, from, s)
            },
        }
    }

    /// The display name of the rule.
    pub fn name(&self) -> (r: &'static str)
        ensures
            *self is Exact ==> r@ == "Exact"@,
            *self is Lerp ==> r@ == "Lerp"@,
            *self is DamperBad ==> r@ == "DamperBad"@,
            *self is DamperExact ==> r@ == "Damper Exact"@,
            *self is DamperExact2 ==> r@ == "Damper Exact 2"@,
    {
        match self {
            Function::Exact => "Exact",
            Function::Lerp { .. } => "Lerp",
            Function::DamperBad { .. } => "DamperBad",
            Function::DamperExact { .. } => "Damper Exact",
            Function::DamperExact2 { .. } => "Damper Exact 2",
        }
    }
}

impl Default for Function {
    /// The rule a fresh selection starts on: a half blend per call.
    fn default() -> (r: Self)
        ensures
            r == (Function::Lerp { factor: Fx { bits: 32768 } }),
    {
        Function::Lerp { factor: Fx { bits: 32768 } }
    }
}

/// The roster the playground offers: one instance of every rule, each with
/// its default parameters, plus which of them is selected.
pub struct Functions {
    fns: Vec<Function>,
    selected_index: usize,
}

impl Functions {
    /// The rules on offer, in display order.
    pub closed spec fn list(self) -> Seq<Function> {
        self.fns@
    }

    /// Which entry of the roster is selected.
    pub closed spec fn selected(self) -> int {
        self.selected_index as int
    }

    /// The selection points into the roster and every entry's parameter is
    /// in range.
    pub open spec fn wf(self) -> bool {
        &&& 0 <= self.selected() < self.list().len()
        &&& forall|i: int| 0 <= i < self.list().len() ==> self.list()[i].wf()
    }

    /// The default roster: every rule once, with its default parameters,
    /// and the first entry selected.
    pub fn new() -> (r: Functions)
        ensures
            r.list().len() == 5,
            r.list()[0] == Function::Exact,
            r.list()[1] == (Function::Lerp { factor: Fx { bits: 32768 } }),
            r.list()[2] == (Function::DamperBad { damper: Fx { bits: 327680 } }),
            r.list()[3] == (Function::DamperExact { half_life: Fx { bits: 65536 } }),
            r.list()[4] == (Function::DamperExact2 { rate: Fx { bits: 65536 } }),
            r.selected() == 0,
            r.wf(),
    {
        let mut fns: Vec<Function> = Vec::new();
        fns.push(Function::Exact);
        fns.push(Function::Lerp { factor: Fx { bits: 32768 } });
        fns.push(Function::DamperBad { damper: Fx { bits: 327680 } });
        fns.push(Function::DamperExact { half_life: Fx { bits: 65536 } });
        fns.push(Function::DamperExact2 { rate: Fx { bits: 65536 } });
        Functions { fns, selected_index: 0 }
    }

    /// How many rules the roster holds.
    pub fn len(&self) -> (n: usize)
        ensures
            n == self.list().len(),
    {
        self.fns.len()
    }

    /// The rule at roster position `i`.
    pub fn get(&self, i: usize) -> (r: &Function)
        requires
            i < self.list().len(),
        ensures
            *r == self.list()[i as int],
    {
        &self.fns[i]
    }

    /// The selected rule.
    pub fn current_function(&self) -> (r: &Function)
        requires
            self.wf(),
        ensures
            *r == self.list()[self.selected()],
    {
        &self.fns[self.selected_index]
    }

    /// Selects the rule at roster position `idx`.
    pub fn select(&mut self, idx: usize)
        requires
            idx < old(self).list().len(),
        ensures
            final(self).selected() == idx,
            final(self).list() == old(self).list(),
            old(self).wf() ==> final(self).wf(),
    {
        self.selected_index = idx;
    }

    /// Replaces the selected rule, e.g. after one of its parameters was
    /// edited.
    pub fn set_current_function(&mut self, f: Function)
        requires
            old(self).wf(),
            f.wf(),
        ensures
            final(self).selected() == old(self).selected(),
            final(self).list() == old(self).list().update(old(self).selected(), f),
            final(self).wf(),
    {
        let i = self.selected_index;
        self.fns.set(i, f);
    }
}

} // verus!
