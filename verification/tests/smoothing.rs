use smoothing_playground::fixed::{lerp, mul_frac, Fx, FX_ONE};
use smoothing_playground::smoothing::{Function, Functions};

// One fixed-point unit is 65536 bits; 32768 bits is one half.

#[test]
fn fixed_point_construction() {
    assert_eq!(Fx::from_bits(123).bits, 123);
    assert_eq!(Fx::from_units(3).bits, 3 * 65536);
    assert_eq!(Fx::from_units(-2).bits, -131072);
    assert_eq!(FX_ONE, 65536);
}

#[test]
fn mul_frac_rounds_toward_negative_infinity() {
    // Half of three rounds down to one; half of minus three rounds down to
    // minus two.
    assert_eq!(mul_frac(Fx::from_bits(32768), Fx::from_bits(3)).bits, 1);
    assert_eq!(mul_frac(Fx::from_bits(32768), Fx::from_bits(-3)).bits, -2);
    // A factor of one hands the difference back unchanged.
    assert_eq!(mul_frac(Fx::from_bits(65536), Fx::from_bits(-12345)).bits, -12345);
    // A factor of zero yields zero.
    assert_eq!(mul_frac(Fx::from_bits(0), Fx::from_bits(98765)).bits, 0);
}

#[test]
fn lerp_endpoints_and_midpoint() {
    let a = Fx::from_bits(0);
    let b = Fx::from_bits(65536);
    assert_eq!(lerp(a, b, Fx::from_bits(0)).bits, 0);
    assert_eq!(lerp(a, b, Fx::from_bits(65536)).bits, 65536);
    assert_eq!(lerp(a, b, Fx::from_bits(32768)).bits, 32768);
    // Toward a lower target.
    assert_eq!(lerp(b, a, Fx::from_bits(32768)).bits, 32768);
}

// A value already at its goal stays there, for every rule and for time
// steps of 0, about 0.001, 1 and 1000 seconds.
#[test]
fn fixed_point_of_every_rule() {
    let rules = [
        Function::Exact,
        Function::Lerp { factor: Fx::from_bits(32768) },
        Function::DamperBad { damper: Fx::from_bits(327680) },
        Function::DamperExact { half_life: Fx::from_bits(65536) },
        Function::DamperExact2 { rate: Fx::from_bits(65536) },
    ];
    let dts = [0i64, 66, 65536, 65536000];
    for f in rules.iter() {
        for &dt in dts.iter() {
            for &v in [0i64, 12345, -98765].iter() {
                let r = f.execute(Fx::from_bits(v), Fx::from_bits(v), Fx::from_bits(dt));
                assert_eq!(r.bits, v);
            }
        }
    }
}

// The exact rule jumps fully to the target for any inputs.
#[test]
fn exact_rule_snaps() {
    let f = Function::Exact;
    for &(a, b, dt) in [(0i64, 65536i64, 0i64), (-5000, 7777, 1092), (123, 123, 65536)].iter() {
        assert_eq!(f.execute(Fx::from_bits(a), Fx::from_bits(b), Fx::from_bits(dt)).bits, b);
    }
}

#[test]
fn lerp_rule_blends_fixed_fraction() {
    let f = Function::Lerp { factor: Fx::from_bits(32768) };
    // A half blend per call, whatever the time step -- even zero.
    assert_eq!(f.execute(Fx::from_bits(0), Fx::from_bits(65536), Fx::from_bits(1092)).bits, 32768);
    assert_eq!(f.execute(Fx::from_bits(0), Fx::from_bits(65536), Fx::from_bits(0)).bits, 32768);
}

#[test]
fn damper_bad_blends_damper_times_dt() {
    let f = Function::DamperBad { damper: Fx::from_bits(327680) };
    // damper 5.0 at a sixtieth of a second (1092 bits): factor 5460 bits.
    assert_eq!(f.execute(Fx::from_bits(0), Fx::from_bits(65536), Fx::from_bits(1092)).bits, 5460);
    // A big step saturates the factor at one and snaps to the target.
    assert_eq!(f.execute(Fx::from_bits(0), Fx::from_bits(65536), Fx::from_bits(65536)).bits, 65536);
}

#[test]
fn damper_exact_halves_the_gap_over_one_half_life() {
    let f = Function::DamperExact { half_life: Fx::from_bits(65536) };
    let r = f.execute(Fx::from_bits(0), Fx::from_bits(65536), Fx::from_bits(65536));
    assert_eq!(r.bits, 32768);
}

#[test]
fn damper_exact2_halves_the_gap_at_unit_rate() {
    let f = Function::DamperExact2 { rate: Fx::from_bits(65536) };
    let r = f.execute(Fx::from_bits(0), Fx::from_bits(65536), Fx::from_bits(65536));
    assert_eq!(r.bits, 32768);
}

// With a zero time step every rule but Exact (which snaps) and Lerp (which
// blends a fixed fraction per call) leaves the value in place.
#[test]
fn zero_dt_is_a_no_op_for_the_dampers() {
    let from = Fx::from_bits(1000);
    let to = Fx::from_bits(50000);
    let zero = Fx::from_bits(0);
    let rules = [
        Function::DamperBad { damper: Fx::from_bits(327680) },
        Function::DamperExact { half_life: Fx::from_bits(65536) },
        Function::DamperExact2 { rate: Fx::from_bits(65536) },
    ];
    for f in rules.iter() {
        assert_eq!(f.execute(from, to, zero).bits, 1000);
    }
}

// Repeated evaluation of the exact dampers with a fixed positive time step
// is monotone, never overshoots, and closes most of the gap.
#[test]
fn damper_exact_converges_monotonically() {
    let goal = Fx::from_bits(65536);
    let dt = Fx::from_bits(1092);
    for f in [
        Function::DamperExact { half_life: Fx::from_bits(16384) },
        Function::DamperExact2 { rate: Fx::from_bits(262144) },
    ]
    .iter()
    {
        let mut current = Fx::from_bits(0);
        for _ in 0..100 {
            let next = f.execute(current, goal, dt);
            assert!(next.bits >= current.bits);
            assert!(next.bits <= goal.bits);
            current = next;
        }
        assert!(current.bits > 60000);
    }
    // And symmetrically from above.
    let f = Function::DamperExact { half_life: Fx::from_bits(16384) };
    let mut current = Fx::from_bits(131072);
    for _ in 0..100 {
        let next = f.execute(current, goal, dt);
        assert!(next.bits <= current.bits);
        assert!(next.bits >= goal.bits);
        current = next;
    }
    assert!(current.bits < 70000);
}

#[test]
fn rule_names() {
    assert_eq!(Function::Exact.name(), "Exact");
    assert_eq!(Function::Lerp { factor: Fx::from_bits(1) }.name(), "Lerp");
    assert_eq!(Function::DamperBad { damper: Fx::from_bits(1) }.name(), "DamperBad");
    assert_eq!(Function::DamperExact { half_life: Fx::from_bits(1) }.name(), "Damper Exact");
    assert_eq!(Function::DamperExact2 { rate: Fx::from_bits(1) }.name(), "Damper Exact 2");
}

#[test]
fn default_rule_is_a_half_lerp() {
    let f: Function = Default::default();
    assert_eq!(f, Function::Lerp { factor: Fx::from_bits(32768) });
}

#[test]
fn roster_offers_every_rule_and_tracks_selection() {
    let mut fns = Functions::new();
    assert_eq!(fns.len(), 5);
    assert_eq!(*fns.current_function(), Function::Exact);
    assert_eq!(*fns.get(2), Function::DamperBad { damper: Fx::from_bits(327680) });
    fns.select(3);
    assert_eq!(
        *fns.current_function(),
        Function::DamperExact { half_life: Fx::from_bits(65536) }
    );
    fns.set_current_function(Function::DamperExact { half_life: Fx::from_bits(16384) });
    assert_eq!(
        *fns.current_function(),
        Function::DamperExact { half_life: Fx::from_bits(16384) }
    );
    assert_eq!(*fns.get(0), Function::Exact);
}
