use smoothing_playground::fixed::Fx;
use smoothing_playground::history::History;
use smoothing_playground::simulator::{simulate, CompareSettings, LiveSim, Simulation, MAX_HISTORY};
use smoothing_playground::smoothing::Function;

// Two seconds at sixty frames per second is exactly 120 steps, so the
// trajectory holds 121 points and opens with the configured start.
#[test]
fn compare_step_count() {
    let f = Function::Lerp { factor: Fx::from_bits(32768) };
    let values = simulate(
        Fx::from_units(2),
        Fx::from_units(60),
        Fx::from_bits(655360),
        Fx::from_bits(0),
        &f,
    );
    assert_eq!(values.len(), 121);
    assert_eq!(values[0].bits, 655360);
    // A half blend per step: 10.0 units, halved, floor, every step.
    assert_eq!(values[1].bits, 327680);
    assert_eq!(values[2].bits, 163840);
    assert_eq!(values[17].bits, 5);
    assert_eq!(values[120].bits, 0);
}

// A duration shorter than one frame period rounds down to zero steps: the
// trajectory is the single start point and nothing goes out of bounds.
#[test]
fn degenerate_run_keeps_the_start_point() {
    let f = Function::Lerp { factor: Fx::from_bits(32768) };
    // 0.05 seconds at 10 fps: the frame period is 0.1 seconds.
    let values = simulate(
        Fx::from_bits(3276),
        Fx::from_units(10),
        Fx::from_bits(4242),
        Fx::from_bits(0),
        &f,
    );
    assert_eq!(values.len(), 1);
    assert_eq!(values[0].bits, 4242);
}

// The frame-rate-dependence anti-property: the deliberately naive rules,
// run over the same simulated duration at two frame rates, end far apart.
#[test]
fn lerp_is_frame_rate_dependent() {
    let f = Function::Lerp { factor: Fx::from_bits(32768) };
    let start = Fx::from_bits(655360);
    let goal = Fx::from_bits(0);
    let duration = Fx::from_bits(6553);  // about a tenth of a second
    let fast = simulate(duration, Fx::from_units(60), start, goal, &f);
    let slow = simulate(duration, Fx::from_units(15), start, goal, &f);
    // Six half-steps against one.
    assert_eq!(fast.len(), 7);
    assert_eq!(slow.len(), 2);
    let fast_final = fast[fast.len() - 1].bits;
    let slow_final = slow[slow.len() - 1].bits;
    assert_eq!(fast_final, 10240);
    assert_eq!(slow_final, 327680);
    assert!((fast_final - slow_final).abs() > 655);
}

#[test]
fn damper_bad_is_frame_rate_dependent() {
    let f = Function::DamperBad { damper: Fx::from_bits(327680) };
    let start = Fx::from_bits(655360);
    let goal = Fx::from_bits(0);
    let duration = Fx::from_bits(6553);
    let fast = simulate(duration, Fx::from_units(60), start, goal, &f);
    let slow = simulate(duration, Fx::from_units(15), start, goal, &f);
    let fast_final = fast[fast.len() - 1].bits;
    let slow_final = slow[slow.len() - 1].bits;
    assert!((fast_final - slow_final).abs() > 655);
}

// The rate-independence equivalence: with a half-life and a rate that
// correspond for the time step in use, the two exact dampers trace
// identical trajectories -- here bit for bit, across sixty steps.
#[test]
fn damper_parameterizations_trace_the_same_trajectory() {
    // half_life + one bit == 1.0 exactly, and rate == 1.0: both feed the
    // decay table the exponent dt.
    let exact = Function::DamperExact { half_life: Fx::from_bits(65535) };
    let exact2 = Function::DamperExact2 { rate: Fx::from_bits(65536) };
    let start = Fx::from_bits(0);
    let goal = Fx::from_bits(655360);
    let duration = Fx::from_units(1);
    let a = simulate(duration, Fx::from_units(60), start, goal, &exact);
    let b = simulate(duration, Fx::from_units(60), start, goal, &exact2);
    assert_eq!(a.len(), 61);
    assert_eq!(b.len(), 61);
    for i in 0..a.len() {
        assert_eq!(a[i].bits, b[i].bits);
    }
}

// The exact dampers, unlike the naive rules, land near the same place at
// any frame rate over the same simulated duration.
#[test]
fn damper_exact_is_nearly_frame_rate_independent() {
    let f = Function::DamperExact { half_life: Fx::from_bits(16384) };
    let start = Fx::from_bits(655360);
    let goal = Fx::from_bits(0);
    let duration = Fx::from_units(2);
    let fast = simulate(duration, Fx::from_units(60), start, goal, &f);
    let slow = simulate(duration, Fx::from_units(15), start, goal, &f);
    let fast_final = fast[fast.len() - 1].bits;
    let slow_final = slow[slow.len() - 1].bits;
    // Within a hundredth of a unit of each other.
    assert!((fast_final - slow_final).abs() < 655);
}

#[test]
fn compare_settings_defaults() {
    let s: CompareSettings = Default::default();
    assert_eq!(s.first_framerate.bits, 60 * 65536);
    assert_eq!(s.second_framerate.bits, 15 * 65536);
    assert_eq!(s.simulating_time.bits, 2 * 65536);
}

// Mode equality goes by the mode alone, never by the settings inside.
#[test]
fn simulation_modes_compare_by_discriminant() {
    let live = Simulation::Live;
    let a = Simulation::Compare { settings: Default::default() };
    let mut custom: CompareSettings = Default::default();
    custom.simulating_time = Fx::from_units(5);
    let b = Simulation::Compare { settings: custom };
    assert!(live == Simulation::Live);
    assert!(a == b);
    assert!(!(live == a));
    assert_eq!(live.name(), "Live");
    assert_eq!(a.name(), "Compare");
}

#[test]
fn mode_switches_reset_and_discard_settings() {
    let mut sim = Simulation::Live;
    sim.switch_to_compare();
    match sim {
        Simulation::Compare { settings } => {
            assert_eq!(settings.first_framerate.bits, 3932160);
            assert_eq!(settings.second_framerate.bits, 983040);
            assert_eq!(settings.simulating_time.bits, 131072);
        }
        Simulation::Live => panic!("expected compare mode"),
    }
    sim.switch_to_live();
    assert!(matches!(sim, Simulation::Live));
}

// After 300 live ticks the ring still holds exactly its capacity of
// values, newest first, and every pre-fill value has been evicted.
#[test]
fn history_ring_evicts_the_oldest() {
    let mut h = History::new(240, Fx::from_bits(7));
    assert_eq!(h.len(), 240);
    for i in 0..300i64 {
        h.push(Fx::from_bits(1000 + i));
    }
    assert_eq!(h.len(), 240);
    assert_eq!(h.get(0).bits, 1299);
    assert_eq!(h.get(239).bits, 1060);
    for i in 0..240 {
        assert_ne!(h.get(i).bits, 7);
    }
}

#[test]
fn live_session_steps_and_traces() {
    let mut sim = LiveSim::new(Fx::from_bits(6553600));
    assert_eq!(sim.value.bits, 6553600);
    assert_eq!(sim.goal.bits, 6553600);
    assert_eq!(sim.trace().len(), MAX_HISTORY);
    assert_eq!(sim.trace().get(120).bits, 6553600);

    sim.set_goal(Fx::from_bits(0));
    let f = Function::Lerp { factor: Fx::from_bits(32768) };
    sim.tick(&f, Fx::from_bits(1092));
    assert_eq!(sim.value.bits, 3276800);
    assert_eq!(sim.trace().get(0).bits, 3276800);
    assert_eq!(sim.trace().get(1).bits, 6553600);

    // A zero step under a damper leaves the value alone but still records
    // a trace point.
    let d = Function::DamperExact { half_life: Fx::from_bits(65536) };
    sim.tick(&d, Fx::from_bits(0));
    assert_eq!(sim.value.bits, 3276800);
    assert_eq!(sim.trace().get(0).bits, 3276800);
    assert_eq!(sim.trace().get(1).bits, 3276800);
    assert_eq!(sim.trace().get(2).bits, 6553600);
}
