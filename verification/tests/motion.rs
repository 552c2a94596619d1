use racing_game::fixed::SCALE;
use racing_game::motion::{step, ControlInput, KinematicState, DT_LIMIT};
use racing_game::trig::{cos_fx, sin_fx, DEG180, DEG360, DEG90};
use racing_game::tuning::{profile_for, resolve_profile, CarTuningProfile};
use racing_game::game_data::CarChoice;
use racing_game::utils::Vec2Fx;

fn default_profile() -> CarTuningProfile {
    resolve_profile(None)
}

fn state(x: i64, y: i64, heading: i64, speed: i64) -> KinematicState {
    KinematicState {
        position: Vec2Fx { x, y },
        heading_degrees: heading,
        speed,
    }
}

const DT_FRAME: i64 = 60; // one sixtieth of a second, fixed point

#[test]
fn zero_dt_changes_nothing() {
    let p = default_profile();
    let s = state(123, -456, 324_000, 720_000);
    let input = ControlInput { throttle: 1, steer: -1 };
    let next = step(s, &p, &input, 0);
    assert_eq!(next, s);
}

#[test]
fn zero_dt_changes_nothing_for_every_car() {
    for car in [CarChoice::Car1, CarChoice::Car2, CarChoice::Car3, CarChoice::Car4] {
        let p = profile_for(car);
        let s = state(10_000, 20_000, 0, -p.max_speed / 2);
        let input = ControlInput { throttle: -1, steer: 1 };
        assert_eq!(step(s, &p, &input, 0), s);
    }
}

#[test]
fn full_throttle_one_second_reaches_two_hundred() {
    // Full acceleration from rest for exactly one second at sixty
    // frames per second, default profile: the speed integrates to
    // exactly 200 units per second, well under the 400 cap, and the
    // car, facing ninety degrees, has moved along y only.
    let p = default_profile();
    let mut s = state(360_000, 360_000, 324_000, 0);
    let input = ControlInput { throttle: 1, steer: 0 };
    for _ in 0..60 {
        s = step(s, &p, &input, DT_FRAME);
        assert!(s.speed <= p.max_speed);
    }
    assert_eq!(s.speed, 720_000); // 200.0
    assert_eq!(s.heading_degrees, 324_000); // unchanged
    assert_eq!(s.position.x, 360_000); // unchanged
    assert_eq!(s.position.y, 726_000); // 201.666... units
}

#[test]
fn speed_never_exceeds_clamp_even_for_huge_dt() {
    let p = default_profile();
    let input = ControlInput { throttle: 1, steer: 0 };
    let s = step(state(0, 0, 0, 0), &p, &input, DT_LIMIT);
    assert_eq!(s.speed, p.max_speed); // 1_440_000, clamped
    assert_eq!(s.position.x, 86_400_000);
    assert_eq!(s.position.y, 0);
}

#[test]
fn reverse_is_capped_at_half_of_top_speed() {
    let p = default_profile();
    let input = ControlInput { throttle: -1, steer: 0 };
    let s = step(state(0, 0, 0, 0), &p, &input, DT_LIMIT);
    assert_eq!(s.speed, -p.max_speed / 2); // -720_000
}

#[test]
fn drag_decays_speed_toward_zero_without_overshoot() {
    // Coasting from speed 100 under the default profile's drag of 4
    // per second: each frame removes a fifteenth, monotonically, and
    // the sign never flips.
    let p = default_profile();
    let mut s = state(0, 0, 0, 360_000);
    let input = ControlInput { throttle: 0, steer: 0 };
    let mut previous = s.speed;
    for _ in 0..60 {
        s = step(s, &p, &input, DT_FRAME);
        assert!(s.speed >= 0);
        assert!(s.speed <= previous);
        previous = s.speed;
    }
    assert_eq!(s.speed, 5_742);
}

#[test]
fn drag_first_steps_match_the_formula() {
    let p = default_profile();
    let input = ControlInput { throttle: 0, steer: 0 };
    let s0 = state(0, 0, 0, 360_000);
    let s1 = step(s0, &p, &input, DT_FRAME);
    assert_eq!(s1.speed, 336_000); // 360000 - 360000/15
    let s2 = step(s1, &p, &input, DT_FRAME);
    assert_eq!(s2.speed, 313_600);
    let s3 = step(s2, &p, &input, DT_FRAME);
    assert_eq!(s3.speed, 292_694); // truncated toward zero
}

#[test]
fn drag_decay_from_reverse_keeps_sign() {
    let p = default_profile();
    let mut s = state(0, 0, 0, -360_000);
    let input = ControlInput { throttle: 0, steer: 0 };
    let mut previous = s.speed;
    for _ in 0..200 {
        s = step(s, &p, &input, DT_FRAME);
        assert!(s.speed <= 0);
        assert!(s.speed >= previous);
        previous = s.speed;
    }
}

#[test]
fn heading_wraps_below_zero() {
    // Steering left while stationary: the floored steering authority
    // still turns the car, and the heading wraps into [0, 360).
    let p = default_profile();
    let input = ControlInput { throttle: 0, steer: -1 };
    let s = step(state(0, 0, 0, 0), &p, &input, DT_FRAME);
    assert_eq!(s.heading_degrees, 1_293_120); // -0.8 degrees, wrapped
}

#[test]
fn heading_stays_normalized_over_a_long_left_turn() {
    let p = default_profile();
    let input = ControlInput { throttle: 0, steer: -1 };
    let mut s = state(0, 0, 0, 0);
    for _ in 0..1_001 {
        s = step(s, &p, &input, DT_FRAME);
        assert!(0 <= s.heading_degrees && s.heading_degrees < DEG360);
    }
    assert_eq!(s.heading_degrees, 1_005_120);
}

#[test]
fn clamp_holds_for_every_profile_under_random_like_inputs() {
    // A fixed pattern of throttle and steering over every car class:
    // the asymmetric speed clamp and the heading wrap hold after every
    // single step.
    for car in [CarChoice::Car1, CarChoice::Car2, CarChoice::Car3, CarChoice::Car4] {
        let p = profile_for(car);
        let mut s = state(0, 0, 0, 0);
        for i in 0..500i64 {
            let input = ControlInput {
                throttle: [1, 1, -1, 0, 1][(i % 5) as usize],
                steer: [0, -1, 1, 1, -1][(i % 5) as usize],
            };
            s = step(s, &p, &input, 60 + (i % 7) * 100);
            assert!(-p.max_speed / 2 <= s.speed && s.speed <= p.max_speed);
            assert!(0 <= s.heading_degrees && s.heading_degrees < DEG360);
        }
    }
}

#[test]
fn responsive_car_hits_its_lower_top_speed_quickly() {
    // Car 3 accelerates at 500 toward a top speed of only 200: at
    // sixty frames per second it gains 500/60 per frame and caps on
    // frame 24.
    let p = profile_for(CarChoice::Car3);
    let mut s = state(0, 0, 0, 0);
    let input = ControlInput { throttle: 1, steer: 0 };
    for _ in 0..23 {
        s = step(s, &p, &input, DT_FRAME);
        assert!(s.speed < p.max_speed);
    }
    s = step(s, &p, &input, DT_FRAME);
    assert_eq!(s.speed, p.max_speed); // 720_000
}

#[test]
fn trig_matches_the_exact_points_of_the_approximation() {
    // Bhaskara's approximation is exact at 0, 30, 90, 150 and 180
    // degrees.
    assert_eq!(sin_fx(0), 0);
    assert_eq!(sin_fx(108_000), 1_800); // sin 30 = 0.5
    assert_eq!(sin_fx(DEG90), SCALE); // sin 90 = 1
    assert_eq!(sin_fx(540_000), 1_800); // sin 150 = 0.5
    assert_eq!(sin_fx(DEG180 + DEG90), -SCALE); // sin 270 = -1
    assert_eq!(cos_fx(0), SCALE); // cos 0 = 1
    assert_eq!(cos_fx(DEG90), 0);
    assert_eq!(cos_fx(DEG180), -SCALE);
    assert_eq!(cos_fx(216_000), 1_800); // cos 60 = 0.5
}
