use racing_game::game_data::{CarChoice, ControlChoice, TrackChoice};
use racing_game::motion::ControlInput;
use racing_game::scenes::SceneSwitch;
use racing_game::session::{decode_controls, RaceSession, START_THRESHOLD};
use racing_game::tuning::{profile_for, resolve_profile};
use racing_game::utils::Vec2Fx;

const DT_FRAME: i64 = 60;

fn fresh_session() -> RaceSession {
    RaceSession::new(None, None, Vec2Fx { x: 360_000, y: 360_000 }, 324_000)
}

#[test]
fn new_session_is_reset() {
    let s = RaceSession::new(
        Some(TrackChoice::Track2),
        Some(CarChoice::Car3),
        Vec2Fx { x: 0, y: 0 },
        0,
    );
    assert_eq!(s.elapsed_fx, 0);
    assert!(!s.started);
    assert_eq!(s.state.speed, 0);
    assert_eq!(s.profile, profile_for(CarChoice::Car3));
    assert_eq!(s.selected_track, Some(TrackChoice::Track2));
}

#[test]
fn unset_car_selection_falls_back_to_the_default_profile() {
    let p = resolve_profile(None);
    assert_eq!(p, resolve_profile(Some(CarChoice::Car1)));
    assert_eq!(p, profile_for(CarChoice::Car1));
    // The default tuning: accelerate 200, brake 300, drag 4, top
    // speed 400, handling 120, all times the fixed-point scale.
    assert_eq!(p.accel_rate, 720_000);
    assert_eq!(p.brake_rate, 1_080_000);
    assert_eq!(p.drag_coefficient, 14_400);
    assert_eq!(p.max_speed, 1_440_000);
    assert_eq!(p.handling, 432_000);
}

#[test]
fn clock_stays_idle_while_slow_and_starts_on_the_first_fast_frame() {
    let mut s = fresh_session();
    // Coasting: speed stays zero, the clock never starts.
    s.handle_input(None, false, false, false, false);
    for _ in 0..10 {
        s.update(DT_FRAME);
        assert!(!s.started);
        assert_eq!(s.elapsed_fx, 0);
    }
    // Full throttle: after one frame the speed is 200/60 > 1, but the
    // clock gates on the speed before the step, so it starts only on
    // the frame after that.
    s.handle_input(None, true, false, false, false);
    s.update(DT_FRAME);
    assert!(!s.started);
    assert_eq!(s.elapsed_fx, 0);
    assert_eq!(s.state.speed, 12_000);
    s.update(DT_FRAME);
    assert!(s.started);
    assert_eq!(s.elapsed_fx, DT_FRAME);
}

#[test]
fn speed_exactly_at_the_threshold_does_not_start_the_clock() {
    let mut s = fresh_session();
    s.state.speed = START_THRESHOLD; // exactly 1.0: not strictly above
    s.update(0);
    assert!(!s.started);
    assert_eq!(s.elapsed_fx, 0);
    let mut s2 = fresh_session();
    s2.state.speed = START_THRESHOLD + 1;
    s2.update(0);
    assert!(s2.started);
}

#[test]
fn full_acceleration_scenario_one_second() {
    // Sixty frames of full throttle from rest at one sixtieth of a
    // second each, default profile: the golden end state of the
    // documented integration rule.
    let mut s = fresh_session();
    s.handle_input(None, true, false, false, false);
    for _ in 0..60 {
        let sw = s.update(DT_FRAME);
        assert!(matches!(sw, SceneSwitch::Stay));
        assert!(s.state.speed <= s.profile.max_speed);
    }
    assert_eq!(s.state.speed, 720_000); // approaches, never exceeds, the cap
    assert_eq!(s.state.position.y, 726_000);
    assert_eq!(s.state.position.x, 360_000);
    assert!(s.started);
    // The clock started on the second frame, so it has counted 59
    // frames.
    assert_eq!(s.elapsed_fx, 59 * DT_FRAME);
}

#[test]
fn elapsed_time_accumulates_once_started() {
    let mut s = fresh_session();
    s.started = true;
    s.update(100);
    s.update(250);
    s.update(0);
    assert_eq!(s.elapsed_fx, 350);
}

#[test]
fn keyboard_decoding_and_tie_breaks() {
    let kb = Some(ControlChoice::Keyboard);
    assert_eq!(
        decode_controls(kb, true, false, false, false),
        ControlInput { throttle: 1, steer: 0 }
    );
    assert_eq!(
        decode_controls(kb, false, true, false, false),
        ControlInput { throttle: -1, steer: 0 }
    );
    assert_eq!(
        decode_controls(kb, false, false, true, false),
        ControlInput { throttle: 0, steer: -1 }
    );
    assert_eq!(
        decode_controls(kb, false, false, false, true),
        ControlInput { throttle: 0, steer: 1 }
    );
    // Opposing keys held together: accelerate wins, left wins.
    assert_eq!(
        decode_controls(kb, true, true, true, true),
        ControlInput { throttle: 1, steer: -1 }
    );
    assert_eq!(
        decode_controls(kb, false, false, false, false),
        ControlInput { throttle: 0, steer: 0 }
    );
}

#[test]
fn unset_scheme_defaults_to_keyboard_decoding() {
    assert_eq!(
        decode_controls(None, true, false, false, true),
        ControlInput { throttle: 1, steer: 1 }
    );
}

#[test]
fn controller_scheme_decodes_to_neutral_input() {
    assert_eq!(
        decode_controls(Some(ControlChoice::Controller), true, true, true, true),
        ControlInput { throttle: 0, steer: 0 }
    );
}

#[test]
fn handle_input_stores_the_decoded_input_and_stays() {
    let mut s = fresh_session();
    let sw = s.handle_input(Some(ControlChoice::Keyboard), false, true, false, true);
    assert!(matches!(sw, SceneSwitch::Stay));
    assert_eq!(s.input, ControlInput { throttle: -1, steer: 1 });
    assert_eq!(s.elapsed_fx, 0);
    assert!(!s.started);
}
