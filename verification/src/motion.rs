//! The vehicle motion model: a pure per-frame kinematic integrator over
//! fixed-point state. One call advances speed (acceleration or braking,
//! coasting drag, asymmetric clamping), heading (speed-dependent steering
//! authority, wrapped into a full turn) and position (integration along
//! the heading vector).

use vstd::prelude::*;

use crate::fixed::{clamp_i64, div_trunc, mod_euclid, spec_clamp, tdiv, SCALE, SCALE_SQ};
use crate::trig::{cos_fx, sin_fx, spec_cos_fx, spec_sin_fx, DEG360};
use crate::tuning::{wf_profile, CarTuningProfile, RATE_LIMIT, SPEED_LIMIT};
use crate::utils::Vec2Fx;

verus! {

/// Positions are kept inside this bound (one billion screen units,
/// fixed point); integration saturates at the edge of that playfield.
pub const POS_LIMIT: i64 = 3_600_000_000_000;

/// Largest frame time the integrator accepts: one minute, fixed point.
/// Frame times are externally supplied wall-clock deltas, orders of
/// magnitude below this; the bound only keeps the integration inside
/// machine integers.
pub const DT_LIMIT: i64 = 216_000;

/// Floor of the speed-dependent steering authority (0.4, fixed point):
/// the car keeps some steering authority even near-stationary.
pub const SPEED_FACTOR_FLOOR: i64 = 1_440;

/// The kinematic state of one vehicle: where it is, which way it faces
/// (scaled degrees, normalized into `[0, DEG360)`), and how fast it
/// moves (signed; negative is reverse).
#[derive(Copy, Clone, Debug, PartialEq, Eq, Structural)]
pub struct KinematicState {
    pub position: Vec2Fx,
    pub heading_degrees: i64,
    pub speed: i64,
}

/// One frame of control input: `throttle` is +1 to accelerate, -1 to
/// brake, 0 to coast; `steer` is -1 for left, +1 for right, 0 for
/// straight.
#[derive(Copy, Clone, Debug, PartialEq, Eq, Structural)]
pub struct ControlInput {
    pub throttle: i64,
    pub steer: i64,
}

/// Control inputs are signed unit values.
pub open spec fn wf_input(c: ControlInput) -> bool {
    &&& -1 <= c.throttle <= 1
    &&& -1 <= c.steer <= 1
}

/// The reverse speed cap: half the forward top speed. The asymmetry is
/// deliberate.
pub open spec fn spec_reverse_cap(p: CarTuningProfile) -> int {
    p.max_speed / 2
}

/// The state invariant the integrator maintains: speed within the
/// profile's asymmetric bounds, heading normalized, position inside the
/// playfield.
pub open spec fn wf_state(s: KinematicState, p: CarTuningProfile) -> bool {
    &&& -spec_reverse_cap(p) <= s.speed <= p.max_speed
    &&& 0 <= s.heading_degrees < DEG360
    &&& -POS_LIMIT <= s.position.x <= POS_LIMIT
    &&& -POS_LIMIT <= s.position.y <= POS_LIMIT
}

/// Magnitude of a signed value.
pub open spec fn spec_abs(v: int) -> int {
    if v >= 0 {
        v
    } else {
        -v
    }
}

/// Raw acceleration for one frame: the profile's acceleration rate under
/// throttle, the negated braking rate under brake, zero when coasting.
pub open spec fn spec_accel(p: CarTuningProfile, c: ControlInput) -> int {
    if c.throttle > 0 {
        p.accel_rate as int
    } else if c.throttle < 0 {
        -(p.brake_rate as int)
    } else {
        0
    }
}

/// Speed after one frame: integrate the raw acceleration; when coasting,
/// bleed off drag proportional to speed; clamp into
/// `[-max_speed / 2, max_speed]`.
pub open spec fn spec_speed_after(
    s: KinematicState,
    p: CarTuningProfile,
    c: ControlInput,
    dt: i64,
) -> int {
    let a = spec_accel(p, c);
    let v1 = s.speed + tdiv(a * dt, SCALE as int);
    let v2 = if a == 0 {
        v1 - tdiv((v1 * p.drag_coefficient) * dt, SCALE_SQ as int)
    } else {
        v1
    };
    spec_clamp(v2, -spec_reverse_cap(p), p.max_speed as int)
}

/// Steering authority for a given (already clamped) speed: the ratio of
/// speed to top speed, floored at `SPEED_FACTOR_FLOOR` and capped at one.
pub open spec fn spec_speed_factor(v: int, p: CarTuningProfile) -> int {
    spec_clamp(
        tdiv(spec_abs(v) * SCALE, p.max_speed as int),
        SPEED_FACTOR_FLOOR as int,
        SCALE as int,
    )
}

/// Heading after one frame: turn by steering authority times the
/// profile's handling, scaled by the frame time, normalized into a full
/// turn.
pub open spec fn spec_heading_after(
    s: KinematicState,
    p: CarTuningProfile,
    c: ControlInput,
    dt: i64,
) -> int {
    let v = spec_speed_after(s, p, c, dt);
    let f = spec_speed_factor(v, p);
    (s.heading_degrees + tdiv(((c.steer * p.handling) * f) * dt, SCALE_SQ as int)) % (
    DEG360 as int)
}

/// Position after one frame: advance along the new heading's unit vector
/// by the new speed times the frame time, saturating at the playfield
/// edge.
pub open spec fn spec_position_after(
    s: KinematicState,
    p: CarTuningProfile,
    c: ControlInput,
    dt: i64,
) -> Vec2Fx {
    let v = spec_speed_after(s, p, c, dt);
    let h = spec_heading_after(s, p, c, dt);
    Vec2Fx {
        x: spec_clamp(
            s.position.x + tdiv((spec_cos_fx(h) * v) * dt, SCALE_SQ as int),
            -POS_LIMIT as int,
            POS_LIMIT as int,
        ) as i64,
        y: spec_clamp(
            s.position.y + tdiv((spec_sin_fx(h) * v) * dt, SCALE_SQ as int),
            -POS_LIMIT as int,
            POS_LIMIT as int,
        ) as i64,
    }
}

/// The full per-frame transform; `step` computes exactly this.
pub open spec fn spec_step(
    s: KinematicState,
    p: CarTuningProfile,
    c: ControlInput,
    dt: i64,
) -> KinematicState {
    KinematicState {
        position: spec_position_after(s, p, c, dt),
        heading_degrees: spec_heading_after(s, p, c, dt) as i64,
        speed: spec_speed_after(s, p, c, dt) as i64,
    }
}

/// The integrator leaves every state well formed, whatever the inputs.
pub proof fn lemma_step_preserves_wf(
    s: KinematicState,
    p: CarTuningProfile,
    c: ControlInput,
    dt: i64,
)
    requires
        wf_profile(p),
    ensures
        wf_state(spec_step(s, p, c, dt), p),
{
    vstd::arithmetic::div_mod::lemma_mod_division_less_than_divisor(
        s.heading_degrees + tdiv(
            ((c.steer * p.handling) * spec_speed_factor(spec_speed_after(s, p, c, dt), p))
                * dt,
            SCALE_SQ as int,
        ),
        DEG360 as int,
    );
}

/// Law: a zero frame time changes nothing. For every well-formed state,
/// profile and input, `step` with `dt == 0` returns the state unchanged.
pub proof fn lemma_step_identity_at_zero_dt(
    s: KinematicState,
    p: CarTuningProfile,
    c: ControlInput,
)
    requires
        wf_profile(p),
        wf_input(c),
        wf_state(s, p),
    ensures
        spec_step(s, p, c, 0) == s,
{
    let a = spec_accel(p, c);
    assert(a * 0 == 0);
    assert(tdiv(0, SCALE as int) == 0);
    assert(spec_speed_after(s, p, c, 0) == s.speed);
    assert(tdiv(0, SCALE_SQ as int) == 0);
    assert(((c.steer * p.handling) * spec_speed_factor(s.speed as int, p)) * 0 == 0);
    vstd::arithmetic::div_mod::lemma_small_mod(s.heading_degrees as nat, DEG360 as nat);
    assert(spec_heading_after(s, p, c, 0) == s.heading_degrees);
    assert((spec_cos_fx(s.heading_degrees as int) * (s.speed as int)) * 0 == 0);
    assert((spec_sin_fx(s.heading_degrees as int) * (s.speed as int)) * 0 == 0);
    assert(spec_position_after(s, p, c, 0) == s.position);
}

/// Law: drag-only decay. Under neutral throttle, and a frame short
/// enough that the drag fraction `drag_coefficient * dt` does not exceed
/// one (fixed point), the new speed keeps its sign and moves toward
/// zero: the magnitude never grows and never overshoots.
pub proof fn lemma_drag_decay(s: KinematicState, p: CarTuningProfile, c: ControlInput, dt: i64)
    requires
        wf_profile(p),
        wf_input(c),
        wf_state(s, p),
        c.throttle == 0,
        0 <= dt,
        p.drag_coefficient * dt <= SCALE_SQ,
    ensures
        s.speed >= 0 ==> 0 <= spec_step(s, p, c, dt).speed <= s.speed,
        s.speed <= 0 ==> s.speed <= spec_step(s, p, c, dt).speed <= 0,
        s.speed >= 0 && (s.speed * p.drag_coefficient) * dt >= SCALE_SQ ==> spec_step(
            s,
            p,
            c,
            dt,
        ).speed < s.speed,
        s.speed <= 0 && (s.speed * p.drag_coefficient) * dt <= -SCALE_SQ ==> spec_step(
            s,
            p,
            c,
            dt,
        ).speed > s.speed,
{
    let a = spec_accel(p, c);
    assert(a == 0);
    assert(a * dt == 0);
    assert(tdiv(0, SCALE as int) == 0);
    let v = s.speed as int;
    let prod = (v * p.drag_coefficient) * dt;
    let delta = tdiv(prod, SCALE_SQ as int);
    if s.speed >= 0 {
        assert(0 <= prod <= v * SCALE_SQ) by (nonlinear_arith)
            requires
                prod == (v * p.drag_coefficient) * dt,
                0 <= v,
                0 <= p.drag_coefficient,
                0 <= dt,
                p.drag_coefficient * dt <= SCALE_SQ,
        ;
        vstd::arithmetic::div_mod::lemma_div_pos_is_pos(prod, SCALE_SQ as int);
        vstd::arithmetic::div_mod::lemma_div_is_ordered(
            prod,
            (SCALE_SQ as int) * v,
            SCALE_SQ as int,
        );
        vstd::arithmetic::div_mod::lemma_div_multiples_vanish(v, SCALE_SQ as int);
        assert(0 <= delta <= v);
        if prod >= SCALE_SQ {
            vstd::arithmetic::div_mod::lemma_div_is_ordered(SCALE_SQ as int, prod, SCALE_SQ as int);
            vstd::arithmetic::div_mod::lemma_div_by_self(SCALE_SQ as int);
            assert(delta >= 1);
        }
    } else {
        assert(0 <= -prod <= (-v) * SCALE_SQ) by (nonlinear_arith)
            requires
                prod == (v * p.drag_coefficient) * dt,
                v < 0,
                0 <= p.drag_coefficient,
                0 <= dt,
                p.drag_coefficient * dt <= SCALE_SQ,
        ;
        vstd::arithmetic::div_mod::lemma_div_pos_is_pos(-prod, SCALE_SQ as int);
        vstd::arithmetic::div_mod::lemma_div_is_ordered(
            -prod,
            (SCALE_SQ as int) * (-v),
            SCALE_SQ as int,
        );
        vstd::arithmetic::div_mod::lemma_div_multiples_vanish(-v, SCALE_SQ as int);
        assert(v <= delta <= 0);
        if prod <= -SCALE_SQ {
            vstd::arithmetic::div_mod::lemma_div_is_ordered(
                SCALE_SQ as int,
                -prod,
                SCALE_SQ as int,
            );
            vstd::arithmetic::div_mod::lemma_div_by_self(SCALE_SQ as int);
            assert(delta <= -1);
        }
    }
}

/// The state after running a whole sequence of frames, first frame
/// first; each frame pairs a control input with its elapsed time.
pub open spec fn spec_run_steps(
    s: KinematicState,
    p: CarTuningProfile,
    frames: Seq<(ControlInput, i64)>,
) -> KinematicState
    decreases frames.len(),
{
    if frames.len() == 0 {
        s
    } else {
        spec_run_steps(spec_step(s, p, frames.first().0, frames.first().1), p, frames.drop_first())
    }
}

/// Law: drag-only decay over a whole run. Under neutral throttle on
/// every frame, each short enough that its drag fraction does not exceed
/// one, the speed's sign is preserved and its magnitude never grows.
pub proof fn lemma_drag_decay_run(
    s: KinematicState,
    p: CarTuningProfile,
    frames: Seq<(ControlInput, i64)>,
)
    requires
        wf_profile(p),
        wf_state(s, p),
        forall|k: int|
            0 <= k < frames.len() ==> {
                &&& wf_input((#[trigger] frames[k]).0)
                &&& frames[k].0.throttle == 0
                &&& 0 <= frames[k].1
                &&& p.drag_coefficient * frames[k].1 <= SCALE_SQ
            },
    ensures
        s.speed >= 0 ==> 0 <= spec_run_steps(s, p, frames).speed <= s.speed,
        s.speed <= 0 ==> s.speed <= spec_run_steps(s, p, frames).speed <= 0,
    decreases frames.len(),
{
    if frames.len() > 0 {
        assert(wf_input(frames[0].0));
        lemma_drag_decay(s, p, frames.first().0, frames.first().1);
        lemma_step_preserves_wf(s, p, frames.first().0, frames.first().1);
        let s1 = spec_step(s, p, frames.first().0, frames.first().1);
        let rest = frames.drop_first();
        assert forall|k: int| 0 <= k < rest.len() implies {
            &&& wf_input((#[trigger] rest[k]).0)
            &&& rest[k].0.throttle == 0
            &&& 0 <= rest[k].1
            &&& p.drag_coefficient * rest[k].1 <= SCALE_SQ
        } by {
            assert(rest[k] == frames[k + 1]);
        };
        lemma_drag_decay_run(s1, p, rest);
    }
}

/// Law: the state invariant survives any run. In particular the speed
/// clamp `-max_speed / 2 <= speed <= max_speed` and the heading wrap
/// `0 <= heading < DEG360` hold after the whole sequence.
pub proof fn lemma_run_steps_preserves_wf(
    s: KinematicState,
    p: CarTuningProfile,
    frames: Seq<(ControlInput, i64)>,
)
    requires
        wf_profile(p),
        wf_state(s, p),
    ensures
        wf_state(spec_run_steps(s, p, frames), p),
    decreases frames.len(),
{
    if frames.len() > 0 {
        lemma_step_preserves_wf(s, p, frames.first().0, frames.first().1);
        lemma_run_steps_preserves_wf(
            spec_step(s, p, frames.first().0, frames.first().1),
            p,
            frames.drop_first(),
        );
    }
}

/// Law: the clamp and heading-wrap invariants hold not just at the end
/// of a run but after every single call in it.
pub proof fn lemma_run_steps_wf_after_every_call(
    s: KinematicState,
    p: CarTuningProfile,
    frames: Seq<(ControlInput, i64)>,
)
    requires
        wf_profile(p),
        wf_state(s, p),
    ensures
        forall|k: int|
            0 <= k <= frames.len() ==> wf_state(
                #[trigger] spec_run_steps(s, p, frames.take(k)),
                p,
            ),
{
    assert forall|k: int| 0 <= k <= frames.len() implies wf_state(
        #[trigger] spec_run_steps(s, p, frames.take(k)),
        p,
    ) by {
        lemma_run_steps_preserves_wf(s, p, frames.take(k));
    };
}

/// One frame of the vehicle motion model, exactly as specified by
/// `spec_step`: a pure transform with no error conditions.
pub fn step(
    state: KinematicState,
    profile: &CarTuningProfile,
    input: &ControlInput,
    dt: i64,
) -> (next: KinematicState)
    requires
        wf_profile(*profile),
        wf_input(*input),
        wf_state(state, *profile),
        0 <= dt <= DT_LIMIT,
    ensures
        next == spec_step(state, *profile, *input, dt),
        wf_state(next, *profile),
{
    let accel: i64 = if input.throttle > 0 {
        profile.accel_rate
    } else if input.throttle < 0 {
        -profile.brake_rate
    } else {
        0
    };
    proof {
        assert(-7_776_000_000_000 <= (accel as int) * (dt as int) <= 7_776_000_000_000)
            by (nonlinear_arith)
            requires
                -RATE_LIMIT <= accel <= RATE_LIMIT,
                0 <= dt <= DT_LIMIT,
        ;
    }
    let mut speed: i64 = state.speed + div_trunc(accel * dt, SCALE);
    if accel == 0 {
        proof {
            assert((accel as int) * (dt as int) == 0);
            assert(speed == state.speed);
            assert(-12_960_000_000_000 <= (speed as int) * (profile.drag_coefficient as int)
                <= 12_960_000_000_000) by (nonlinear_arith)
                requires
                    -SPEED_LIMIT <= speed <= SPEED_LIMIT,
                    0 <= profile.drag_coefficient <= crate::tuning::DRAG_LIMIT,
            ;
            assert(-2_799_360_000_000_000_000 <= ((speed as int)
                * (profile.drag_coefficient as int)) * (dt as int)
                <= 2_799_360_000_000_000_000) by (nonlinear_arith)
                requires
                    -12_960_000_000_000 <= (speed as int) * (profile.drag_coefficient as int)
                        <= 12_960_000_000_000,
                    0 <= dt <= DT_LIMIT,
            ;
        }
        let decay: i64 = div_trunc((speed * profile.drag_coefficient) * dt, SCALE_SQ);
        speed = speed - decay;
    }
    let reverse_cap: i64 = div_trunc(profile.max_speed, 2);
    let speed3: i64 = clamp_i64(speed, -reverse_cap, profile.max_speed);
    proof {
        assert(-RATE_LIMIT <= (input.steer as int) * (profile.handling as int) <= RATE_LIMIT)
            by (nonlinear_arith)
            requires
                -1 <= input.steer <= 1,
                0 < profile.handling <= RATE_LIMIT,
        ;
    }
    let strength: i64 = input.steer * profile.handling;
    let abs_speed: i64 = if speed3 >= 0 {
        speed3
    } else {
        -speed3
    };
    let q: i64 = div_trunc(abs_speed * SCALE, profile.max_speed);
    let factor: i64 = clamp_i64(q, SPEED_FACTOR_FLOOR, SCALE);
    proof {
        assert(-129_600_000_000 <= (strength as int) * (factor as int) <= 129_600_000_000)
            by (nonlinear_arith)
            requires
                -RATE_LIMIT <= strength <= RATE_LIMIT,
                0 <= factor <= SCALE,
        ;
        assert(-27_993_600_000_000_000 <= ((strength as int) * (factor as int)) * (dt as int)
            <= 27_993_600_000_000_000) by (nonlinear_arith)
            requires
                -129_600_000_000 <= (strength as int) * (factor as int) <= 129_600_000_000,
                0 <= dt <= DT_LIMIT,
        ;
    }
    let turn: i64 = div_trunc((strength * factor) * dt, SCALE_SQ);
    let heading: i64 = mod_euclid(state.heading_degrees + turn, DEG360);
    let fx: i64 = cos_fx(heading);
    let fy: i64 = sin_fx(heading);
    proof {
        assert(-129_600_000_000 <= (fx as int) * (speed3 as int) <= 129_600_000_000)
            by (nonlinear_arith)
            requires
                -SCALE <= fx <= SCALE,
                -SPEED_LIMIT <= speed3 <= SPEED_LIMIT,
        ;
        assert(-27_993_600_000_000_000 <= ((fx as int) * (speed3 as int)) * (dt as int)
            <= 27_993_600_000_000_000) by (nonlinear_arith)
            requires
                -129_600_000_000 <= (fx as int) * (speed3 as int) <= 129_600_000_000,
                0 <= dt <= DT_LIMIT,
        ;
        assert(-129_600_000_000 <= (fy as int) * (speed3 as int) <= 129_600_000_000)
            by (nonlinear_arith)
            requires
                -SCALE <= fy <= SCALE,
                -SPEED_LIMIT <= speed3 <= SPEED_LIMIT,
        ;
        assert(-27_993_600_000_000_000 <= ((fy as int) * (speed3 as int)) * (dt as int)
            <= 27_993_600_000_000_000) by (nonlinear_arith)
            requires
                -129_600_000_000 <= (fy as int) * (speed3 as int) <= 129_600_000_000,
                0 <= dt <= DT_LIMIT,
        ;
    }
    let dx: i64 = div_trunc((fx * speed3) * dt, SCALE_SQ);
    let dy: i64 = div_trunc((fy * speed3) * dt, SCALE_SQ);
    let px: i64 = clamp_i64(state.position.x + dx, -POS_LIMIT, POS_LIMIT);
    let py: i64 = clamp_i64(state.position.y + dy, -POS_LIMIT, POS_LIMIT);
    let next = KinematicState {
        position: Vec2Fx { x: px, y: py },
        heading_degrees: heading,
        speed: speed3,
    };
    proof {
        lemma_step_preserves_wf(state, *profile, *input, dt);
    }
    next
}

} // verus!
