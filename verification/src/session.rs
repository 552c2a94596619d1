//! The race session controller: owns one vehicle's kinematic state and
//! its resolved tuning profile, decodes raw input into control input,
//! drives the motion model once per frame, and runs the race clock,
//! which starts only once the car has really moved.

use vstd::prelude::*;

use crate::game_data::{CarChoice, ControlChoice, TrackChoice};
use crate::motion::{
    spec_abs, spec_step, step, wf_input, wf_state, ControlInput, KinematicState, DT_LIMIT,
    POS_LIMIT,
};
use crate::scenes::SceneSwitch;
use crate::trig::DEG360;
use crate::tuning::{resolve_profile, spec_resolve_profile, wf_profile, CarTuningProfile};
use crate::utils::Vec2Fx;

verus! {

/// The race clock starts on the first frame the speed's magnitude
/// exceeds this threshold (one unit per second, fixed point).
pub const START_THRESHOLD: i64 = 3_600;

/// One race in progress: kinematic state, resolved tuning, the raw menu
/// selections it was entered with, the last decoded control input, and
/// the race clock. Destroyed when the race scene is left; nothing
/// persists across races.
pub struct RaceSession {
    pub state: KinematicState,
    pub profile: CarTuningProfile,
    pub selected_car: Option<CarChoice>,
    pub selected_track: Option<TrackChoice>,
    pub input: ControlInput,
    pub elapsed_fx: i64,
    pub started: bool,
}

/// The session invariant: the profile is the one its car selection
/// resolves to, the kinematic state is well formed for it, the stored
/// input is a decoded one, and the clock never shows time before it has
/// started.
pub open spec fn wf_session(s: RaceSession) -> bool {
    &&& wf_profile(s.profile)
    &&& s.profile == spec_resolve_profile(s.selected_car)
    &&& wf_state(s.state, s.profile)
    &&& wf_input(s.input)
    &&& 0 <= s.elapsed_fx
    &&& !s.started ==> s.elapsed_fx == 0
}

/// Decoding raw held-key state into control input. The controller
/// scheme is recognized but unimplemented and decodes to neutral input;
/// anything else (keyboard, or no selection) decodes directionally,
/// accelerate winning over brake and left over right when opposing keys
/// are held together.
pub open spec fn spec_decode(
    scheme: Option<ControlChoice>,
    accelerate: bool,
    brake: bool,
    steer_left: bool,
    steer_right: bool,
) -> ControlInput {
    match scheme {
        Some(ControlChoice::Controller) => ControlInput { throttle: 0, steer: 0 },
        _ => ControlInput {
            throttle: if accelerate {
                1
            } else if brake {
                -1i64
            } else {
                0
            },
            steer: if steer_left {
                -1i64
            } else if steer_right {
                1
            } else {
                0
            },
        },
    }
}

/// Decode one frame's raw input snapshot, exactly as `spec_decode` says.
pub fn decode_controls(
    scheme: Option<ControlChoice>,
    accelerate: bool,
    brake: bool,
    steer_left: bool,
    steer_right: bool,
) -> (c: ControlInput)
    ensures
        c == spec_decode(scheme, accelerate, brake, steer_left, steer_right),
        wf_input(c),
{
    match scheme {
        Some(ControlChoice::Controller) => ControlInput { throttle: 0, steer: 0 },
        _ => ControlInput {
            throttle: if accelerate {
                1
            } else if brake {
                -1
            } else {
                0
            },
            steer: if steer_left {
                -1
            } else if steer_right {
                1
            } else {
                0
            },
        },
    }
}

/// The race clock after one frame: advances by `dt` once started,
/// saturating at the largest representable time.
pub open spec fn spec_elapsed_after(elapsed: i64, dt: i64) -> i64 {
    if elapsed + dt <= i64::MAX {
        (elapsed + dt) as i64
    } else {
        i64::MAX
    }
}

/// The whole session transition of one frame's `update` call: start the
/// clock if the speed's magnitude already exceeds the threshold, then
/// accumulate time if started, then step the motion model with the
/// stored input.
pub open spec fn spec_update(s: RaceSession, dt: i64) -> RaceSession {
    let started2 = s.started || spec_abs(s.state.speed as int) > START_THRESHOLD;
    RaceSession {
        state: spec_step(s.state, s.profile, s.input, dt),
        profile: s.profile,
        selected_car: s.selected_car,
        selected_track: s.selected_track,
        input: s.input,
        elapsed_fx: if started2 {
            spec_elapsed_after(s.elapsed_fx, dt)
        } else {
            s.elapsed_fx
        },
        started: started2,
    }
}

/// A session with its stored control input replaced: what `handle_input`
/// does, ahead of the frame's `update`.
pub open spec fn spec_with_input(s: RaceSession, c: ControlInput) -> RaceSession {
    RaceSession {
        state: s.state,
        profile: s.profile,
        selected_car: s.selected_car,
        selected_track: s.selected_track,
        input: c,
        elapsed_fx: s.elapsed_fx,
        started: s.started,
    }
}

impl RaceSession {
    /// Entering the race scene: resolve the car selection to its tuning
    /// profile (an unset selection falls back to the first car class),
    /// place the car, reset the clock.
    pub fn new(
        selected_track: Option<TrackChoice>,
        selected_car: Option<CarChoice>,
        start_position: Vec2Fx,
        start_heading: i64,
    ) -> (s: Self)
        requires
            0 <= start_heading < DEG360,
            -POS_LIMIT <= start_position.x <= POS_LIMIT,
            -POS_LIMIT <= start_position.y <= POS_LIMIT,
        ensures
            s.state == (KinematicState {
                position: start_position,
                heading_degrees: start_heading,
                speed: 0,
            }),
            s.profile == spec_resolve_profile(selected_car),
            s.selected_car == selected_car,
            s.selected_track == selected_track,
            s.input == (ControlInput { throttle: 0, steer: 0 }),
            s.elapsed_fx == 0,
            !s.started,
            wf_session(s),
    {
        let profile = resolve_profile(selected_car);
        Self {
            state: KinematicState {
                position: start_position,
                heading_degrees: start_heading,
                speed: 0,
            },
            profile,
            selected_car,
            selected_track,
            input: ControlInput { throttle: 0, steer: 0 },
            elapsed_fx: 0,
            started: false,
        }
    }

    /// Decode this frame's raw input snapshot and store it for the
    /// frame's `update`. Never requests a scene transition.
    pub fn handle_input(
        &mut self,
        scheme: Option<ControlChoice>,
        accelerate: bool,
        brake: bool,
        steer_left: bool,
        steer_right: bool,
    ) -> (sw: SceneSwitch)
        ensures
            *final(self) == spec_with_input(
                *old(self),
                spec_decode(scheme, accelerate, brake, steer_left, steer_right),
            ),
            wf_session(*old(self)) ==> wf_session(*final(self)),
            sw == SceneSwitch::Stay,
    {
        self.input = decode_controls(scheme, accelerate, brake, steer_left, steer_right);
        SceneSwitch::Stay
    }

    /// One frame: gate the race clock on the pre-step speed, accumulate
    /// time once started, and advance the motion model by `dt` under the
    /// stored control input. Never requests a scene transition.
    pub fn update(&mut self, dt: i64) -> (sw: SceneSwitch)
        requires
            wf_session(*old(self)),
            0 <= dt <= DT_LIMIT,
        ensures
            *final(self) == spec_update(*old(self), dt),
            wf_session(*final(self)),
            final(self).elapsed_fx >= old(self).elapsed_fx,
            sw == SceneSwitch::Stay,
    {
        let abs_speed: i64 = if self.state.speed >= 0 {
            self.state.speed
        } else {
            -self.state.speed
        };
        if !self.started && abs_speed > START_THRESHOLD {
            self.started = true;
        }
        if self.started {
            if self.elapsed_fx <= i64::MAX - dt {
                self.elapsed_fx = self.elapsed_fx + dt;
            } else {
                self.elapsed_fx = i64::MAX;
            }
        }
        self.state = step(self.state, &self.profile, &self.input, dt);
        SceneSwitch::Stay
    }
}

/// Law: the clock starts exactly when the pre-step speed's magnitude
/// first exceeds the threshold, never earlier and never later.
pub proof fn lemma_clock_starts_exactly_on_threshold(s: RaceSession, dt: i64)
    ensures
        spec_update(s, dt).started == (s.started || spec_abs(s.state.speed as int)
            > START_THRESHOLD),
{
}

/// The session state after a whole run of frames, each pairing the
/// control input decoded that frame with the frame's elapsed time.
pub open spec fn spec_run_session(s: RaceSession, frames: Seq<(ControlInput, i64)>) -> RaceSession
    decreases frames.len(),
{
    if frames.len() == 0 {
        s
    } else {
        spec_run_session(
            spec_update(spec_with_input(s, frames.first().0), frames.first().1),
            frames.drop_first(),
        )
    }
}

/// Running the first frame, then a prefix of the rest, is running a
/// prefix of the whole.
proof fn lemma_run_session_unfold_take(s: RaceSession, frames: Seq<(ControlInput, i64)>, j: int)
    requires
        0 < j <= frames.len(),
    ensures
        spec_run_session(s, frames.take(j)) == spec_run_session(
            spec_update(spec_with_input(s, frames[0].0), frames[0].1),
            frames.drop_first().take(j - 1),
        ),
{
    let t = frames.take(j);
    assert(t.first() == frames[0]);
    assert(t.drop_first() =~= frames.drop_first().take(j - 1));
}

/// Law: clock gating. While the speed's magnitude never exceeds the
/// threshold over a run, the race never counts as started and the clock
/// stays at zero.
pub proof fn lemma_clock_gating(s: RaceSession, frames: Seq<(ControlInput, i64)>)
    requires
        !s.started,
        s.elapsed_fx == 0,
        forall|k: int|
            0 <= k < frames.len() ==> spec_abs(
                #[trigger] spec_run_session(s, frames.take(k)).state.speed as int,
            ) <= START_THRESHOLD,
    ensures
        !spec_run_session(s, frames).started,
        spec_run_session(s, frames).elapsed_fx == 0,
    decreases frames.len(),
{
    if frames.len() > 0 {
        assert(frames.take(0) =~= Seq::<(ControlInput, i64)>::empty());
        assert(spec_run_session(s, frames.take(0)) == s);
        let s1 = spec_update(spec_with_input(s, frames[0].0), frames[0].1);
        assert(!s1.started && s1.elapsed_fx == 0);
        let rest = frames.drop_first();
        assert forall|k: int|
            0 <= k < rest.len() implies spec_abs(
            #[trigger] spec_run_session(s1, rest.take(k)).state.speed as int,
        ) <= START_THRESHOLD by {
            lemma_run_session_unfold_take(s, frames, k + 1);
            assert(spec_run_session(s, frames.take(k + 1)) == spec_run_session(s1, rest.take(k)));
        };
        lemma_clock_gating(s1, rest);
        assert(spec_run_session(s, frames) == spec_run_session(s1, rest));
    }
}

} // verus!
