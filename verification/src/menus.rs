//! The decision logic of the three menu scenes: given the point a click
//! landed on, which button fired, what selection changed, and which
//! scene transition was requested. The presentation layer only draws
//! the same rectangles and polls the mouse.
//!
//! All layout numbers are the scenes' button rectangles in fixed-point
//! screen units; a click inside a rectangle (edges included) fires its
//! action, earlier buttons winning where rectangles could meet.

use vstd::prelude::*;

use crate::game_data::{CarChoice, ControlChoice, GameData, TrackChoice};
use crate::scenes::{SceneKind, SceneSwitch};
use crate::utils::{check_collision_point_rect, spec_point_in_rect, RectFx, Vec2Fx};

verus! {

/// The main menu's play button: 320 by 50 units, centred, 390 units
/// down.
pub open spec fn spec_menu_play_rect(screen_width: i32) -> RectFx {
    RectFx {
        x: (screen_width as int * 1800 - 576_000) as i64,
        y: 1_404_000,
        width: 1_152_000,
        height: 180_000,
    }
}

/// The main menu's settings button: one button height and spacing below
/// the play button.
pub open spec fn spec_menu_settings_rect(screen_width: i32) -> RectFx {
    RectFx {
        x: (screen_width as int * 1800 - 576_000) as i64,
        y: 1_656_000,
        width: 1_152_000,
        height: 180_000,
    }
}

/// What a click on the main menu does: the play button pushes the
/// select scene, the settings button pushes the settings scene,
/// anywhere else nothing.
pub open spec fn spec_menu_click_action(screen_width: i32, click: Vec2Fx) -> SceneSwitch {
    if spec_point_in_rect(click, spec_menu_play_rect(screen_width)) {
        SceneSwitch::Push(SceneKind::Select)
    } else if spec_point_in_rect(click, spec_menu_settings_rect(screen_width)) {
        SceneSwitch::Push(SceneKind::Settings)
    } else {
        SceneSwitch::Stay
    }
}

/// Decide the main menu's response to a click.
pub fn menu_click_action(screen_width: i32, click: Vec2Fx) -> (sw: SceneSwitch)
    ensures
        sw == spec_menu_click_action(screen_width, click),
{
    let cx: i64 = (screen_width as i64) * 1800;
    let play = RectFx { x: cx - 576_000, y: 1_404_000, width: 1_152_000, height: 180_000 };
    let settings = RectFx { x: cx - 576_000, y: 1_656_000, width: 1_152_000, height: 180_000 };
    if check_collision_point_rect(&click, &play) {
        SceneSwitch::Push(SceneKind::Select)
    } else if check_collision_point_rect(&click, &settings) {
        SceneSwitch::Push(SceneKind::Settings)
    } else {
        SceneSwitch::Stay
    }
}

/// The select scene's play button.
pub open spec fn spec_select_play_rect() -> RectFx {
    RectFx { x: 684_000, y: 1_440_000, width: 792_000, height: 180_000 }
}

/// The four car buttons, in a row 270 units down.
pub open spec fn spec_select_car_rect(car: CarChoice) -> RectFx {
    let x: i64 = match car {
        CarChoice::Car1 => 324_000,
        CarChoice::Car2 => 720_000,
        CarChoice::Car3 => 1_152_000,
        CarChoice::Car4 => 1_584_000,
    };
    RectFx { x: x, y: 972_000, width: 360_000, height: 360_000 }
}

/// The four track buttons, in a row 100 units down.
pub open spec fn spec_select_track_rect(track: TrackChoice) -> RectFx {
    let x: i64 = match track {
        TrackChoice::Track1 => 324_000,
        TrackChoice::Track2 => 756_000,
        TrackChoice::Track3 => 1_188_000,
        TrackChoice::Track4 => 1_620_000,
    };
    RectFx { x: x, y: 360_000, width: 360_000, height: 360_000 }
}

/// The scene transition a click on the select scene requests: only the
/// play button starts the race.
pub open spec fn spec_select_click_switch(click: Vec2Fx) -> SceneSwitch {
    if spec_point_in_rect(click, spec_select_play_rect()) {
        SceneSwitch::Push(SceneKind::Race)
    } else {
        SceneSwitch::Stay
    }
}

/// The car selection after a click on the select scene: a car button
/// picks its car, provided no earlier button already consumed the
/// click.
pub open spec fn spec_select_car_after(sel: Option<CarChoice>, click: Vec2Fx) -> Option<
    CarChoice,
> {
    if spec_point_in_rect(click, spec_select_play_rect()) {
        sel
    } else if spec_point_in_rect(click, spec_select_car_rect(CarChoice::Car1)) {
        Some(CarChoice::Car1)
    } else if spec_point_in_rect(click, spec_select_car_rect(CarChoice::Car2)) {
        Some(CarChoice::Car2)
    } else if spec_point_in_rect(click, spec_select_car_rect(CarChoice::Car3)) {
        Some(CarChoice::Car3)
    } else if spec_point_in_rect(click, spec_select_car_rect(CarChoice::Car4)) {
        Some(CarChoice::Car4)
    } else {
        sel
    }
}

/// Whether a click lands on any car button.
pub open spec fn spec_click_on_any_car(click: Vec2Fx) -> bool {
    ||| spec_point_in_rect(click, spec_select_car_rect(CarChoice::Car1))
    ||| spec_point_in_rect(click, spec_select_car_rect(CarChoice::Car2))
    ||| spec_point_in_rect(click, spec_select_car_rect(CarChoice::Car3))
    ||| spec_point_in_rect(click, spec_select_car_rect(CarChoice::Car4))
}

/// The track selection after a click on the select scene: a track
/// button picks its track, provided neither the play button nor a car
/// button already consumed the click.
pub open spec fn spec_select_track_after(sel: Option<TrackChoice>, click: Vec2Fx) -> Option<
    TrackChoice,
> {
    if spec_point_in_rect(click, spec_select_play_rect()) || spec_click_on_any_car(click) {
        sel
    } else if spec_point_in_rect(click, spec_select_track_rect(TrackChoice::Track1)) {
        Some(TrackChoice::Track1)
    } else if spec_point_in_rect(click, spec_select_track_rect(TrackChoice::Track2)) {
        Some(TrackChoice::Track2)
    } else if spec_point_in_rect(click, spec_select_track_rect(TrackChoice::Track3)) {
        Some(TrackChoice::Track3)
    } else if spec_point_in_rect(click, spec_select_track_rect(TrackChoice::Track4)) {
        Some(TrackChoice::Track4)
    } else {
        sel
    }
}

/// Decide the select scene's response to a click: update the car or
/// track selection, or start the race.
pub fn select_click_action(data: &mut GameData, click: Vec2Fx) -> (sw: SceneSwitch)
    ensures
        sw == spec_select_click_switch(click),
        final(data).selected_car == spec_select_car_after(old(data).selected_car, click),
        final(data).selected_track == spec_select_track_after(old(data).selected_track, click),
        final(data).laps == old(data).laps,
        final(data).screen_width == old(data).screen_width,
        final(data).screen_height == old(data).screen_height,
        final(data).selected_control == old(data).selected_control,
{
    let play = RectFx { x: 684_000, y: 1_440_000, width: 792_000, height: 180_000 };
    let car1 = RectFx { x: 324_000, y: 972_000, width: 360_000, height: 360_000 };
    let car2 = RectFx { x: 720_000, y: 972_000, width: 360_000, height: 360_000 };
    let car3 = RectFx { x: 1_152_000, y: 972_000, width: 360_000, height: 360_000 };
    let car4 = RectFx { x: 1_584_000, y: 972_000, width: 360_000, height: 360_000 };
    let track1 = RectFx { x: 324_000, y: 360_000, width: 360_000, height: 360_000 };
    let track2 = RectFx { x: 756_000, y: 360_000, width: 360_000, height: 360_000 };
    let track3 = RectFx { x: 1_188_000, y: 360_000, width: 360_000, height: 360_000 };
    let track4 = RectFx { x: 1_620_000, y: 360_000, width: 360_000, height: 360_000 };
    if check_collision_point_rect(&click, &play) {
        return SceneSwitch::Push(SceneKind::Race);
    } else if check_collision_point_rect(&click, &car1) {
        data.selected_car = Some(CarChoice::Car1);
    } else if check_collision_point_rect(&click, &car2) {
        data.selected_car = Some(CarChoice::Car2);
    } else if check_collision_point_rect(&click, &car3) {
        data.selected_car = Some(CarChoice::Car3);
    } else if check_collision_point_rect(&click, &car4) {
        data.selected_car = Some(CarChoice::Car4);
    } else if check_collision_point_rect(&click, &track1) {
        data.selected_track = Some(TrackChoice::Track1);
    } else if check_collision_point_rect(&click, &track2) {
        data.selected_track = Some(TrackChoice::Track2);
    } else if check_collision_point_rect(&click, &track3) {
        data.selected_track = Some(TrackChoice::Track3);
    } else if check_collision_point_rect(&click, &track4) {
        data.selected_track = Some(TrackChoice::Track4);
    }
    SceneSwitch::Stay
}

/// The settings scene's controller button: 420 by 50 units, centred,
/// 200 units down.
pub open spec fn spec_settings_controller_rect(screen_width: i32) -> RectFx {
    RectFx {
        x: (screen_width as int * 1800 - 756_000) as i64,
        y: 720_000,
        width: 1_512_000,
        height: 180_000,
    }
}

/// The settings scene's keyboard button: one button height and spacing
/// below the controller button.
pub open spec fn spec_settings_keyboard_rect(screen_width: i32) -> RectFx {
    RectFx {
        x: (screen_width as int * 1800 - 756_000) as i64,
        y: 972_000,
        width: 1_512_000,
        height: 180_000,
    }
}

/// The settings scene's play button, below the two scheme buttons.
pub open spec fn spec_settings_play_rect(screen_width: i32) -> RectFx {
    RectFx {
        x: (screen_width as int * 1800 - 396_000) as i64,
        y: 1_224_000,
        width: 792_000,
        height: 180_000,
    }
}

/// The scene transition a click on the settings scene requests: only
/// the play button moves on, to the select scene.
pub open spec fn spec_settings_click_switch(screen_width: i32, click: Vec2Fx) -> SceneSwitch {
    if spec_point_in_rect(click, spec_settings_play_rect(screen_width)) {
        SceneSwitch::Push(SceneKind::Select)
    } else {
        SceneSwitch::Stay
    }
}

/// The control scheme after a click on the settings scene: the keyboard
/// button wins over the controller button where they could both match,
/// and the play button consumes the click first.
pub open spec fn spec_settings_control_after(
    sel: Option<ControlChoice>,
    screen_width: i32,
    click: Vec2Fx,
) -> Option<ControlChoice> {
    if spec_point_in_rect(click, spec_settings_play_rect(screen_width)) {
        sel
    } else if spec_point_in_rect(click, spec_settings_keyboard_rect(screen_width)) {
        Some(ControlChoice::Keyboard)
    } else if spec_point_in_rect(click, spec_settings_controller_rect(screen_width)) {
        Some(ControlChoice::Controller)
    } else {
        sel
    }
}

/// Decide the settings scene's response to a click: pick a control
/// scheme, or move on to the select scene.
pub fn settings_click_action(data: &mut GameData, click: Vec2Fx) -> (sw: SceneSwitch)
    ensures
        sw == spec_settings_click_switch(old(data).screen_width, click),
        final(data).selected_control == spec_settings_control_after(
            old(data).selected_control,
            old(data).screen_width,
            click,
        ),
        final(data).laps == old(data).laps,
        final(data).screen_width == old(data).screen_width,
        final(data).screen_height == old(data).screen_height,
        final(data).selected_car == old(data).selected_car,
        final(data).selected_track == old(data).selected_track,
{
    let cx: i64 = (data.screen_width as i64) * 1800;
    let controller = RectFx { x: cx - 756_000, y: 720_000, width: 1_512_000, height: 180_000 };
    let keyboard = RectFx { x: cx - 756_000, y: 972_000, width: 1_512_000, height: 180_000 };
    let play = RectFx { x: cx - 396_000, y: 1_224_000, width: 792_000, height: 180_000 };
    if check_collision_point_rect(&click, &play) {
        return SceneSwitch::Push(SceneKind::Select);
    } else if check_collision_point_rect(&click, &keyboard) {
        data.selected_control = Some(ControlChoice::Keyboard);
    } else if check_collision_point_rect(&click, &controller) {
        data.selected_control = Some(ControlChoice::Controller);
    }
    SceneSwitch::Stay
}

} // verus!
