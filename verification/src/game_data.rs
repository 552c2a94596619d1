//! Shared game configuration: the control scheme, car and track
//! selections made in the menu scenes, and the screen dimensions.

use vstd::prelude::*;

verus! {

/// Which input scheme drives the car. Only the keyboard scheme is fully
/// implemented; the controller scheme decodes to neutral input.
#[derive(Copy, Clone, Debug, PartialEq, Eq, Structural)]
pub enum ControlChoice {
    Keyboard,
    Controller,
}

/// The four selectable car classes.
#[derive(Copy, Clone, Debug, PartialEq, Eq, Structural)]
pub enum CarChoice {
    Car1,
    Car2,
    Car3,
    Car4,
}

/// The four selectable tracks.
#[derive(Copy, Clone, Debug, PartialEq, Eq, Structural)]
pub enum TrackChoice {
    Track1,
    Track2,
    Track3,
    Track4,
}

/// Mutable configuration owned by the application loop and borrowed by
/// each scene for the duration of its own callback. An unset selection
/// is valid: every consumer has a documented fallback.
#[derive(Copy, Clone, Debug, PartialEq, Eq, Structural)]
pub struct GameData {
    pub laps: u32,
    pub screen_width: i32,
    pub screen_height: i32,
    pub selected_car: Option<CarChoice>,
    pub selected_track: Option<TrackChoice>,
    pub selected_control: Option<ControlChoice>,
}

impl GameData {
    /// Fresh configuration: nothing selected yet, no laps counted.
    pub fn new(width: i32, height: i32) -> (d: Self)
        ensures
            d.laps == 0,
            d.screen_width == width,
            d.screen_height == height,
            d.selected_car is None,
            d.selected_track is None,
            d.selected_control is None,
    {
        Self {
            laps: 0,
            screen_width: width,
            screen_height: height,
            selected_car: None,
            selected_track: None,
            selected_control: None,
        }
    }
}

} // verus!
