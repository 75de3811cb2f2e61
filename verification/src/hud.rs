//! Runtime settings of the HUD overlay: which parts are shown, where the shift
//! lights sit and how they are laid out, and the calibration state that the
//! settings window and the tray menu read.
use vstd::prelude::*;

use crate::config::{
    CALIBRATE_MS_MAX, CALIBRATE_MS_MIN, DEFAULT_CALIBRATE_MS, DEFAULT_GEAR_DISPLAY_SIZE_PX,
    DEFAULT_SHIFT_LIGHTS_GAP_PX, DEFAULT_SHIFT_LIGHTS_OFFSET_PX, DEFAULT_SHIFT_LIGHTS_THICKNESS_PX,
    DEFAULT_SHIFT_LIGHTS_WIDTH_PERCENT, SAMPLE_HZ,
};
use crate::calibrated_cars::CalibratedCars;
use crate::telemetry::CarId;

verus! {

/// Direction in which the calibration progress bar fills.
#[derive(Clone, Copy, Debug, PartialEq, Eq, Structural)]
pub enum CalibrateProgressDirection {
    LeftToRight,
    RightToLeft,
    BottomToTop,
}

impl CalibrateProgressDirection {
    /// The stored code of each direction.
    pub open spec fn code(self) -> u8 {
        match self {
            CalibrateProgressDirection::LeftToRight => 0,
            CalibrateProgressDirection::RightToLeft => 1,
            CalibrateProgressDirection::BottomToTop => 2,
        }
    }

    /// The direction a stored code stands for; unknown codes read as left to right.
    pub open spec fn from_code(value: u8) -> CalibrateProgressDirection {
        if value == 1 {
            CalibrateProgressDirection::RightToLeft
        } else if value == 2 {
            CalibrateProgressDirection::BottomToTop
        } else {
            CalibrateProgressDirection::LeftToRight
        }
    }

    pub fn to_u8(self) -> (r: u8)
        ensures
            r == self.code(),
    {
        match self {
            CalibrateProgressDirection::LeftToRight => 0,
            CalibrateProgressDirection::RightToLeft => 1,
            CalibrateProgressDirection::BottomToTop => 2,
        }
    }

    pub fn from_u8(value: u8) -> (r: CalibrateProgressDirection)
        ensures
            r == CalibrateProgressDirection::from_code(value),
    {
        match value {
            1 => CalibrateProgressDirection::RightToLeft,
            2 => CalibrateProgressDirection::BottomToTop,
            _ => CalibrateProgressDirection::LeftToRight,
        }
    }
}

/// Screen edge along which the shift lights are drawn.
#[derive(Clone, Copy, Debug, PartialEq, Eq, Structural)]
pub enum ShiftLightsPosition {
    Bottom,
    Right,
    Top,
    Left,
}

impl ShiftLightsPosition {
    pub open spec fn code(self) -> u8 {
        match self {
            ShiftLightsPosition::Bottom => 0,
            ShiftLightsPosition::Right => 1,
            ShiftLightsPosition::Top => 2,
            ShiftLightsPosition::Left => 3,
        }
    }

    /// Unknown codes read as the bottom edge.
    pub open spec fn from_code(value: u8) -> ShiftLightsPosition {
        if value == 1 {
            ShiftLightsPosition::Right
        } else if value == 2 {
            ShiftLightsPosition::Top
        } else if value == 3 {
            ShiftLightsPosition::Left
        } else {
            ShiftLightsPosition::Bottom
        }
    }

    /// The left and right edges hold a vertical strip.
    pub open spec fn spec_is_vertical(self) -> bool {
        self == ShiftLightsPosition::Left || self == ShiftLightsPosition::Right
    }

    pub fn to_u8(self) -> (r: u8)
        ensures
            r == self.code(),
    {
        match self {
            ShiftLightsPosition::Bottom => 0,
            ShiftLightsPosition::Right => 1,
            ShiftLightsPosition::Top => 2,
            ShiftLightsPosition::Left => 3,
        }
    }

    pub fn from_u8(value: u8) -> (r: ShiftLightsPosition)
        ensures
            r == ShiftLightsPosition::from_code(value),
    {
        match value {
            1 => ShiftLightsPosition::Right,
            2 => ShiftLightsPosition::Top,
            3 => ShiftLightsPosition::Left,
            _ => ShiftLightsPosition::Bottom,
        }
    }

    pub fn is_vertical(self) -> (r: bool)
        ensures
            r == self.spec_is_vertical(),
    {
        match self {
            ShiftLightsPosition::Left | ShiftLightsPosition::Right => true,
            _ => false,
        }
    }
}

/// Order in which the shift lights switch on.
#[derive(Clone, Copy, Debug, PartialEq, Eq, Structural)]
pub enum ShiftLightsDirection {
    LeftToRight,
    RightToLeft,
    BottomToTop,
    TopToBottom,
}

impl ShiftLightsDirection {
    pub open spec fn code(self) -> u8 {
        match self {
            ShiftLightsDirection::LeftToRight => 0,
            ShiftLightsDirection::RightToLeft => 1,
            ShiftLightsDirection::BottomToTop => 2,
            ShiftLightsDirection::TopToBottom => 3,
        }
    }

    /// Unknown codes read as left to right.
    pub open spec fn from_code(value: u8) -> ShiftLightsDirection {
        if value == 1 {
            ShiftLightsDirection::RightToLeft
        } else if value == 2 {
            ShiftLightsDirection::BottomToTop
        } else if value == 3 {
            ShiftLightsDirection::TopToBottom
        } else {
            ShiftLightsDirection::LeftToRight
        }
    }

    /// The directions that run along a vertical strip.
    pub open spec fn spec_is_vertical(self) -> bool {
        self == ShiftLightsDirection::BottomToTop || self == ShiftLightsDirection::TopToBottom
    }

    /// A direction fits a position when both are vertical or both horizontal.
    pub open spec fn spec_is_compatible_with(self, position: ShiftLightsPosition) -> bool {
        self.spec_is_vertical() == position.spec_is_vertical()
    }

    /// Vertical strips fill from the bottom, horizontal ones from the left.
    pub open spec fn spec_default_for(position: ShiftLightsPosition) -> ShiftLightsDirection {
        if position.spec_is_vertical() {
            ShiftLightsDirection::BottomToTop
        } else {
            ShiftLightsDirection::LeftToRight
        }
    }

    pub fn to_u8(self) -> (r: u8)
        ensures
            r == self.code(),
    {
        match self {
            ShiftLightsDirection::LeftToRight => 0,
            ShiftLightsDirection::RightToLeft => 1,
            ShiftLightsDirection::BottomToTop => 2,
            ShiftLightsDirection::TopToBottom => 3,
        }
    }

    pub fn from_u8(value: u8) -> (r: ShiftLightsDirection)
        ensures
            r == ShiftLightsDirection::from_code(value),
    {
        match value {
            1 => ShiftLightsDirection::RightToLeft,
            2 => ShiftLightsDirection::BottomToTop,
            3 => ShiftLightsDirection::TopToBottom,
            _ => ShiftLightsDirection::LeftToRight,
        }
    }

    pub fn default_for(position: ShiftLightsPosition) -> (r: ShiftLightsDirection)
        ensures
            r == ShiftLightsDirection::spec_default_for(position),
    {
        if position.is_vertical() {
            ShiftLightsDirection::BottomToTop
        } else {
            ShiftLightsDirection::LeftToRight
        }
    }

    pub fn is_compatible_with(self, position: ShiftLightsPosition) -> (r: bool)
        ensures
            r == self.spec_is_compatible_with(position),
    {
        match (position.is_vertical(), self) {
            (false, ShiftLightsDirection::LeftToRight)
            | (false, ShiftLightsDirection::RightToLeft)
            | (true, ShiftLightsDirection::BottomToTop)
            | (true, ShiftLightsDirection::TopToBottom) => true,
            _ => false,
        }
    }

    /// Right-to-left and bottom-to-top strips list their cells in reverse.
    pub fn reverses_visual_order(self) -> (r: bool)
        ensures
            r == (self == ShiftLightsDirection::RightToLeft || self
                == ShiftLightsDirection::BottomToTop),
    {
        match self {
            ShiftLightsDirection::RightToLeft | ShiftLightsDirection::BottomToTop => true,
            _ => false,
        }
    }
}

/// The abstract content of [`HudSettings`].
pub struct SettingsView {
    pub charts_visible: bool,
    pub calibrate_hint_visible: bool,
    pub only_show_in_game: bool,
    pub shift_lights_position: ShiftLightsPosition,
    pub shift_lights_direction: ShiftLightsDirection,
    pub shift_lights_offset_px: usize,
    pub shift_lights_thickness_px: usize,
    pub shift_lights_gap_px: usize,
    pub shift_lights_width_percent: usize,
    pub calibrate_progress_direction: CalibrateProgressDirection,
    pub calibrate_ms: usize,
    pub strict_calibrate_conditions: bool,
    pub remember_calibrated_cars: bool,
    pub force_hud_visible: bool,
    pub shift_lights_calibrated: bool,
    pub electric_car: bool,
    pub reset_current_calibration: bool,
    pub current_car_id: Option<CarId>,
    pub gear_display_size_px: usize,
    pub gear_display_visible: bool,
    /// A change has been made that the configuration file does not hold yet.
    pub persist_requested: bool,
}

impl SettingsView {
    /// What every reachable settings value satisfies: the shift light direction
    /// fits the edge they sit on, and each validated quantity is in its range.
    pub open spec fn wf(self) -> bool {
        &&& self.shift_lights_direction.spec_is_compatible_with(self.shift_lights_position)
        &&& self.shift_lights_thickness_px > 0
        &&& 1 <= self.shift_lights_width_percent <= 100
        &&& self.gear_display_size_px > 0
        &&& CALIBRATE_MS_MIN <= self.calibrate_ms <= CALIBRATE_MS_MAX
    }
}

/// The settings of the running HUD. The application keeps one value of this
/// type for the whole process; the setters report through `persist_requested`
/// when the configuration file has to be written again.
#[derive(Clone, Copy)]
pub struct HudSettings {
    charts_visible: bool,
    calibrate_hint_visible: bool,
    only_show_in_game: bool,
    shift_lights_position: ShiftLightsPosition,
    shift_lights_direction: ShiftLightsDirection,
    shift_lights_offset_px: usize,
    shift_lights_thickness_px: usize,
    shift_lights_gap_px: usize,
    shift_lights_width_percent: usize,
    calibrate_progress_direction: CalibrateProgressDirection,
    calibrate_ms: usize,
    strict_calibrate_conditions: bool,
    remember_calibrated_cars: bool,
    force_hud_visible: bool,
    shift_lights_calibrated: bool,
    electric_car: bool,
    reset_current_calibration: bool,
    current_car_id: Option<CarId>,
    gear_display_size_px: usize,
    gear_display_visible: bool,
    persist_requested: bool,
}

impl View for HudSettings {
    type V = SettingsView;

    closed spec fn view(&self) -> SettingsView {
        SettingsView {
            charts_visible: self.charts_visible,
            calibrate_hint_visible: self.calibrate_hint_visible,
            only_show_in_game: self.only_show_in_game,
            shift_lights_position: self.shift_lights_position,
            shift_lights_direction: self.shift_lights_direction,
            shift_lights_offset_px: self.shift_lights_offset_px,
            shift_lights_thickness_px: self.shift_lights_thickness_px,
            shift_lights_gap_px: self.shift_lights_gap_px,
            shift_lights_width_percent: self.shift_lights_width_percent,
            calibrate_progress_direction: self.calibrate_progress_direction,
            calibrate_ms: self.calibrate_ms,
            strict_calibrate_conditions: self.strict_calibrate_conditions,
            remember_calibrated_cars: self.remember_calibrated_cars,
            force_hud_visible: self.force_hud_visible,
            shift_lights_calibrated: self.shift_lights_calibrated,
            electric_car: self.electric_car,
            reset_current_calibration: self.reset_current_calibration,
            current_car_id: self.current_car_id,
            gear_display_size_px: self.gear_display_size_px,
            gear_display_visible: self.gear_display_visible,
            persist_requested: self.persist_requested,
        }
    }
}

/// The settings a fresh process starts with.
pub open spec fn initial_settings() -> SettingsView {
    SettingsView {
        charts_visible: false,
        calibrate_hint_visible: false,
        only_show_in_game: true,
        shift_lights_position: ShiftLightsPosition::Top,
        shift_lights_direction: ShiftLightsDirection::LeftToRight,
        shift_lights_offset_px: DEFAULT_SHIFT_LIGHTS_OFFSET_PX,
        shift_lights_thickness_px: DEFAULT_SHIFT_LIGHTS_THICKNESS_PX,
        shift_lights_gap_px: DEFAULT_SHIFT_LIGHTS_GAP_PX,
        shift_lights_width_percent: DEFAULT_SHIFT_LIGHTS_WIDTH_PERCENT,
        calibrate_progress_direction: CalibrateProgressDirection::BottomToTop,
        calibrate_ms: DEFAULT_CALIBRATE_MS,
        strict_calibrate_conditions: false,
        remember_calibrated_cars: true,
        force_hud_visible: false,
        shift_lights_calibrated: false,
        electric_car: false,
        reset_current_calibration: false,
        current_car_id: None,
        gear_display_size_px: DEFAULT_GEAR_DISPLAY_SIZE_PX,
        gear_display_visible: true,
        persist_requested: false,
    }
}

impl HudSettings {
    #[verifier::type_invariant]
    spec fn inv(self) -> bool {
        self@.wf()
    }

    pub fn new() -> (s: HudSettings)
        ensures
            s@ == initial_settings(),
            s@.wf(),
    {
        HudSettings {
            charts_visible: false,
            calibrate_hint_visible: false,
            only_show_in_game: true,
            shift_lights_position: ShiftLightsPosition::Top,
            shift_lights_direction: ShiftLightsDirection::LeftToRight,
            shift_lights_offset_px: DEFAULT_SHIFT_LIGHTS_OFFSET_PX,
            shift_lights_thickness_px: DEFAULT_SHIFT_LIGHTS_THICKNESS_PX,
            shift_lights_gap_px: DEFAULT_SHIFT_LIGHTS_GAP_PX,
            shift_lights_width_percent: DEFAULT_SHIFT_LIGHTS_WIDTH_PERCENT,
            calibrate_progress_direction: CalibrateProgressDirection::BottomToTop,
            calibrate_ms: DEFAULT_CALIBRATE_MS,
            strict_calibrate_conditions: false,
            remember_calibrated_cars: true,
            force_hud_visible: false,
            shift_lights_calibrated: false,
            electric_car: false,
            reset_current_calibration: false,
            current_car_id: None,
            gear_display_size_px: DEFAULT_GEAR_DISPLAY_SIZE_PX,
            gear_display_visible: true,
            persist_requested: false,
        }
    }
}

/// Marks the configuration for saving when `changed`.
pub fn persist_if(s: &mut HudSettings, changed: bool)
    ensures
        final(s)@ == (SettingsView {
            persist_requested: old(s)@.persist_requested || changed,
            ..old(s)@
        }),
{
    proof {
        use_type_invariant(&*s);
    }
    if changed {
        s.persist_requested = true;
    }
}

/// Returns whether the configuration has to be saved, and clears the request.
pub fn take_persist_request(s: &mut HudSettings) -> (r: bool)
    ensures
        r == old(s)@.persist_requested,
        final(s)@ == (SettingsView { persist_requested: false, ..old(s)@ }),
{
    proof {
        use_type_invariant(&*s);
    }
    let r = s.persist_requested;
    s.persist_requested = false;
    r
}

pub fn charts_visible(s: &HudSettings) -> (r: bool)
    ensures
        r == s@.charts_visible,
{
    s.charts_visible
}

/// Stores the flag; a change requests saving the configuration.
pub fn set_charts_visible(s: &mut HudSettings, visible: bool)
    ensures
        final(s)@ == (SettingsView {
            charts_visible: visible,
            persist_requested: old(s)@.persist_requested || old(s)@.charts_visible != visible,
            ..old(s)@
        }),
{
    proof {
        use_type_invariant(&*s);
    }
    let changed = s.charts_visible != visible;
    s.charts_visible = visible;
    persist_if(s, changed);
}

pub fn only_show_in_game(s: &HudSettings) -> (r: bool)
    ensures
        r == s@.only_show_in_game,
{
    s.only_show_in_game
}

/// Stores the flag; a change requests saving the configuration.
pub fn set_only_show_in_game(s: &mut HudSettings, visible: bool)
    ensures
        final(s)@ == (SettingsView {
            only_show_in_game: visible,
            persist_requested: old(s)@.persist_requested || old(s)@.only_show_in_game
                != visible,
            ..old(s)@
        }),
{
    proof {
        use_type_invariant(&*s);
    }
    let changed = s.only_show_in_game != visible;
    s.only_show_in_game = visible;
    persist_if(s, changed);
}

pub fn calibrate_hint_visible(s: &HudSettings) -> (r: bool)
    ensures
        r == s@.calibrate_hint_visible,
{
    s.calibrate_hint_visible
}

/// Stores the flag; a change requests saving the configuration.
pub fn set_calibrate_hint_visible(s: &mut HudSettings, visible: bool)
    ensures
        final(s)@ == (SettingsView {
            calibrate_hint_visible: visible,
            persist_requested: old(s)@.persist_requested || old(s)@.calibrate_hint_visible
                != visible,
            ..old(s)@
        }),
{
    proof {
        use_type_invariant(&*s);
    }
    let changed = s.calibrate_hint_visible != visible;
    s.calibrate_hint_visible = visible;
    persist_if(s, changed);
}

pub fn strict_calibrate_conditions(s: &HudSettings) -> (r: bool)
    ensures
        r == s@.strict_calibrate_conditions,
{
    s.strict_calibrate_conditions
}

/// Stores the flag; a change requests saving the configuration.
pub fn set_strict_calibrate_conditions(s: &mut HudSettings, strict: bool)
    ensures
        final(s)@ == (SettingsView {
            strict_calibrate_conditions: strict,
            persist_requested: old(s)@.persist_requested || old(s)@.strict_calibrate_conditions
                != strict,
            ..old(s)@
        }),
{
    proof {
        use_type_invariant(&*s);
    }
    let changed = s.strict_calibrate_conditions != strict;
    s.strict_calibrate_conditions = strict;
    persist_if(s, changed);
}

pub fn remember_calibrated_cars(s: &HudSettings) -> (r: bool)
    ensures
        r == s@.remember_calibrated_cars,
{
    s.remember_calibrated_cars
}

/// Stores the flag; a change requests saving the configuration.
pub fn set_remember_calibrated_cars(s: &mut HudSettings, remember: bool)
    ensures
        final(s)@ == (SettingsView {
            remember_calibrated_cars: remember,
            persist_requested: old(s)@.persist_requested || old(s)@.remember_calibrated_cars
                != remember,
            ..old(s)@
        }),
{
    proof {
        use_type_invariant(&*s);
    }
    let changed = s.remember_calibrated_cars != remember;
    s.remember_calibrated_cars = remember;
    persist_if(s, changed);
}

pub fn force_hud_visible(s: &HudSettings) -> (r: bool)
    ensures
        r == s@.force_hud_visible,
{
    s.force_hud_visible
}

/// Set while the settings window previews the HUD; never saved.
pub fn set_force_hud_visible(s: &mut HudSettings, force: bool)
    ensures
        final(s)@ == (SettingsView { force_hud_visible: force, ..old(s)@ }),
{
    proof {
        use_type_invariant(&*s);
    }
    s.force_hud_visible = force;
}

pub fn shift_lights_calibrated(s: &HudSettings) -> (r: bool)
    ensures
        r == s@.shift_lights_calibrated,
{
    s.shift_lights_calibrated
}

pub fn set_shift_lights_calibrated(s: &mut HudSettings, calibrated: bool)
    ensures
        final(s)@ == (SettingsView { shift_lights_calibrated: calibrated, ..old(s)@ }),
{
    proof {
        use_type_invariant(&*s);
    }
    s.shift_lights_calibrated = calibrated;
}

pub fn current_car_id(s: &HudSettings) -> (r: Option<CarId>)
    ensures
        r == s@.current_car_id,
{
    s.current_car_id
}

pub fn set_current_car_id(s: &mut HudSettings, id: Option<CarId>)
    ensures
        final(s)@ == (SettingsView { current_car_id: id, ..old(s)@ }),
{
    proof {
        use_type_invariant(&*s);
    }
    s.current_car_id = id;
}

/// Whether a fuel-cut rpm is on record for the car being driven.
pub fn current_car_has_saved_calibration(s: &HudSettings, cars: &CalibratedCars) -> (r: bool)
    ensures
        r == (s@.current_car_id matches Some(id) && cars.spec_fuel_cut_rpm_for(
            s@.remember_calibrated_cars,
            id,
        ) is Some),
{
    match current_car_id(s) {
        Some(id) => cars.fuel_cut_rpm_for(remember_calibrated_cars(s), id).is_some(),
        None => false,
    }
}

/// Forgets the calibration of the car being driven: its record is removed, the
/// lights are marked uncalibrated, and the HUD is asked to drop its runtime
/// calibration.
pub fn reset_current_car_calibration(s: &mut HudSettings, cars: &mut CalibratedCars)
    ensures
        final(s)@ == (SettingsView {
            shift_lights_calibrated: false,
            reset_current_calibration: true,
            ..old(s)@
        }),
        final(cars)@ == (match old(s)@.current_car_id {
            Some(id) => old(cars)@.remove(id),
            None => old(cars)@,
        }),
{
    proof {
        use_type_invariant(&*s);
    }
    if let Some(id) = current_car_id(s) {
        cars.remove_calibrated_car(id);
    }
    set_shift_lights_calibrated(s, false);
    s.reset_current_calibration = true;
}

/// Returns whether a reset of the current calibration was asked for, and
/// clears the request.
pub fn take_reset_current_calibration(s: &mut HudSettings) -> (r: bool)
    ensures
        r == old(s)@.reset_current_calibration,
        final(s)@ == (SettingsView { reset_current_calibration: false, ..old(s)@ }),
{
    proof {
        use_type_invariant(&*s);
    }
    let r = s.reset_current_calibration;
    s.reset_current_calibration = false;
    r
}

pub fn electric_car(s: &HudSettings) -> (r: bool)
    ensures
        r == s@.electric_car,
{
    s.electric_car
}

pub fn set_electric_car(s: &mut HudSettings, electric: bool)
    ensures
        final(s)@ == (SettingsView { electric_car: electric, ..old(s)@ }),
{
    proof {
        use_type_invariant(&*s);
    }
    s.electric_car = electric;
}

pub fn shift_lights_position(s: &HudSettings) -> (r: ShiftLightsPosition)
    ensures
        r == s@.shift_lights_position,
        s@.wf(),
{
    proof {
        use_type_invariant(s);
    }
    s.shift_lights_position
}

/// Moves the shift lights to another edge. The direction is reset to the
/// default one for that edge, also when the edge does not change; a change of
/// either requests saving the configuration.
pub fn set_shift_lights_position(s: &mut HudSettings, position: ShiftLightsPosition)
    ensures
        final(s)@ == (SettingsView {
            shift_lights_position: position,
            shift_lights_direction: ShiftLightsDirection::spec_default_for(position),
            persist_requested: old(s)@.persist_requested || old(s)@.shift_lights_position
                != position || old(s)@.shift_lights_direction
                != ShiftLightsDirection::spec_default_for(position),
            ..old(s)@
        }),
        final(s)@.wf(),
{
    proof {
        use_type_invariant(&*s);
    }
    let direction = ShiftLightsDirection::default_for(position);
    let changed = s.shift_lights_position != position || s.shift_lights_direction != direction;
    *s = HudSettings { shift_lights_position: position, shift_lights_direction: direction, ..*s };
    persist_if(s, changed);
}

pub fn shift_lights_direction(s: &HudSettings) -> (r: ShiftLightsDirection)
    ensures
        r == s@.shift_lights_direction,
        s@.wf(),
{
    proof {
        use_type_invariant(s);
    }
    s.shift_lights_direction
}

/// Changes the lighting order if it fits the current edge; otherwise nothing
/// changes. A change requests saving the configuration.
pub fn set_shift_lights_direction(s: &mut HudSettings, direction: ShiftLightsDirection)
    ensures
        direction.spec_is_compatible_with(old(s)@.shift_lights_position) ==> final(s)@ == (
        SettingsView {
            shift_lights_direction: direction,
            persist_requested: old(s)@.persist_requested || old(s)@.shift_lights_direction
                != direction,
            ..old(s)@
        }),
        !direction.spec_is_compatible_with(old(s)@.shift_lights_position) ==> final(s)@ == old(s)@,
        final(s)@.wf(),
{
    proof {
        use_type_invariant(&*s);
    }
    if direction.is_compatible_with(s.shift_lights_position) {
        let changed = s.shift_lights_direction != direction;
        s.shift_lights_direction = direction;
        persist_if(s, changed);
    }
}

pub fn shift_lights_offset_px(s: &HudSettings) -> (r: usize)
    ensures
        r == s@.shift_lights_offset_px,
{
    s.shift_lights_offset_px
}

/// Stores the distance from the screen edge; a change requests saving.
pub fn set_shift_lights_offset_px(s: &mut HudSettings, offset: usize)
    ensures
        final(s)@ == (SettingsView {
            shift_lights_offset_px: offset,
            persist_requested: old(s)@.persist_requested || old(s)@.shift_lights_offset_px
                != offset,
            ..old(s)@
        }),
{
    proof {
        use_type_invariant(&*s);
    }
    let changed = s.shift_lights_offset_px != offset;
    s.shift_lights_offset_px = offset;
    persist_if(s, changed);
}

pub fn shift_lights_thickness_px(s: &HudSettings) -> (r: usize)
    ensures
        r == s@.shift_lights_thickness_px,
        s@.wf(),
{
    proof {
        use_type_invariant(s);
    }
    s.shift_lights_thickness_px
}

/// Stores a strip thickness; zero is refused and leaves everything unchanged.
pub fn set_shift_lights_thickness_px(s: &mut HudSettings, thickness: usize) -> (r: Result<
    usize,
    String,
>)
    ensures
        thickness == 0 <==> r is Err,
        r matches Err(e) ==> e@ == "灯条厚度必须是大于 0 的整数。"@,
        r is Ok ==> r == Ok::<usize, String>(thickness),
        final(s)@ == (if thickness == 0 {
            old(s)@
        } else {
            SettingsView {
                shift_lights_thickness_px: thickness,
                persist_requested: old(s)@.persist_requested || old(s)@.shift_lights_thickness_px != thickness,
                ..old(s)@
            }
        }),
{
    proof {
        use_type_invariant(&*s);
    }
    if thickness == 0 {
        return Err(String::from_str("灯条厚度必须是大于 0 的整数。"));
    }
    let changed = s.shift_lights_thickness_px != thickness;
    s.shift_lights_thickness_px = thickness;
    persist_if(s, changed);
    Ok(thickness)
}

pub fn shift_lights_gap_px(s: &HudSettings) -> (r: usize)
    ensures
        r == s@.shift_lights_gap_px,
{
    s.shift_lights_gap_px
}

/// Stores the gap between cells; a change requests saving.
pub fn set_shift_lights_gap_px(s: &mut HudSettings, gap: usize)
    ensures
        final(s)@ == (SettingsView {
            shift_lights_gap_px: gap,
            persist_requested: old(s)@.persist_requested || old(s)@.shift_lights_gap_px != gap,
            ..old(s)@
        }),
{
    proof {
        use_type_invariant(&*s);
    }
    let changed = s.shift_lights_gap_px != gap;
    s.shift_lights_gap_px = gap;
    persist_if(s, changed);
}

pub fn shift_lights_width_percent(s: &HudSettings) -> (r: usize)
    ensures
        r == s@.shift_lights_width_percent,
        s@.wf(),
{
    proof {
        use_type_invariant(s);
    }
    s.shift_lights_width_percent
}

/// Stores the strip length as a percentage of the screen edge; only 1 to 100 is
/// accepted, anything else leaves everything unchanged.
pub fn set_shift_lights_width_percent(s: &mut HudSettings, width: usize) -> (r: Result<
    usize,
    String,
>)
    ensures
        !(1 <= width <= 100) <==> r is Err,
        r matches Err(e) ==> e@ == "整体宽度必须是 1 到 100 之间的整数百分比。"@,
        r is Ok ==> r == Ok::<usize, String>(width),
        final(s)@ == (if !(1 <= width <= 100) {
            old(s)@
        } else {
            SettingsView {
                shift_lights_width_percent: width,
                persist_requested: old(s)@.persist_requested || old(s)@.shift_lights_width_percent != width,
                ..old(s)@
            }
        }),
{
    proof {
        use_type_invariant(&*s);
    }
    if width < 1 || width > 100 {
        return Err(String::from_str("整体宽度必须是 1 到 100 之间的整数百分比。"));
    }
    let changed = s.shift_lights_width_percent != width;
    s.shift_lights_width_percent = width;
    persist_if(s, changed);
    Ok(width)
}

pub fn gear_display_size_px(s: &HudSettings) -> (r: usize)
    ensures
        r == s@.gear_display_size_px,
        s@.wf(),
{
    proof {
        use_type_invariant(s);
    }
    s.gear_display_size_px
}

/// Stores the height of the gear display; zero is refused and leaves everything
/// unchanged.
pub fn set_gear_display_size_px(s: &mut HudSettings, size: usize) -> (r: Result<usize, String>)
    ensures
        size == 0 <==> r is Err,
        r matches Err(e) ==> e@ == "挡位显示大小必须是大于 0 的整数。"@,
        r is Ok ==> r == Ok::<usize, String>(size),
        final(s)@ == (if size == 0 {
            old(s)@
        } else {
            SettingsView {
                gear_display_size_px: size,
                persist_requested: old(s)@.persist_requested || old(s)@.gear_display_size_px != size,
                ..old(s)@
            }
        }),
{
    proof {
        use_type_invariant(&*s);
    }
    if size == 0 {
        return Err(String::from_str("挡位显示大小必须是大于 0 的整数。"));
    }
    let changed = s.gear_display_size_px != size;
    s.gear_display_size_px = size;
    persist_if(s, changed);
    Ok(size)
}

pub fn gear_display_visible(s: &HudSettings) -> (r: bool)
    ensures
        r == s@.gear_display_visible,
{
    s.gear_display_visible
}

/// Stores the flag; a change requests saving the configuration.
pub fn set_gear_display_visible(s: &mut HudSettings, visible: bool)
    ensures
        final(s)@ == (SettingsView {
            gear_display_visible: visible,
            persist_requested: old(s)@.persist_requested || old(s)@.gear_display_visible
                != visible,
            ..old(s)@
        }),
{
    proof {
        use_type_invariant(&*s);
    }
    let changed = s.gear_display_visible != visible;
    s.gear_display_visible = visible;
    persist_if(s, changed);
}

pub fn calibrate_progress_direction(s: &HudSettings) -> (r: CalibrateProgressDirection)
    ensures
        r == s@.calibrate_progress_direction,
{
    s.calibrate_progress_direction
}

/// Stores the fill direction of the calibration bar; it is not saved.
pub fn set_calibrate_progress_direction(
    s: &mut HudSettings,
    direction: CalibrateProgressDirection,
)
    ensures
        final(s)@ == (SettingsView { calibrate_progress_direction: direction, ..old(s)@ }),
{
    proof {
        use_type_invariant(&*s);
    }
    s.calibrate_progress_direction = direction;
}

pub fn calibrate_ms(s: &HudSettings) -> (r: usize)
    ensures
        r == s@.calibrate_ms,
        s@.wf(),
{
    proof {
        use_type_invariant(s);
    }
    s.calibrate_ms
}

/// Number of samples the fuel cut must be held for a calibration.
pub open spec fn spec_calibrate_frames(ms: usize) -> int {
    let frames = SAMPLE_HZ * ms / 1000;
    if frames >= 1 {
        frames
    } else {
        1
    }
}

/// The calibration duration in samples, at least one.
pub fn calibrate_frames(s: &HudSettings) -> (r: usize)
    ensures
        r == spec_calibrate_frames(s@.calibrate_ms),
        r >= 1,
{
    proof {
        use_type_invariant(s);
    }
    let frames = SAMPLE_HZ * calibrate_ms(s) / 1000;
    if frames >= 1 {
        frames
    } else {
        1
    }
}

/// Stores a calibration duration; only `CALIBRATE_MS_MIN` to `CALIBRATE_MS_MAX`
/// milliseconds are accepted, anything else leaves everything unchanged.
pub fn set_calibrate_ms(s: &mut HudSettings, ms: usize) -> (r: Result<usize, String>)
    ensures
        !(CALIBRATE_MS_MIN <= ms <= CALIBRATE_MS_MAX) <==> r is Err,
        r matches Err(e) ==> e@ == "校准时长需在 100–5000 毫秒之间。"@,
        r is Ok ==> r == Ok::<usize, String>(ms),
        final(s)@ == (if !(CALIBRATE_MS_MIN <= ms <= CALIBRATE_MS_MAX) {
            old(s)@
        } else {
            SettingsView {
                calibrate_ms: ms,
                persist_requested: old(s)@.persist_requested || old(s)@.calibrate_ms != ms,
                ..old(s)@
            }
        }),
{
    proof {
        use_type_invariant(&*s);
    }
    if ms < CALIBRATE_MS_MIN || ms > CALIBRATE_MS_MAX {
        return Err(String::from_str("校准时长需在 100–5000 毫秒之间。"));
    }
    let changed = s.calibrate_ms != ms;
    s.calibrate_ms = ms;
    persist_if(s, changed);
    Ok(ms)
}

/// The settings the HUD reads while drawing, as far as they are not real
/// numbers, differ between two snapshots.
pub open spec fn spec_display_settings_changed(last: SettingsView, now: SettingsView) -> bool {
    ||| last.charts_visible != now.charts_visible
    ||| last.calibrate_hint_visible != now.calibrate_hint_visible
    ||| last.strict_calibrate_conditions != now.strict_calibrate_conditions
    ||| last.remember_calibrated_cars != now.remember_calibrated_cars
    ||| last.shift_lights_position != now.shift_lights_position
    ||| last.shift_lights_direction != now.shift_lights_direction
    ||| last.shift_lights_offset_px != now.shift_lights_offset_px
    ||| last.shift_lights_thickness_px != now.shift_lights_thickness_px
    ||| last.shift_lights_gap_px != now.shift_lights_gap_px
    ||| last.shift_lights_width_percent != now.shift_lights_width_percent
    ||| last.calibrate_progress_direction != now.calibrate_progress_direction
    ||| last.calibrate_ms != now.calibrate_ms
    ||| last.gear_display_size_px != now.gear_display_size_px
    ||| last.gear_display_visible != now.gear_display_visible
}

/// Whether the HUD has to be redrawn because one of its settings changed
/// since the snapshot `last`.
pub fn display_settings_changed(last: &HudSettings, now: &HudSettings) -> (r: bool)
    ensures
        r == spec_display_settings_changed(last@, now@),
{
    last.charts_visible != now.charts_visible || last.calibrate_hint_visible
        != now.calibrate_hint_visible || last.strict_calibrate_conditions
        != now.strict_calibrate_conditions || last.remember_calibrated_cars
        != now.remember_calibrated_cars || last.shift_lights_position != now.shift_lights_position
        || last.shift_lights_direction != now.shift_lights_direction
        || last.shift_lights_offset_px != now.shift_lights_offset_px
        || last.shift_lights_thickness_px != now.shift_lights_thickness_px
        || last.shift_lights_gap_px != now.shift_lights_gap_px || last.shift_lights_width_percent
        != now.shift_lights_width_percent || last.calibrate_progress_direction
        != now.calibrate_progress_direction || last.calibrate_ms != now.calibrate_ms
        || last.gear_display_size_px != now.gear_display_size_px || last.gear_display_visible
        != now.gear_display_visible
}

/// "Remember calibrated cars" was switched on since the snapshot `last`; the
/// HUD then looks up the current car again.
pub fn remember_just_enabled(last: &HudSettings, now: &HudSettings) -> (r: bool)
    ensures
        r == (now@.remember_calibrated_cars && !last@.remember_calibrated_cars),
{
    now.remember_calibrated_cars && !last.remember_calibrated_cars
}

/// What one turn of the HUD's sample loop does.
#[derive(Clone, Copy, Debug, PartialEq, Eq, Structural)]
pub struct PumpAction {
    /// The HUD is updated and redrawn this turn; otherwise nothing is done.
    pub update: bool,
    /// First, the runtime calibration is dropped (a reset was asked for).
    pub clear_calibration: bool,
    /// Then the current car's stored calibration is looked up again
    /// (remembering was just switched on).
    pub restore_stored: bool,
    // After these, the waiting samples are applied in order.
}

/// One turn of the sample loop: the HUD is updated when samples wait, a
/// calibration reset was asked for, a drawn setting changed since the last
/// update (`last`), or something the caller compares itself changed
/// (`others_changed`: the real-valued settings and the listener generation).
/// An update drops the runtime calibration on a reset, then restores the
/// stored one if remembering was switched on, then applies the samples; and
/// `last` becomes the current settings. Without an update `last` is kept.
pub fn pump_step(
    last: &mut HudSettings,
    now: &HudSettings,
    samples_waiting: bool,
    reset_requested: bool,
    others_changed: bool,
) -> (r: PumpAction)
    ensures
        r.update == (samples_waiting || reset_requested || others_changed
            || spec_display_settings_changed(old(last)@, now@)),
        r.clear_calibration == reset_requested,
        r.restore_stored == (r.update && now@.remember_calibrated_cars
            && !old(last)@.remember_calibrated_cars),
        *final(last) == (if r.update {
            *now
        } else {
            *old(last)
        }),
{
    let restore = remember_just_enabled(last, now);
    let update = samples_waiting || reset_requested || others_changed || display_settings_changed(
        last,
        now,
    );
    if update {
        *last = *now;
    }
    PumpAction { update, clear_calibration: reset_requested, restore_stored: update && restore }
}

/// One operation on a request flag: asking (`reset_current_car_calibration`
/// for the calibration reset, `platform::quit_app` for quitting), serving,
/// which answers the flag and clears it (`take_reset_current_calibration`,
/// `QuitRequest::take_quit_request`), or any other operation, which by its
/// contract leaves the flag as it was.
#[derive(Clone, Copy, Debug, PartialEq, Eq, Structural)]
pub enum RequestEvent {
    Ask,
    Serve,
    Other,
}

/// The flag after `events`, starting from `pending`.
pub open spec fn pending_after(pending: bool, events: Seq<RequestEvent>) -> bool
    decreases events.len(),
{
    if events.len() == 0 {
        pending
    } else {
        match events.last() {
            RequestEvent::Ask => true,
            RequestEvent::Serve => false,
            RequestEvent::Other => pending_after(pending, events.drop_last()),
        }
    }
}

/// The last ask or serve among `events`, if any.
pub open spec fn last_signal(events: Seq<RequestEvent>) -> Option<RequestEvent>
    decreases events.len(),
{
    if events.len() == 0 {
        None
    } else if events.last() == RequestEvent::Other {
        last_signal(events.drop_last())
    } else {
        Some(events.last())
    }
}

/// Over any interleaving of asks, serves and other operations, the flag is up
/// exactly when the last ask or serve was an ask (or, with neither, when it
/// was up at the start). So a serve answers `true` exactly when an ask came
/// since the previous serve; a serve leaves nothing pending, so two serves
/// with no ask between never both answer `true`; and several asks before one
/// serve count as one.
pub proof fn lemma_request_served_once(pending: bool, events: Seq<RequestEvent>)
    ensures
        pending_after(pending, events) == (match last_signal(events) {
            Some(RequestEvent::Ask) => true,
            Some(_) => false,
            None => pending,
        }),
        !pending_after(pending, events.push(RequestEvent::Serve)),
        pending_after(pending, events.push(RequestEvent::Ask)),
    decreases events.len(),
{
    assert(events.push(RequestEvent::Serve).drop_last() =~= events);
    assert(events.push(RequestEvent::Ask).drop_last() =~= events);
    if events.len() > 0 {
        lemma_request_served_once(pending, events.drop_last());
    }
}

/// The event at `j` is an ask that no later serve answered.
pub open spec fn ask_unserved(events: Seq<RequestEvent>, j: int) -> bool {
    &&& 0 <= j < events.len()
    &&& events[j] == RequestEvent::Ask
    &&& forall|k: int| j < k < events.len() ==> #[trigger] events[k] != RequestEvent::Serve
}

/// The last ask or serve was an ask exactly when some ask is followed by no
/// serve.
pub proof fn lemma_last_signal_ask(events: Seq<RequestEvent>)
    ensures
        last_signal(events) == Some(RequestEvent::Ask) <==> exists|j: int|
            #[trigger] ask_unserved(events, j),
    decreases events.len(),
{
    let n = events.len() as int;
    if n > 0 {
        let prefix = events.drop_last();
        lemma_last_signal_ask(prefix);
        if events[n - 1] == RequestEvent::Other {
            if last_signal(events) == Some(RequestEvent::Ask) {
                let j = choose|j: int| #[trigger] ask_unserved(prefix, j);
                assert forall|k: int| j < k < n implies #[trigger] events[k]
                    != RequestEvent::Serve by {
                    if k < n - 1 {
                        assert(events[k] == prefix[k]);
                        assert(prefix[k] != RequestEvent::Serve);
                    }
                }
                assert(ask_unserved(events, j));
            }
            if exists|j: int| #[trigger] ask_unserved(events, j) {
                let j = choose|j: int| #[trigger] ask_unserved(events, j);
                assert(j < n - 1);
                assert forall|k: int| j < k < n - 1 implies #[trigger] prefix[k]
                    != RequestEvent::Serve by {
                    assert(events[k] == prefix[k]);
                    assert(events[k] != RequestEvent::Serve);
                }
                assert(ask_unserved(prefix, j));
            }
        } else if events[n - 1] == RequestEvent::Ask {
            assert(ask_unserved(events, n - 1));
        } else {
            if exists|j: int| #[trigger] ask_unserved(events, j) {
                let j = choose|j: int| #[trigger] ask_unserved(events, j);
                if j < n - 1 {
                    assert(events[n - 1] != RequestEvent::Serve);
                }
            }
        }
    }
}

/// Reading back a stored code gives the value that was stored.
pub proof fn lemma_codes_roundtrip(
    p: ShiftLightsPosition,
    d: ShiftLightsDirection,
    c: CalibrateProgressDirection,
)
    ensures
        ShiftLightsPosition::from_code(p.code()) == p,
        ShiftLightsDirection::from_code(d.code()) == d,
        CalibrateProgressDirection::from_code(c.code()) == c,
{
}

/// Every code in range is the code of the value it reads as.
pub proof fn lemma_codes_onto(v: u8)
    ensures
        v < 4 ==> ShiftLightsPosition::from_code(v).code() == v,
        v < 4 ==> ShiftLightsDirection::from_code(v).code() == v,
        v < 3 ==> CalibrateProgressDirection::from_code(v).code() == v,
{
}

/// The default direction of every edge fits it, and every fitting direction
/// of an edge runs along it.
pub proof fn lemma_default_direction_fits(p: ShiftLightsPosition)
    ensures
        ShiftLightsDirection::spec_default_for(p).spec_is_compatible_with(p),
        ShiftLightsDirection::spec_default_for(p).spec_is_vertical() == p.spec_is_vertical(),
{
}

/// The settings of a fresh process satisfy the invariant.
pub proof fn lemma_initial_wf()
    ensures
        initial_settings().wf(),
{
}

/// The calibration duration in samples is the number of whole sample periods
/// (`1 / SAMPLE_HZ` s) in the duration, at least one; a longer duration never
/// needs fewer samples.
pub proof fn lemma_calibrate_frames_is_duration(ms: usize, longer: usize)
    requires
        ms <= longer,
    ensures
        spec_calibrate_frames(ms) >= 1,
        SAMPLE_HZ * ms >= 1000 ==> spec_calibrate_frames(ms) * 1000 <= SAMPLE_HZ * ms < (
        spec_calibrate_frames(ms) + 1) * 1000,
        SAMPLE_HZ * ms < 1000 ==> spec_calibrate_frames(ms) == 1,
        spec_calibrate_frames(ms) <= spec_calibrate_frames(longer),
{
    assert((60 * ms) / 1000 <= (60 * longer) / 1000) by (nonlinear_arith)
        requires
            ms <= longer,
    ;
}

/// Every drawn setting that differs between the snapshot and the current
/// settings makes the HUD redraw; when none differs, it does not.
pub proof fn lemma_display_changes_are_seen(last: SettingsView, now: SettingsView)
    ensures
        last.charts_visible != now.charts_visible ==> spec_display_settings_changed(last, now),
        last.calibrate_hint_visible != now.calibrate_hint_visible ==> spec_display_settings_changed(
            last,
            now,
        ),
        last.strict_calibrate_conditions != now.strict_calibrate_conditions
            ==> spec_display_settings_changed(last, now),
        last.remember_calibrated_cars != now.remember_calibrated_cars
            ==> spec_display_settings_changed(last, now),
        last.shift_lights_position != now.shift_lights_position ==> spec_display_settings_changed(
            last,
            now,
        ),
        last.shift_lights_direction != now.shift_lights_direction
            ==> spec_display_settings_changed(last, now),
        last.shift_lights_offset_px != now.shift_lights_offset_px
            ==> spec_display_settings_changed(last, now),
        last.shift_lights_thickness_px != now.shift_lights_thickness_px
            ==> spec_display_settings_changed(last, now),
        last.shift_lights_gap_px != now.shift_lights_gap_px ==> spec_display_settings_changed(
            last,
            now,
        ),
        last.shift_lights_width_percent != now.shift_lights_width_percent
            ==> spec_display_settings_changed(last, now),
        last.calibrate_progress_direction != now.calibrate_progress_direction
            ==> spec_display_settings_changed(last, now),
        last.calibrate_ms != now.calibrate_ms ==> spec_display_settings_changed(last, now),
        last.gear_display_size_px != now.gear_display_size_px ==> spec_display_settings_changed(
            last,
            now,
        ),
        last.gear_display_visible != now.gear_display_visible ==> spec_display_settings_changed(
            last,
            now,
        ),
        last == now ==> !spec_display_settings_changed(last, now),
{
}

} // verus!
