//! Requests to open the settings window, and when the window forces the HUD
//! to be shown.
use vstd::prelude::*;

use crate::calibrated_cars::CalibratedCars;
use crate::hud::{self, HudSettings, ShiftLightsDirection, ShiftLightsPosition};
use crate::settings_section::SettingsSection;
use crate::telemetry::{listen_addr_display, listen_error, spec_addr_display, ListenerState};

verus! {

/// The last request to open the settings window not yet served.
#[derive(Clone, Copy, Debug, PartialEq, Eq, Structural)]
pub enum OpenRequest {
    Idle,
    /// Open on the page last shown (the overview for a new window).
    Default,
    /// Open on the shift light page.
    ShiftLights,
}

/// Holder of the pending open request, shared by the tray and the UI loop.
pub struct OpenRequests {
    pending: OpenRequest,
}

impl View for OpenRequests {
    type V = OpenRequest;

    closed spec fn view(&self) -> OpenRequest {
        self.pending
    }
}

impl OpenRequests {
    pub fn new() -> (r: OpenRequests)
        ensures
            r@ == OpenRequest::Idle,
    {
        OpenRequests { pending: OpenRequest::Idle }
    }
}

/// Asks for the settings window on its default page; replaces an earlier
/// request.
pub fn request_open(r: &mut OpenRequests)
    ensures
        final(r)@ == OpenRequest::Default,
{
    r.pending = OpenRequest::Default;
}

/// Asks for the settings window on the shift light page; replaces an earlier
/// request.
pub fn request_open_shift_lights(r: &mut OpenRequests)
    ensures
        final(r)@ == OpenRequest::ShiftLights,
{
    r.pending = OpenRequest::ShiftLights;
}

/// Serves the pending request: `None` when there is none, otherwise the page
/// to open (`Some(None)` for the default page). The request is cleared.
pub fn take_open_request(r: &mut OpenRequests) -> (out: Option<Option<SettingsSection>>)
    ensures
        final(r)@ == OpenRequest::Idle,
        out == (match old(r)@ {
            OpenRequest::Idle => None,
            OpenRequest::Default => Some(None),
            OpenRequest::ShiftLights => Some(Some(SettingsSection::ShiftLights)),
        }),
{
    let pending = r.pending;
    r.pending = OpenRequest::Idle;
    match pending {
        OpenRequest::Idle => None,
        OpenRequest::Default => Some(None),
        OpenRequest::ShiftLights => Some(Some(SettingsSection::ShiftLights)),
    }
}

/// The HUD is forced visible while the settings window is active on a page
/// that previews it.
pub fn should_force_hud(section: SettingsSection, window_active: bool) -> (r: bool)
    ensures
        r == (window_active && (section == SettingsSection::Hud || section
            == SettingsSection::ShiftLights || section == SettingsSection::GearDisplay)),
{
    window_active && match section {
        SettingsSection::Hud | SettingsSection::ShiftLights | SettingsSection::GearDisplay => true,
        _ => false,
    }
}

/// `p` occurs in `s`.
pub open spec fn contains_text(s: Seq<char>, p: Seq<char>) -> bool {
    exists|i: int| 0 <= i && i + p.len() <= s.len() && #[trigger] s.subrange(i, i + p.len()) == p
}

fn occurs_at(s: &str, p: &str, i: usize) -> (r: bool)
    requires
        i + p@.len() <= s@.len(),
    ensures
        r == (s@.subrange(i as int, i + p@.len()) == p@),
{
    let m = p.unicode_len();
    let n = s.unicode_len();
    let mut j: usize = 0;
    while j < m
        invariant
            j <= m,
            m == p@.len(),
            n == s@.len(),
            i + m <= n,
            forall|k: int| 0 <= k < j ==> s@[i + k] == p@[k],
        decreases m - j,
    {
        if s.get_char(i + j) != p.get_char(j) {
            assert(s@.subrange(i as int, i + p@.len())[j as int] != p@[j as int]);
            return false;
        }
        j = j + 1;
    }
    assert(s@.subrange(i as int, i + p@.len()) =~= p@);
    true
}

/// Whether `p` occurs in `s`.
pub fn text_contains(s: &str, p: &str) -> (r: bool)
    ensures
        r == contains_text(s@, p@),
{
    let n = s.unicode_len();
    let m = p.unicode_len();
    if m > n {
        return false;
    }
    if m == 0 {
        assert(s@.subrange(0int, 0int + p@.len()) =~= p@);
        return true;
    }
    let mut i: usize = 0;
    while i <= n - m
        invariant
            1 <= m <= n,
            i <= n - m + 1,
            n == s@.len(),
            m == p@.len(),
            forall|k: int| 0 <= k < i ==> #[trigger] s@.subrange(k, k + m) != p@,
        decreases n - m + 1 - i,
    {
        if occurs_at(s, p, i) {
            return true;
        }
        i = i + 1;
    }
    proof {
        assert forall|k: int| 0 <= k && k + p@.len() <= s@.len() implies #[trigger] s@.subrange(
            k,
            k + p@.len(),
        ) != p@ by {
            assert(k < i);
        }
    }
    false
}

/// The warning shown after a listen address was refused and the default one
/// restored: it names the port when the error mentions the port, the bind when
/// binding failed, and the address otherwise.
pub fn listen_addr_warning_message(error: &str) -> (r: &'static str)
    ensures
        contains_text(error@, "端口"@) ==> r@ == "端口无效，已恢复为默认值。"@,
        !contains_text(error@, "端口"@) && contains_text(error@, "无法绑定"@) ==> r@
            == "无法绑定该地址，已恢复为默认值。"@,
        !contains_text(error@, "端口"@) && !contains_text(error@, "无法绑定"@) ==> r@
            == "监听地址无效，已恢复为默认值。"@,
{
    if text_contains(error, "端口") {
        "端口无效，已恢复为默认值。"
    } else if text_contains(error, "无法绑定") {
        "无法绑定该地址，已恢复为默认值。"
    } else {
        "监听地址无效，已恢复为默认值。"
    }
}

/// The part of the runtime state that the settings window shows outside its
/// input fields; the window is redrawn when it changes.
#[derive(Clone, Copy, Debug, PartialEq, Eq, Structural)]
pub struct PanelSnapshot {
    pub charts_visible: bool,
    pub only_show_in_game: bool,
    pub calibrate_hint_visible: bool,
    pub strict_calibrate_conditions: bool,
    pub remember_calibrated_cars: bool,
    pub shift_lights_position: ShiftLightsPosition,
    pub shift_lights_direction: ShiftLightsDirection,
    pub shift_lights_calibrated: bool,
    pub electric_car: bool,
    pub has_saved_calibration: bool,
}

pub open spec fn spec_panel_snapshot(s: hud::SettingsView, cars: CalibratedCars) -> PanelSnapshot {
    PanelSnapshot {
        charts_visible: s.charts_visible,
        only_show_in_game: s.only_show_in_game,
        calibrate_hint_visible: s.calibrate_hint_visible,
        strict_calibrate_conditions: s.strict_calibrate_conditions,
        remember_calibrated_cars: s.remember_calibrated_cars,
        shift_lights_position: s.shift_lights_position,
        shift_lights_direction: s.shift_lights_direction,
        shift_lights_calibrated: s.shift_lights_calibrated,
        electric_car: s.electric_car,
        has_saved_calibration: s.current_car_id matches Some(id) && cars.spec_fuel_cut_rpm_for(
            s.remember_calibrated_cars,
            id,
        ) is Some,
    }
}

/// Reads the panel state from the runtime settings and the calibration
/// records.
pub fn panel_snapshot(s: &HudSettings, cars: &CalibratedCars) -> (r: PanelSnapshot)
    ensures
        r == spec_panel_snapshot(s@, *cars),
{
    PanelSnapshot {
        charts_visible: hud::charts_visible(s),
        only_show_in_game: hud::only_show_in_game(s),
        calibrate_hint_visible: hud::calibrate_hint_visible(s),
        strict_calibrate_conditions: hud::strict_calibrate_conditions(s),
        remember_calibrated_cars: hud::remember_calibrated_cars(s),
        shift_lights_position: hud::shift_lights_position(s),
        shift_lights_direction: hud::shift_lights_direction(s),
        shift_lights_calibrated: hud::shift_lights_calibrated(s),
        electric_car: hud::electric_car(s),
        has_saved_calibration: hud::current_car_has_saved_calibration(s, cars),
    }
}

/// Brings the window's last seen panel state up to date; returns whether it
/// changed, that is whether the window has to be redrawn.
pub fn sync_hud_settings(last: &mut PanelSnapshot, s: &HudSettings, cars: &CalibratedCars) -> (r:
    bool)
    ensures
        *final(last) == spec_panel_snapshot(s@, *cars),
        r == (*old(last) != spec_panel_snapshot(s@, *cars)),
{
    let now = panel_snapshot(s, cars);
    let changed = *last != now;
    *last = now;
    changed
}

/// What serving an open request does with the settings window.
#[derive(Clone, Copy, Debug, PartialEq, Eq, Structural)]
pub enum OpenAction {
    /// Bring the open window to the front, switching to `select` if given.
    Activate { select: Option<SettingsSection> },
    /// Create the window, showing `initial` first.
    Create { initial: SettingsSection },
}

pub open spec fn spec_initial_section(section: Option<SettingsSection>) -> SettingsSection {
    match section {
        Some(p) => p,
        None => SettingsSection::Overview,
    }
}

/// An open window is reused; a new one starts on the requested page, the
/// overview by default.
pub fn open_action(window_open: bool, section: Option<SettingsSection>) -> (r: OpenAction)
    ensures
        window_open ==> r == (OpenAction::Activate { select: section }),
        !window_open ==> r == (OpenAction::Create { initial: spec_initial_section(section) }),
{
    if window_open {
        OpenAction::Activate { select: section }
    } else {
        match section {
            Some(p) => OpenAction::Create { initial: p },
            None => OpenAction::Create { initial: SettingsSection::Overview },
        }
    }
}

/// The calibration card of the overview page: its state and explanation.
pub fn calibration_status(electric: bool, calibrated: bool) -> (r: (&'static str, &'static str))
    ensures
        electric ==> r.0@ == "无需校准"@ && r.1@ == "当前车辆为电动车，无需执行校准。"@,
        !electric && calibrated ==> r.0@ == "已完成"@ && r.1@ == "已记录当前车辆的转速范围。"@,
        !electric && !calibrated ==> r.0@ == "等待校准"@ && r.1@
            == "同时按下手刹和油门，等待转速上升完成校准"@,
{
    if electric {
        ("无需校准", "当前车辆为电动车，无需执行校准。")
    } else if calibrated {
        ("已完成", "已记录当前车辆的转速范围。")
    } else {
        ("等待校准", "同时按下手刹和油门，等待转速上升完成校准")
    }
}

/// The listener card of the overview page: its state, its detail (the
/// address while it listens, the bind error otherwise) and whether it listens.
pub fn listener_status(l: &ListenerState) -> (r: (&'static str, String, bool))
    ensures
        l@.error matches Some(e) ==> r.0@ == "监听异常"@ && r.1@ == e && !r.2,
        l@.error is None ==> r.0@ == "正在监听"@ && r.1@ == "UDP · "@ + spec_addr_display(
            l@.host,
            l@.port,
        ) && r.2,
{
    match listen_error(l) {
        Some(error) => ("监听异常", error, false),
        None => {
            let mut detail = String::from_str("UDP · ");
            let addr = listen_addr_display(l);
            detail.append(addr.as_str());
            ("正在监听", detail, true)
        },
    }
}

/// The panel snapshot shows the runtime state as it is: each flag, the edge
/// and direction, and whether a calibration is on record for the car being
/// driven (only while remembering is on).
pub proof fn lemma_panel_snapshot_shows_state(s: hud::SettingsView, cars: CalibratedCars)
    ensures
        spec_panel_snapshot(s, cars).charts_visible == s.charts_visible,
        spec_panel_snapshot(s, cars).only_show_in_game == s.only_show_in_game,
        spec_panel_snapshot(s, cars).calibrate_hint_visible == s.calibrate_hint_visible,
        spec_panel_snapshot(s, cars).strict_calibrate_conditions == s.strict_calibrate_conditions,
        spec_panel_snapshot(s, cars).remember_calibrated_cars == s.remember_calibrated_cars,
        spec_panel_snapshot(s, cars).shift_lights_position == s.shift_lights_position,
        spec_panel_snapshot(s, cars).shift_lights_direction == s.shift_lights_direction,
        spec_panel_snapshot(s, cars).shift_lights_calibrated == s.shift_lights_calibrated,
        spec_panel_snapshot(s, cars).electric_car == s.electric_car,
        spec_panel_snapshot(s, cars).has_saved_calibration == (s.remember_calibrated_cars && (
        s.current_car_id matches Some(id) && cars@.contains_key(id))),
{
}

} // verus!
