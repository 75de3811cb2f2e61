use horizon_hud::calibration::{hud_hint, HudHint};
use horizon_hud::hud::{reset_current_car_calibration, take_reset_current_calibration};
use horizon_hud::hud::{
    set_gear_display_size_px, set_shift_lights_thickness_px, set_shift_lights_width_percent,
};
use horizon_hud::settings::calibration_status;
use horizon_hud::calibrated_cars::CalibratedCars;
use horizon_hud::calibration::{
    calibration_holding, car_change, gear_display, CalibrateStep, CalibrationCounter, CarChange,
};
use horizon_hud::hud::{
    set_calibrate_ms, set_force_hud_visible, set_only_show_in_game, HudSettings,
};
use horizon_hud::platform::{
    foreground_is_game, hud_visible, quit_app, try_become_singleton, QuitRequest,
    SingletonAction, SingletonWait,
};
use horizon_hud::settings::{
    request_open, request_open_shift_lights, should_force_hud, take_open_request, OpenRequests,
};
use horizon_hud::settings_section::SettingsSection;
use horizon_hud::telemetry::CarId;

const ALL_SECTIONS: [SettingsSection; 7] = [
    SettingsSection::Overview,
    SettingsSection::Hud,
    SettingsSection::ShiftLights,
    SettingsSection::GearDisplay,
    SettingsSection::Telemetry,
    SettingsSection::Calibration,
    SettingsSection::About,
];

#[test]
fn section_texts() {
    assert_eq!(SettingsSection::Overview.label(), "概览");
    assert_eq!(SettingsSection::Telemetry.description(), "配置 UDP 遥测监听地址和端口。");
    assert_eq!(SettingsSection::About.icon_path(), "icons/info.svg");
    assert_eq!(SettingsSection::GearDisplay.placeholder_rows()[1], ("大小", "调整七段数码管的高度。"));
    assert_eq!(SettingsSection::About.placeholder_rows()[0].0, "Horizon HUD");
}

#[test]
fn section_indices_are_distinct_positions() {
    for (i, s) in ALL_SECTIONS.iter().enumerate() {
        assert_eq!(s.index(), i as u64);
    }
}

#[test]
fn game_detection_by_file_name() {
    assert!(foreground_is_game("C:\\Games\\Forza\\forzahorizon6.exe"));
    assert!(foreground_is_game("D:/steam/ForzaHorizon6.EXE"));
    assert!(foreground_is_game("forzahorizon6.exe"));
    assert!(!foreground_is_game("C:\\Games\\forzahorizon5.exe"));
    assert!(!foreground_is_game("C:\\forzahorizon6.exe\\other.exe"));
    assert!(!foreground_is_game("C:\\Games\\xforzahorizon6.exe"));
    assert!(!foreground_is_game("C:\\Games\\"));
    assert!(!foreground_is_game(""));
    assert!(!foreground_is_game("C:\\ＦorzaHorizon6.exe"));
}

#[test]
fn hud_visibility_rule() {
    let mut s = HudSettings::new();
    assert!(!hud_visible(&s, false));
    assert!(hud_visible(&s, true));
    set_force_hud_visible(&mut s, true);
    assert!(hud_visible(&s, false));
    set_force_hud_visible(&mut s, false);
    set_only_show_in_game(&mut s, false);
    assert!(hud_visible(&s, false));
}

#[test]
fn quit_request_is_served_once() {
    let mut q = QuitRequest::new();
    assert!(!q.take_quit_request());
    quit_app(&mut q);
    assert!(q.take_quit_request());
    assert!(!q.take_quit_request());
}

#[test]
fn singleton_decisions() {
    assert_eq!(try_become_singleton(SingletonWait::TimedOut), SingletonAction::ActivateOther);
    assert_eq!(try_become_singleton(SingletonWait::Acquired), SingletonAction::RunAsOwner);
    assert_eq!(try_become_singleton(SingletonWait::Abandoned), SingletonAction::RunAsOwner);
    assert_eq!(try_become_singleton(SingletonWait::Failed), SingletonAction::RunUnguarded);
    assert_eq!(try_become_singleton(SingletonWait::NoMutex), SingletonAction::RunUnguarded);
}

#[test]
fn open_requests_last_one_wins() {
    let mut r = OpenRequests::new();
    assert_eq!(take_open_request(&mut r), None);
    request_open(&mut r);
    assert_eq!(take_open_request(&mut r), Some(None));
    assert_eq!(take_open_request(&mut r), None);
    request_open(&mut r);
    request_open_shift_lights(&mut r);
    assert_eq!(take_open_request(&mut r), Some(Some(SettingsSection::ShiftLights)));
    request_open_shift_lights(&mut r);
    request_open(&mut r);
    assert_eq!(take_open_request(&mut r), Some(None));
}

#[test]
fn force_hud_only_on_preview_pages() {
    for s in ALL_SECTIONS {
        let previews = matches!(
            s,
            SettingsSection::Hud | SettingsSection::ShiftLights | SettingsSection::GearDisplay
        );
        assert_eq!(should_force_hud(s, true), previews);
        assert!(!should_force_hud(s, false));
    }
}

#[test]
fn gear_labels() {
    assert_eq!(gear_display(None), "--");
    assert_eq!(gear_display(Some(0)), "r");
    assert_eq!(gear_display(Some(1)), "1");
    assert_eq!(gear_display(Some(9)), "9");
    assert_eq!(gear_display(Some(10)), "10");
    assert_eq!(gear_display(Some(11)), "n");
    assert_eq!(gear_display(Some(255)), "n");
}

#[test]
fn holding_conditions() {
    assert!(calibration_holding(false, 0, 1, true));
    assert!(!calibration_holding(false, 0, 0, true));
    assert!(!calibration_holding(false, 9, 9, false));
    assert!(!calibration_holding(true, 0, 1, true));
    assert!(calibration_holding(true, 1, 1, true));
}

#[test]
fn calibration_completes_after_duration_and_peak_hold() {
    let mut c = CalibrationCounter::new();
    // 30 frames required, peak hold of 24 frames.
    for i in 1..30 {
        assert_eq!(c.step(true, false, 30), CalibrateStep::Holding);
        assert_eq!(c.frames(), i);
    }
    assert_eq!(c.step(true, false, 30), CalibrateStep::Complete);
    assert_eq!(c.frames(), 0);
}

#[test]
fn new_peak_restarts_the_hold() {
    let mut c = CalibrationCounter::new();
    for _ in 0..6 {
        assert_eq!(c.step(true, false, 6), CalibrateStep::Holding);
    }
    assert_eq!(c.step(true, true, 6), CalibrateStep::Holding);
    for _ in 0..23 {
        assert_eq!(c.step(true, false, 6), CalibrateStep::Holding);
    }
    assert_eq!(c.step(true, false, 6), CalibrateStep::Complete);
}

#[test]
fn letting_go_resets() {
    let mut c = CalibrationCounter::new();
    c.step(true, false, 30);
    c.step(true, false, 30);
    assert_eq!(c.step(false, false, 30), CalibrateStep::Reset);
    assert_eq!(c.frames(), 0);
    c.step(true, true, 30);
    c.reset_calibration();
    assert_eq!(c.frames(), 0);
}

#[test]
fn calibration_progress_frames() {
    let mut s = HudSettings::new();
    let mut c = CalibrationCounter::new();
    assert_eq!(c.calibrate_progress(false, &s), None);
    c.step(true, false, 30);
    c.step(true, false, 30);
    assert_eq!(c.calibrate_progress(false, &s), Some((2, 54)));
    assert_eq!(c.calibrate_progress(true, &s), None);
    let _ = set_calibrate_ms(&mut s, 100);
    assert_eq!(c.calibrate_progress(false, &s), Some((2, 30)));
}

#[test]
fn car_changes() {
    let a = CarId { ordinal: 1, class: 2, pi: 3 };
    let b = CarId { ordinal: 1, class: 2, pi: 4 };
    assert_eq!(car_change(None, None), CarChange::Unchanged);
    assert_eq!(car_change(Some(a), None), CarChange::Unchanged);
    assert_eq!(car_change(None, Some(a)), CarChange::First);
    assert_eq!(car_change(Some(a), Some(a)), CarChange::Unchanged);
    assert_eq!(car_change(Some(a), Some(b)), CarChange::Switched);
}

#[test]
fn calibrated_cars_store() {
    let a = CarId { ordinal: 10, class: 1, pi: 500 };
    let b = CarId { ordinal: 11, class: 1, pi: 500 };
    let mut cars = CalibratedCars::new();
    assert_eq!(cars.fuel_cut_rpm_for(true, a), None);
    cars.upsert_calibrated_car(false, a, 5);
    assert_eq!(cars.fuel_cut_rpm_for(true, a), None);
    cars.upsert_calibrated_car(true, a, 5);
    cars.upsert_calibrated_car(true, b, 6);
    cars.upsert_calibrated_car(true, a, 7);
    assert_eq!(cars.fuel_cut_rpm_for(true, a), Some(7));
    assert_eq!(cars.fuel_cut_rpm_for(false, a), None);
    assert_eq!(cars.records().len(), 2);
    cars.remove_calibrated_car(a);
    cars.remove_calibrated_car(a);
    assert_eq!(cars.fuel_cut_rpm_for(true, a), None);
    assert_eq!(cars.fuel_cut_rpm_for(true, b), Some(6));
    let again = CalibratedCars::from_records(&vec![(a, 1), (b, 2), (a, 3)]);
    assert_eq!(again.fuel_cut_rpm_for(true, a), Some(3));
    assert_eq!(again.records().len(), 2);
}

#[test]
fn calibration_records_round_trip() {
    let a = CarId { ordinal: 10, class: 1, pi: 500 };
    let b = CarId { ordinal: 11, class: 2, pi: 600 };
    let c = CarId { ordinal: 12, class: 3, pi: 700 };
    let mut cars = CalibratedCars::new();
    cars.upsert_calibrated_car(true, a, 7100.0f32.to_bits());
    cars.upsert_calibrated_car(true, b, 8200.0f32.to_bits());
    cars.upsert_calibrated_car(true, c, 6900.0f32.to_bits());
    cars.remove_calibrated_car(b);
    let back = CalibratedCars::from_records(&cars.records());
    for id in [a, b, c] {
        assert_eq!(back.fuel_cut_rpm_for(true, id), cars.fuel_cut_rpm_for(true, id));
    }
    assert_eq!(back.records().len(), 2);
}

#[test]
fn overview_calibration_card_and_hud_hint() {
    assert_eq!(calibration_status(true, false), ("无需校准", "当前车辆为电动车，无需执行校准。"));
    assert_eq!(calibration_status(false, true), ("已完成", "已记录当前车辆的转速范围。"));
    assert_eq!(
        calibration_status(false, false),
        ("等待校准", "同时按下手刹和油门，等待转速上升完成校准")
    );
    assert_eq!(hud_hint(false, false, false, false), None);
    assert_eq!(hud_hint(true, false, true, true), Some(HudHint::WaitingForData));
    assert_eq!(hud_hint(true, true, true, false), None);
    assert_eq!(hud_hint(true, true, false, true), Some(HudHint::Calibrating));
    assert_eq!(hud_hint(true, true, false, false), Some(HudHint::Instructions));
}

#[test]
fn validators_name_the_rule() {
    let mut s = HudSettings::new();
    assert_eq!(set_shift_lights_thickness_px(&mut s, 0), Err("灯条厚度必须是大于 0 的整数。".to_string()));
    assert_eq!(
        set_shift_lights_width_percent(&mut s, 101),
        Err("整体宽度必须是 1 到 100 之间的整数百分比。".to_string())
    );
    assert_eq!(set_gear_display_size_px(&mut s, 0), Err("挡位显示大小必须是大于 0 的整数。".to_string()));
    assert_eq!(set_calibrate_ms(&mut s, 99), Err("校准时长需在 100–5000 毫秒之间。".to_string()));
}

#[test]
fn calibration_completes_whenever_the_peak_settles() {
    // Peak rises at samples 1, 5 and 20; required 30 samples; hold 24.
    let mut c = CalibrationCounter::new();
    let mut done_at = None;
    for k in 1..=60usize {
        let new_peak = k == 1 || k == 5 || k == 20;
        if c.step(true, new_peak, 30) == CalibrateStep::Complete {
            done_at = Some(k);
            break;
        }
    }
    assert_eq!(done_at, Some(44));
}

#[test]
fn reset_request_is_served_once() {
    let mut s = HudSettings::new();
    let mut cars = CalibratedCars::new();
    assert!(!take_reset_current_calibration(&mut s));
    reset_current_car_calibration(&mut s, &mut cars);
    reset_current_car_calibration(&mut s, &mut cars);
    set_only_show_in_game(&mut s, false);
    assert!(take_reset_current_calibration(&mut s));
    assert!(!take_reset_current_calibration(&mut s));
    let mut quit = QuitRequest::new();
    quit_app(&mut quit);
    quit_app(&mut quit);
    assert!(quit.take_quit_request());
    assert!(!quit.take_quit_request());
}

#[test]
fn records_name_each_car_once() {
    let a = CarId { ordinal: 1, class: 1, pi: 1 };
    let mut cars = CalibratedCars::new();
    cars.upsert_calibrated_car(true, a, 1);
    cars.upsert_calibrated_car(true, a, 2);
    assert_eq!(cars.records(), vec![(a, 2)]);
}
