use horizon_hud::calibrated_cars::CalibratedCars;
use horizon_hud::hud::{
    calibrate_frames, calibrate_hint_visible, calibrate_ms, calibrate_progress_direction,
    charts_visible, current_car_has_saved_calibration, current_car_id, display_settings_changed,
    electric_car, force_hud_visible, gear_display_size_px, gear_display_visible,
    only_show_in_game, persist_if, remember_calibrated_cars, remember_just_enabled,
    reset_current_car_calibration, set_calibrate_hint_visible, set_calibrate_ms,
    set_calibrate_progress_direction, set_charts_visible, set_current_car_id, set_electric_car,
    set_force_hud_visible, set_gear_display_size_px, set_gear_display_visible,
    set_only_show_in_game, set_remember_calibrated_cars, set_shift_lights_calibrated,
    set_shift_lights_direction, set_shift_lights_gap_px, set_shift_lights_offset_px,
    set_shift_lights_position, set_shift_lights_thickness_px, set_shift_lights_width_percent,
    set_strict_calibrate_conditions, shift_lights_calibrated, shift_lights_direction,
    shift_lights_gap_px, shift_lights_offset_px, shift_lights_position,
    shift_lights_thickness_px, shift_lights_width_percent, strict_calibrate_conditions,
    take_persist_request, take_reset_current_calibration, CalibrateProgressDirection,
    HudSettings, ShiftLightsDirection, ShiftLightsPosition,
};
use horizon_hud::telemetry::CarId;

#[test]
fn fresh_settings_have_the_defaults() {
    let s = HudSettings::new();
    assert!(!charts_visible(&s));
    assert!(!calibrate_hint_visible(&s));
    assert!(only_show_in_game(&s));
    assert_eq!(shift_lights_position(&s), ShiftLightsPosition::Top);
    assert_eq!(shift_lights_direction(&s), ShiftLightsDirection::LeftToRight);
    assert_eq!(shift_lights_offset_px(&s), 0);
    assert_eq!(shift_lights_thickness_px(&s), 40);
    assert_eq!(shift_lights_gap_px(&s), 8);
    assert_eq!(shift_lights_width_percent(&s), 75);
    assert_eq!(calibrate_progress_direction(&s), CalibrateProgressDirection::BottomToTop);
    assert_eq!(calibrate_ms(&s), 500);
    assert_eq!(calibrate_frames(&s), 30);
    assert!(!strict_calibrate_conditions(&s));
    assert!(remember_calibrated_cars(&s));
    assert!(!force_hud_visible(&s));
    assert!(!shift_lights_calibrated(&s));
    assert!(!electric_car(&s));
    assert_eq!(current_car_id(&s), None);
    assert!(gear_display_visible(&s));
    assert!(gear_display_size_px(&s) > 0);
}

#[test]
fn flag_setters_request_saving_only_on_change() {
    let mut s = HudSettings::new();
    set_charts_visible(&mut s, false);
    assert!(!take_persist_request(&mut s));
    set_charts_visible(&mut s, true);
    assert!(charts_visible(&s));
    assert!(take_persist_request(&mut s));
    assert!(!take_persist_request(&mut s));
    set_only_show_in_game(&mut s, false);
    assert!(!only_show_in_game(&s));
    set_calibrate_hint_visible(&mut s, true);
    set_strict_calibrate_conditions(&mut s, true);
    set_remember_calibrated_cars(&mut s, false);
    set_gear_display_visible(&mut s, false);
    assert!(calibrate_hint_visible(&s));
    assert!(strict_calibrate_conditions(&s));
    assert!(!remember_calibrated_cars(&s));
    assert!(!gear_display_visible(&s));
    assert!(take_persist_request(&mut s));
}

#[test]
fn runtime_only_flags_never_request_saving() {
    let mut s = HudSettings::new();
    set_force_hud_visible(&mut s, true);
    set_shift_lights_calibrated(&mut s, true);
    set_electric_car(&mut s, true);
    set_current_car_id(&mut s, Some(CarId { ordinal: 1, class: 2, pi: 3 }));
    set_calibrate_progress_direction(&mut s, CalibrateProgressDirection::RightToLeft);
    assert!(force_hud_visible(&s));
    assert!(shift_lights_calibrated(&s));
    assert!(electric_car(&s));
    assert_eq!(current_car_id(&s), Some(CarId { ordinal: 1, class: 2, pi: 3 }));
    assert_eq!(calibrate_progress_direction(&s), CalibrateProgressDirection::RightToLeft);
    assert!(!take_persist_request(&mut s));
}

#[test]
fn persist_if_marks_only_when_changed() {
    let mut s = HudSettings::new();
    persist_if(&mut s, false);
    assert!(!take_persist_request(&mut s));
    persist_if(&mut s, true);
    persist_if(&mut s, false);
    assert!(take_persist_request(&mut s));
}

#[test]
fn position_resets_direction_to_its_default() {
    let mut s = HudSettings::new();
    set_shift_lights_direction(&mut s, ShiftLightsDirection::RightToLeft);
    assert_eq!(shift_lights_direction(&s), ShiftLightsDirection::RightToLeft);
    take_persist_request(&mut s);
    // Same edge again: the direction still goes back to the default.
    set_shift_lights_position(&mut s, ShiftLightsPosition::Top);
    assert_eq!(shift_lights_direction(&s), ShiftLightsDirection::LeftToRight);
    assert!(take_persist_request(&mut s));
    set_shift_lights_position(&mut s, ShiftLightsPosition::Left);
    assert_eq!(shift_lights_position(&s), ShiftLightsPosition::Left);
    assert_eq!(shift_lights_direction(&s), ShiftLightsDirection::BottomToTop);
    assert!(take_persist_request(&mut s));
    set_shift_lights_position(&mut s, ShiftLightsPosition::Left);
    assert!(!take_persist_request(&mut s));
}

#[test]
fn incompatible_direction_is_ignored() {
    let mut s = HudSettings::new();
    set_shift_lights_direction(&mut s, ShiftLightsDirection::TopToBottom);
    assert_eq!(shift_lights_direction(&s), ShiftLightsDirection::LeftToRight);
    assert!(!take_persist_request(&mut s));
    set_shift_lights_position(&mut s, ShiftLightsPosition::Right);
    set_shift_lights_direction(&mut s, ShiftLightsDirection::LeftToRight);
    assert_eq!(shift_lights_direction(&s), ShiftLightsDirection::BottomToTop);
    set_shift_lights_direction(&mut s, ShiftLightsDirection::TopToBottom);
    assert_eq!(shift_lights_direction(&s), ShiftLightsDirection::TopToBottom);
}

#[test]
fn thickness_must_be_positive() {
    let mut s = HudSettings::new();
    assert_eq!(set_shift_lights_thickness_px(&mut s, 0), Err("灯条厚度必须是大于 0 的整数。".to_string()));
    assert_eq!(shift_lights_thickness_px(&s), 40);
    assert!(!take_persist_request(&mut s));
    assert_eq!(set_shift_lights_thickness_px(&mut s, 1), Ok(1));
    assert_eq!(shift_lights_thickness_px(&s), 1);
    assert!(take_persist_request(&mut s));
}

#[test]
fn width_must_be_a_percentage() {
    let mut s = HudSettings::new();
    assert!(set_shift_lights_width_percent(&mut s, 0).is_err());
    assert!(set_shift_lights_width_percent(&mut s, 101).is_err());
    assert_eq!(shift_lights_width_percent(&s), 75);
    assert_eq!(set_shift_lights_width_percent(&mut s, 1), Ok(1));
    assert_eq!(set_shift_lights_width_percent(&mut s, 100), Ok(100));
    assert_eq!(shift_lights_width_percent(&s), 100);
}

#[test]
fn gear_display_size_must_be_positive() {
    let mut s = HudSettings::new();
    let before = gear_display_size_px(&s);
    assert_eq!(set_gear_display_size_px(&mut s, 0), Err("挡位显示大小必须是大于 0 的整数。".to_string()));
    assert_eq!(gear_display_size_px(&s), before);
    assert_eq!(set_gear_display_size_px(&mut s, 64), Ok(64));
    assert_eq!(gear_display_size_px(&s), 64);
}

#[test]
fn offset_and_gap_take_any_value() {
    let mut s = HudSettings::new();
    set_shift_lights_offset_px(&mut s, 0);
    assert!(!take_persist_request(&mut s));
    set_shift_lights_offset_px(&mut s, 12);
    set_shift_lights_gap_px(&mut s, 0);
    assert_eq!(shift_lights_offset_px(&s), 12);
    assert_eq!(shift_lights_gap_px(&s), 0);
    assert!(take_persist_request(&mut s));
}

#[test]
fn calibration_duration_bounds() {
    let mut s = HudSettings::new();
    assert_eq!(set_calibrate_ms(&mut s, 99), Err("校准时长需在 100–5000 毫秒之间。".to_string()));
    assert!(set_calibrate_ms(&mut s, 5001).is_err());
    assert_eq!(calibrate_ms(&s), 500);
    assert_eq!(set_calibrate_ms(&mut s, 100), Ok(100));
    assert_eq!(calibrate_frames(&s), 6);
    assert_eq!(set_calibrate_ms(&mut s, 5000), Ok(5000));
    assert_eq!(calibrate_frames(&s), 300);
    assert_eq!(set_calibrate_ms(&mut s, 1234), Ok(1234));
    assert_eq!(calibrate_frames(&s), 74);
}

#[test]
fn codes_round_trip() {
    for p in [
        ShiftLightsPosition::Bottom,
        ShiftLightsPosition::Right,
        ShiftLightsPosition::Top,
        ShiftLightsPosition::Left,
    ] {
        assert_eq!(ShiftLightsPosition::from_u8(p.to_u8()), p);
    }
    for d in [
        ShiftLightsDirection::LeftToRight,
        ShiftLightsDirection::RightToLeft,
        ShiftLightsDirection::BottomToTop,
        ShiftLightsDirection::TopToBottom,
    ] {
        assert_eq!(ShiftLightsDirection::from_u8(d.to_u8()), d);
    }
    for c in [
        CalibrateProgressDirection::LeftToRight,
        CalibrateProgressDirection::RightToLeft,
        CalibrateProgressDirection::BottomToTop,
    ] {
        assert_eq!(CalibrateProgressDirection::from_u8(c.to_u8()), c);
    }
    assert_eq!(ShiftLightsPosition::from_u8(200), ShiftLightsPosition::Bottom);
    assert_eq!(ShiftLightsDirection::from_u8(4), ShiftLightsDirection::LeftToRight);
    assert_eq!(CalibrateProgressDirection::from_u8(3), CalibrateProgressDirection::LeftToRight);
    assert_eq!(ShiftLightsPosition::Top.to_u8(), 2);
    assert_eq!(ShiftLightsDirection::TopToBottom.to_u8(), 3);
}

#[test]
fn direction_rules() {
    assert!(ShiftLightsPosition::Left.is_vertical());
    assert!(ShiftLightsPosition::Right.is_vertical());
    assert!(!ShiftLightsPosition::Top.is_vertical());
    assert!(!ShiftLightsPosition::Bottom.is_vertical());
    assert_eq!(ShiftLightsDirection::default_for(ShiftLightsPosition::Bottom), ShiftLightsDirection::LeftToRight);
    assert_eq!(ShiftLightsDirection::default_for(ShiftLightsPosition::Left), ShiftLightsDirection::BottomToTop);
    assert!(ShiftLightsDirection::RightToLeft.is_compatible_with(ShiftLightsPosition::Bottom));
    assert!(!ShiftLightsDirection::RightToLeft.is_compatible_with(ShiftLightsPosition::Right));
    assert!(ShiftLightsDirection::TopToBottom.is_compatible_with(ShiftLightsPosition::Right));
    assert!(ShiftLightsDirection::RightToLeft.reverses_visual_order());
    assert!(ShiftLightsDirection::BottomToTop.reverses_visual_order());
    assert!(!ShiftLightsDirection::LeftToRight.reverses_visual_order());
    assert!(!ShiftLightsDirection::TopToBottom.reverses_visual_order());
}

#[test]
fn saved_calibration_of_current_car() {
    let mut s = HudSettings::new();
    let mut cars = CalibratedCars::new();
    let car = CarId { ordinal: 3001, class: 4, pi: 900 };
    assert!(!current_car_has_saved_calibration(&s, &cars));
    cars.upsert_calibrated_car(true, car, 7100.0f32.to_bits());
    assert!(!current_car_has_saved_calibration(&s, &cars));
    set_current_car_id(&mut s, Some(car));
    assert!(current_car_has_saved_calibration(&s, &cars));
    set_remember_calibrated_cars(&mut s, false);
    assert!(!current_car_has_saved_calibration(&s, &cars));
    set_remember_calibrated_cars(&mut s, true);
    assert!(current_car_has_saved_calibration(&s, &cars));
}

#[test]
fn resetting_current_car_calibration() {
    let mut s = HudSettings::new();
    let mut cars = CalibratedCars::new();
    let car = CarId { ordinal: 1, class: 1, pi: 1 };
    let other = CarId { ordinal: 2, class: 1, pi: 1 };
    cars.upsert_calibrated_car(true, car, 1);
    cars.upsert_calibrated_car(true, other, 2);
    set_current_car_id(&mut s, Some(car));
    set_shift_lights_calibrated(&mut s, true);
    reset_current_car_calibration(&mut s, &mut cars);
    assert!(!shift_lights_calibrated(&s));
    assert_eq!(cars.fuel_cut_rpm_for(true, car), None);
    assert_eq!(cars.fuel_cut_rpm_for(true, other), Some(2));
    assert!(take_reset_current_calibration(&mut s));
    assert!(!take_reset_current_calibration(&mut s));
    assert!(!take_persist_request(&mut s));
}

#[test]
fn redraw_detection() {
    let last = HudSettings::new();
    let mut now = last;
    assert!(!display_settings_changed(&last, &now));
    set_force_hud_visible(&mut now, true);
    set_only_show_in_game(&mut now, false);
    assert!(!display_settings_changed(&last, &now));
    set_shift_lights_gap_px(&mut now, 9);
    assert!(display_settings_changed(&last, &now));
    let mut off = HudSettings::new();
    set_remember_calibrated_cars(&mut off, false);
    assert!(remember_just_enabled(&off, &last));
    assert!(!remember_just_enabled(&last, &off));
    assert!(!remember_just_enabled(&last, &last));
}
