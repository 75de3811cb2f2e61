use horizon_hud::calibrated_cars::CalibratedCars;
use horizon_hud::hud::{
    current_car_has_saved_calibration, set_charts_visible, set_current_car_id,
    set_shift_lights_position, take_persist_request, HudSettings, ShiftLightsDirection,
    ShiftLightsPosition,
};
use horizon_hud::icon::{
    bgra_icon, icon_and_mask, mask_stride, swap_red_blue, tray_icon_rgba, window_icon_bgra,
};
use horizon_hud::hud::{pump_step, set_remember_calibrated_cars, PumpAction};
use horizon_hud::parse::trim_text;
use horizon_hud::lights::{
    light_color, light_slot, shift_blink_on, shift_light_cells, LightCell, RPM_LIGHT_DIM,
};
use horizon_hud::parse::{parse_u16, parse_usize};
use horizon_hud::platform::{
    monitor_cover_rect, set_hud_visible, text_eq_ignore_ascii_case, Edges, QuitRequest,
    ShowCommand,
};
use horizon_hud::settings::{
    listen_addr_warning_message, open_action, panel_snapshot, sync_hud_settings, take_open_request,
    text_contains, OpenAction, OpenRequests,
};
use horizon_hud::settings_section::SettingsSection;
use horizon_hud::telemetry::{parse_listen_addr, CarId, ListenAddrInput};
use horizon_hud::tray::{handle_tray_event, menu_item_event, stale_check_marks, text_eq, TrayEvent};
use horizon_hud::user_config::{
    active_path, load_outcome, set_active_path, ActivePath, UserConfig,
};

/// A 2x1 RGBA PNG: (10, 20, 30, 255) then (40, 50, 60, 128).
const TWO_PIXELS_PNG: [u8; 74] = [
    0x89, 0x50, 0x4e, 0x47, 0x0d, 0x0a, 0x1a, 0x0a, 0x00, 0x00, 0x00, 0x0d, 0x49, 0x48, 0x44,
    0x52, 0x00, 0x00, 0x00, 0x02, 0x00, 0x00, 0x00, 0x01, 0x08, 0x06, 0x00, 0x00, 0x00, 0xf4,
    0x22, 0x7f, 0x8a, 0x00, 0x00, 0x00, 0x11, 0x49, 0x44, 0x41, 0x54, 0x78, 0x9c, 0x63, 0xe0,
    0x12, 0x91, 0xfb, 0xaf, 0x61, 0x64, 0xd3, 0x00, 0x00, 0x08, 0xc2, 0x02, 0x52, 0x06, 0xcb,
    0x66, 0xbe, 0x00, 0x00, 0x00, 0x00, 0x49, 0x45, 0x4e, 0x44, 0xae, 0x42, 0x60, 0x82,
];

#[test]
fn unsigned_numbers_follow_from_str() {
    assert_eq!(parse_usize("0"), Some(0));
    assert_eq!(parse_usize("42"), Some(42));
    assert_eq!(parse_usize("+7"), Some(7));
    assert_eq!(parse_usize("007"), Some(7));
    assert_eq!(parse_usize(""), None);
    assert_eq!(parse_usize("+"), None);
    assert_eq!(parse_usize("-1"), None);
    assert_eq!(parse_usize("1.5"), None);
    assert_eq!(parse_usize("12a"), None);
    assert_eq!(parse_usize("18446744073709551615"), "18446744073709551615".parse::<usize>().ok());
    assert_eq!(parse_usize("99999999999999999999"), None);
    assert_eq!(parse_u16("65535"), Some(65535));
    assert_eq!(parse_u16("65536"), None);
    assert_eq!(parse_u16("9999"), Some(9999));
    for text in ["", "0", "+0", "65535", "65536", "-0", " 1", "1 ", "+-1", "123456"] {
        assert_eq!(parse_u16(text), text.parse::<u16>().ok(), "{text:?}");
    }
}

#[test]
fn listen_address_checks() {
    assert_eq!(parse_listen_addr("", "9999"), Err("请输入监听地址。".to_string()));
    assert_eq!(parse_listen_addr("127.0.0.1", ""), Err("请输入端口。".to_string()));
    assert_eq!(
        parse_listen_addr("127.0.0.1", "70000"),
        Err("端口必须是 0 到 65535 的整数。".to_string())
    );
    assert_eq!(
        parse_listen_addr("127.0.0.1", "abc"),
        Err("端口必须是 0 到 65535 的整数。".to_string())
    );
    assert_eq!(parse_listen_addr("LocalHost", "5300"), Ok(ListenAddrInput::Loopback { port: 5300 }));
    assert_eq!(parse_listen_addr("0.0.0.0", "0"), Ok(ListenAddrInput::Ip { host: "0.0.0.0".to_string(), port: 0 }));
    assert_eq!(parse_listen_addr(" ", "1"), Err("请输入监听地址。".to_string()));
    assert_eq!(parse_listen_addr("127.0.0.1", " \t"), Err("请输入端口。".to_string()));
    assert_eq!(
        parse_listen_addr(" LocalHost ", " 8080 "),
        Ok(ListenAddrInput::Loopback { port: 8080 })
    );
    assert_eq!(
        parse_listen_addr("\u{3000}10.0.0.2\n", "+5300"),
        Ok(ListenAddrInput::Ip { host: "10.0.0.2".to_string(), port: 5300 })
    );
    assert_eq!(parse_listen_addr("::1", "65535"), Ok(ListenAddrInput::Ip { host: "::1".to_string(), port: 65535 }));
}

#[test]
fn warning_names_the_cause() {
    assert_eq!(listen_addr_warning_message("端口必须是 0 到 65535 的整数。"), "端口无效，已恢复为默认值。");
    assert_eq!(
        listen_addr_warning_message("无法绑定 0.0.0.0:1: denied"),
        "无法绑定该地址，已恢复为默认值。"
    );
    assert_eq!(listen_addr_warning_message("地址格式不正确"), "监听地址无效，已恢复为默认值。");
    assert!(text_contains("abcabd", "abd"));
    assert!(text_contains("abc", ""));
    assert!(!text_contains("ab", "abc"));
    assert!(!text_contains("abcabc", "cb"));
}

#[test]
fn text_comparisons() {
    assert!(text_eq_ignore_ascii_case("ForzaHorizon6.EXE", "forzahorizon6.exe"));
    assert!(!text_eq_ignore_ascii_case("forzahorizon5.exe", "forzahorizon6.exe"));
    assert!(!text_eq_ignore_ascii_case("Ä", "ä"));
    assert!(text_eq("exit", "exit"));
    assert!(!text_eq("exit", "Exit"));
    assert!(!text_eq("exit", "exits"));
}

#[test]
fn icon_decodes_and_swaps_channels() {
    let (rgba, w, h) = tray_icon_rgba(&TWO_PIXELS_PNG).expect("decodes");
    assert_eq!((w, h), (2, 1));
    assert_eq!(rgba, vec![10, 20, 30, 255, 40, 50, 60, 128]);
    let (bgra, w, h) = window_icon_bgra(&TWO_PIXELS_PNG).expect("decodes");
    assert_eq!((w, h), (2, 1));
    assert_eq!(bgra, vec![30, 20, 10, 255, 60, 50, 40, 128]);
    assert_eq!(tray_icon_rgba(&[1, 2, 3]), None);
    assert_eq!(window_icon_bgra(&TWO_PIXELS_PNG[..40]), None);
}

#[test]
fn channel_swap_keeps_partial_pixel_and_undoes_itself() {
    let mut pixels = vec![1, 2, 3, 4, 5, 6, 7, 8, 9, 10];
    swap_red_blue(&mut pixels);
    assert_eq!(pixels, vec![3, 2, 1, 4, 7, 6, 5, 8, 9, 10]);
    swap_red_blue(&mut pixels);
    assert_eq!(pixels, vec![1, 2, 3, 4, 5, 6, 7, 8, 9, 10]);
    let mut empty: Vec<u8> = Vec::new();
    swap_red_blue(&mut empty);
    assert!(empty.is_empty());
}

#[test]
fn mask_rows_are_padded_to_words() {
    assert_eq!(mask_stride(0), 0);
    assert_eq!(mask_stride(1), 4);
    assert_eq!(mask_stride(32), 4);
    assert_eq!(mask_stride(33), 8);
    assert_eq!(mask_stride(256), 32);
    let mask = icon_and_mask(33, 3);
    assert_eq!(mask.len(), 24);
    assert!(mask.iter().all(|b| *b == 0));
}

#[test]
fn cover_rect_adds_the_frame() {
    let monitor = Edges { left: 0, top: 0, right: 1920, bottom: 1080 };
    let insets = Edges { left: 8, top: 1, right: 8, bottom: 8 };
    assert_eq!(monitor_cover_rect(monitor, insets), (-8, -1, 1936, 1089));
    let second = Edges { left: 1920, top: -200, right: 4480, bottom: 1240 };
    assert_eq!(monitor_cover_rect(second, insets), (1912, -201, 2576, 1449));
}

#[test]
fn hud_window_show_commands() {
    assert_eq!(set_hud_visible(false, true), None);
    assert_eq!(set_hud_visible(false, false), None);
    assert_eq!(set_hud_visible(true, true), Some(ShowCommand::ShowNoActivate));
    assert_eq!(set_hud_visible(true, false), Some(ShowCommand::Hide));
}

#[test]
fn shift_light_cells_follow_count_and_direction() {
    let green = 0x22cc44;
    let amber = 0xffcc22;
    let red = 0xff3333;
    let dim = LightCell { color: RPM_LIGHT_DIM, on: false };
    assert_eq!(
        shift_light_cells(3, true, false),
        vec![
            LightCell { color: green, on: true },
            LightCell { color: green, on: true },
            LightCell { color: amber, on: true },
            dim,
            dim,
        ]
    );
    assert_eq!(
        shift_light_cells(3, true, true),
        vec![
            dim,
            dim,
            LightCell { color: amber, on: true },
            LightCell { color: green, on: true },
            LightCell { color: green, on: true },
        ]
    );
    assert_eq!(shift_light_cells(5, false, false), vec![dim; 5]);
    assert_eq!(shift_light_cells(0, true, false), vec![dim; 5]);
    let all = shift_light_cells(9, true, false);
    assert_eq!(all[4], LightCell { color: red, on: true });
    assert_eq!(light_color(4), red);
    assert_eq!(light_slot(0, true), 4);
    assert_eq!(light_slot(4, true), 0);
    assert_eq!(light_slot(2, false), 2);
}

#[test]
fn blink_phase_alternates_every_80_ms() {
    assert!(shift_blink_on(Some(0)));
    assert!(shift_blink_on(Some(79)));
    assert!(!shift_blink_on(Some(80)));
    assert!(!shift_blink_on(Some(159)));
    assert!(shift_blink_on(Some(160)));
    assert!(shift_blink_on(None));
}

#[test]
fn tray_menu_ids() {
    assert_eq!(menu_item_event("charts", true, false), Some(TrayEvent::Charts { checked: true }));
    assert_eq!(
        menu_item_event("game_only", true, false),
        Some(TrayEvent::GameOnly { checked: false })
    );
    assert_eq!(menu_item_event("settings", false, false), Some(TrayEvent::Settings));
    assert_eq!(menu_item_event("exit", false, false), Some(TrayEvent::Exit));
    assert_eq!(menu_item_event("other", false, false), None);
}

#[test]
fn tray_events_change_settings_and_requests() {
    let mut s = HudSettings::new();
    let mut requests = OpenRequests::new();
    let mut quit = QuitRequest::new();
    assert!(handle_tray_event(&mut s, &mut requests, &mut quit, TrayEvent::Charts { checked: true }));
    assert!(horizon_hud::hud::charts_visible(&s));
    assert!(take_persist_request(&mut s));
    assert!(handle_tray_event(&mut s, &mut requests, &mut quit, TrayEvent::IconLeftClick));
    assert_eq!(take_open_request(&mut requests), Some(Some(SettingsSection::ShiftLights)));
    assert!(handle_tray_event(&mut s, &mut requests, &mut quit, TrayEvent::Settings));
    assert_eq!(take_open_request(&mut requests), Some(None));
    assert!(handle_tray_event(
        &mut s,
        &mut requests,
        &mut quit,
        TrayEvent::GameOnly { checked: false }
    ));
    assert!(!horizon_hud::hud::only_show_in_game(&s));
    assert!(!quit.take_quit_request());
    assert!(!handle_tray_event(&mut s, &mut requests, &mut quit, TrayEvent::Exit));
    assert!(quit.take_quit_request());
}

#[test]
fn stale_marks_are_reported() {
    let mut s = HudSettings::new();
    assert_eq!(stale_check_marks(&s, false, true), (None, None));
    set_charts_visible(&mut s, true);
    assert_eq!(stale_check_marks(&s, false, true), (Some(true), None));
    assert_eq!(stale_check_marks(&s, true, false), (None, Some(true)));
}

#[test]
fn panel_redraws_only_on_change() {
    let mut s = HudSettings::new();
    let mut cars = CalibratedCars::new();
    let mut last = panel_snapshot(&s, &cars);
    assert!(!sync_hud_settings(&mut last, &s, &cars));
    set_shift_lights_position(&mut s, ShiftLightsPosition::Left);
    assert!(sync_hud_settings(&mut last, &s, &cars));
    assert_eq!(last.shift_lights_position, ShiftLightsPosition::Left);
    assert_eq!(last.shift_lights_direction, ShiftLightsDirection::BottomToTop);
    assert!(!sync_hud_settings(&mut last, &s, &cars));
    let id = CarId { ordinal: 1, class: 2, pi: 3 };
    set_current_car_id(&mut s, Some(id));
    assert!(!sync_hud_settings(&mut last, &s, &cars));
    cars.upsert_calibrated_car(true, id, 7000.0f32.to_bits());
    assert!(current_car_has_saved_calibration(&s, &cars));
    assert!(sync_hud_settings(&mut last, &s, &cars));
    assert!(last.has_saved_calibration);
}

#[test]
fn open_reuses_the_window() {
    assert_eq!(open_action(true, None), OpenAction::Activate { select: None });
    assert_eq!(
        open_action(true, Some(SettingsSection::Telemetry)),
        OpenAction::Activate { select: Some(SettingsSection::Telemetry) }
    );
    assert_eq!(open_action(false, None), OpenAction::Create { initial: SettingsSection::Overview });
    assert_eq!(
        open_action(false, Some(SettingsSection::ShiftLights)),
        OpenAction::Create { initial: SettingsSection::ShiftLights }
    );
}

#[test]
fn loading_picks_the_first_file() {
    let mut active: ActivePath<String> = ActivePath::new();
    assert_eq!(*active_path(&active), None);
    let (cfg, save) = load_outcome(&mut active, None);
    assert!(save);
    assert_eq!(cfg.listen_port, UserConfig::default().listen_port);
    assert_eq!(*active_path(&active), None);

    let mut stored = UserConfig::default();
    stored.calibrate_ms = 2500;
    let (cfg, save) =
        load_outcome(&mut active, Some(("a.toml".to_string(), Some(stored))));
    assert!(!save);
    assert_eq!(cfg.calibrate_ms, 2500);
    assert_eq!(active_path(&active).as_deref(), Some("a.toml"));

    let (cfg, save) = load_outcome(&mut active, Some(("b.toml".to_string(), None)));
    assert!(!save);
    assert_eq!(cfg.calibrate_ms, UserConfig::default().calibrate_ms);
    assert_eq!(active_path(&active).as_deref(), Some("b.toml"));
    set_active_path(&mut active, None);
    assert_eq!(*active_path(&active), None);
}

#[test]
fn bgra_icon_swaps_what_it_is_given() {
    assert_eq!(bgra_icon(None), None);
    assert_eq!(
        bgra_icon(Some((vec![1, 2, 3, 4, 5], 1, 1))),
        Some((vec![3, 2, 1, 4, 5], 1, 1))
    );
}

#[test]
fn trimming_matches_std() {
    for text in ["", " ", " a ", "\t\n a b \r", "\u{3000}x\u{2029}", "\u{200b}x", "x"] {
        assert_eq!(trim_text(text), text.trim(), "{text:?}");
    }
}

#[test]
fn sample_loop_updates_only_when_needed() {
    let mut last = HudSettings::new();
    let now = HudSettings::new();
    let idle = pump_step(&mut last, &now, false, false, false);
    assert_eq!(idle, PumpAction { update: false, clear_calibration: false, restore_stored: false });
    let samples = pump_step(&mut last, &now, true, false, false);
    assert_eq!(samples, PumpAction { update: true, clear_calibration: false, restore_stored: false });
    let reset = pump_step(&mut last, &now, false, true, false);
    assert_eq!(reset, PumpAction { update: true, clear_calibration: true, restore_stored: false });
    assert!(pump_step(&mut last, &now, false, false, true).update);

    let mut off = HudSettings::new();
    set_remember_calibrated_cars(&mut off, false);
    let mut last = off;
    let mut on = off;
    set_remember_calibrated_cars(&mut on, true);
    let turned_on = pump_step(&mut last, &on, false, false, false);
    assert_eq!(turned_on, PumpAction { update: true, clear_calibration: false, restore_stored: true });
    assert!(!pump_step(&mut last, &on, false, false, false).update);
}
