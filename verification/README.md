# horizon_hud

A shift-light and telemetry HUD for Forza Horizon. The game sends a 324-byte
"dash" packet over UDP many times a second; the HUD draws five shift lights
whose thresholds come from a fuel-cut calibration, a gear display and optional
rpm / torque / power charts, and a settings window edits the configuration.

## Layout

- `src/` is the verified library (Verus):
  - `telemetry` — packet decoding, the listener's address / error / generation
    state and the decisions taken when the address changes, the typed address
    checks;
  - `hud` — the settings of the running HUD, their validation and when they
    ask to be saved;
  - `calibration`, `calibrated_cars`, `ring_buffer` — the fuel-cut
    calibration counters, the per-car calibration records and the sample
    history;
  - `lights`, `icon`, `platform`, `tray`, `settings`, `settings_section`,
    `user_config`, `parse` — shift-light cells, icon pixels, window and
    single-instance decisions, tray events, the settings window's requests
    and panel state, the configuration file's content, number parsing.
- `tests/` exercises the library.
- `app/` is the program around it: the GPUI views, the UDP socket and its
  thread, the configuration file on disk, the Win32 calls and the tray, and
  the real-valued settings and detectors that work on `f32`.
