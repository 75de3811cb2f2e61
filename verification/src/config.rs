use vstd::prelude::*;

verus! {

/// Size in bytes of one Forza Horizon "dash" telemetry packet.
pub const PACKET_SIZE: usize = 324;

/// Default UDP listen port.
pub const DEFAULT_LISTEN_PORT: u16 = 9999;

/// Byte offsets of the fields read from a dash packet.
pub const IS_RACE_ON_OFFSET: usize = 0;
pub const ENGINE_MAX_RPM_OFFSET: usize = 8;
pub const CURRENT_ENGINE_RPM_OFFSET: usize = 16;
pub const CAR_ORDINAL_OFFSET: usize = 212;
pub const CAR_CLASS_OFFSET: usize = 216;
pub const CAR_PERFORMANCE_INDEX_OFFSET: usize = 220;
pub const NUM_CYLINDERS_OFFSET: usize = 228;
pub const POWER_OFFSET: usize = 260;
pub const TORQUE_OFFSET: usize = 264;
pub const ACCEL_OFFSET: usize = 315;
pub const HANDBRAKE_OFFSET: usize = 318;
pub const CURRENT_GEAR_OFFSET: usize = 319;

/// Telemetry samples per second.
pub const SAMPLE_HZ: usize = 60;

/// Number of samples kept in each history buffer (five seconds).
pub const HISTORY_LEN: usize = SAMPLE_HZ * 5;

/// Shift light layout defaults.
pub const DEFAULT_SHIFT_LIGHTS_OFFSET_PX: usize = 0;
pub const DEFAULT_SHIFT_LIGHTS_THICKNESS_PX: usize = 40;
pub const DEFAULT_SHIFT_LIGHTS_GAP_PX: usize = 8;
pub const DEFAULT_SHIFT_LIGHTS_WIDTH_PERCENT: usize = 75;

/// Height of the seven-segment gear display by default.
pub const DEFAULT_GEAR_DISPLAY_SIZE_PX: usize = 120;

/// Number of samples inspected by the fuel-cut detector (0.7 s).
pub const FUEL_CUT_WINDOW: usize = SAMPLE_HZ * 700 / 1000;

/// Calibration duration bounds and default, in milliseconds.
pub const DEFAULT_CALIBRATE_MS: usize = 500;
pub const CALIBRATE_MS_MIN: usize = 100;
pub const CALIBRATE_MS_MAX: usize = 5000;

/// Frames without a new rpm peak needed before a calibration completes (0.4 s).
pub const CALIBRATE_PEAK_HOLD_MS: usize = 400;
pub const CALIBRATE_PEAK_HOLD_FRAMES: usize = SAMPLE_HZ * CALIBRATE_PEAK_HOLD_MS / 1000;

} // verus!
