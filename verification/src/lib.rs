pub mod calibrated_cars;
pub mod calibration;
pub mod config;
pub mod hud;
pub mod icon;
pub mod lights;
pub mod parse;
pub mod platform;
pub mod ring_buffer;
pub mod settings;
pub mod settings_section;
pub mod telemetry;
pub mod tray;
pub mod user_config;
