//! Control logic for the Pulsar X2 CrazyLight mouse: the HID protocol,
//! the battery worker's schedule, persisted settings, low-battery alerts
//! and the settings panel, each stated and proved over a plain model.
pub mod device;
pub mod lock;
pub mod settings;
pub mod text;
pub mod tray;
pub mod ui;
