//! Verified core of a taskbar audio-spectrum visualizer: settings enums and
//! defaults, colour packing, bar/peak falloff, bar layout, frame assembly,
//! settings-dialog decisions and the start/stop control of the workers.

pub mod capture;
pub mod color;
pub mod config;
pub mod control;
pub mod dialog;
pub mod falloff;
pub mod layout;
pub mod text;
