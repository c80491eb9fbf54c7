//! Core of a small always-on-top system monitor: it decides when the host is
//! sampled, keeps the last readings, grades them against fixed thresholds and
//! lays out the lines that the window shows.

pub mod quantity;
pub mod level;
pub mod decimal;
pub mod memory;
pub mod single;
pub mod snapshot;
pub mod clock;
pub mod display;
pub mod window;
pub mod widget;
