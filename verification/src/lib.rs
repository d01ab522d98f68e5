//! A repeating break reminder: a countdown that, when it runs out, puts a
//! full-screen notification up until it is confirmed, then starts over.
//! The countdown can be paused, resumed and restarted from a tray icon, and
//! its settings are reloaded while it runs.

pub mod clock;
pub mod config;
pub mod laws;
pub mod overlay;
pub mod timer;
pub mod tray;
