//! A memory-pressure guard for Linux desktops: it watches free RAM and, when
//! memory runs low, picks the first enabled application of a priority list
//! that is running, warns the user, and stops it unless the user spares it.
//!
//! This crate holds the rules of that guard with their contracts; the
//! program around it (tray icon, windows, notifications, signals) drives it.

pub mod text;
pub mod config;
pub mod process;
pub mod monitor;
pub mod tray;
pub mod history;
pub mod sound;
pub mod desktop;
pub mod pressure;
