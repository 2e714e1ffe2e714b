//! Verified core of a daemon that drives a fifteen-key USB display deck:
//! each key shows a small picture and runs a command when pressed.
//!
//! - `paging`: logical keys spread over pages with navigation slots.
//! - `config`: the configuration model and the rules that accept it.
//! - `plan`: what each slot of a page shows and does.
//! - `status`: cached status-command results and per-slot poll timers.
//! - `keystate`: animation and clock timers of the page on the device.
//! - `control`: page changes, key presses and configuration reloads.
//! - `cache`: decoded icons by icon name and clock background.
//! - `pipeline`: icon files turned into device tiles.
//! - `clock`: the seven-segment clock face as an SVG document.
//! - `protocol`: the device's HID reports.
//! - `text`: trimming, word splitting and decimal text.
pub mod cache;
pub mod clock;
pub mod config;
pub mod control;
pub mod keystate;
pub mod paging;
pub mod pipeline;
pub mod plan;
pub mod protocol;
pub mod status;
pub mod text;
