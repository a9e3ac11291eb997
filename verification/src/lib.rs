//! The verified core of Ember, a background screen recorder that saves the
//! last seconds of play on a key press.

pub mod audio;
pub mod capture;
pub mod config;
pub mod displays;
pub mod encoders;
pub mod hotkeys;
pub mod overlays;
pub mod platform;
pub mod preview;
pub mod recording;
pub mod settings;
pub mod setup;
pub mod shell;
pub mod single;
pub mod sources;
pub mod text;
