//! Verified core of a screen recorder: recording session state, the FFmpeg
//! command lines it builds, file naming, progress parsing and the decisions
//! behind its panels and tray icon.
pub mod text;
pub mod tray;
pub mod audio;
pub mod camera;
pub mod constants;
pub mod db;
pub mod export;
pub mod models;
pub mod paths;
pub mod recording;
pub mod screen_capture;
pub mod windows;
pub mod window_list;
pub mod store;
