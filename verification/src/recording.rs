//! Recording sessions: their files, encoders and capture streams.
pub mod audio;
pub mod models;
pub mod screen;
pub mod session;
pub mod ffmpeg;
pub mod file;
pub mod input_events;
