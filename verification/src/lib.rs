//! Core logic of `mtui`, the terminal front-end for the music-tools scripts.

pub mod actions;
pub mod app;
pub mod clock;
pub mod config;
pub mod input;
pub mod jobs;
pub mod log;
pub mod process;
pub mod sort;
pub mod state;
pub mod sudo;
pub mod text;
pub mod ui;
