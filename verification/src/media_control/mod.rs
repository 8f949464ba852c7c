//! The media control panel: file browsing, exclusive media tasks and upload pool.

pub mod errors;
pub mod pagination;
pub mod permissions;
pub mod progress;
pub mod state;
pub mod config;
pub mod storage;
pub mod media;
pub mod format;
pub mod callback;
pub mod keyboard;
pub mod selector;
pub mod views;
pub mod jobs;
pub mod tasks;
pub mod youtube;
