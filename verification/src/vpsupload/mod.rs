//! The upload bot: per-user browsing sessions, an exclusive task slot beside an upload
//! queue, and chunked uploads.

pub mod config;
pub mod media;
pub mod session;
pub mod board;
pub mod ui;
pub mod upload;
pub mod actions;
pub mod sessions;
pub mod transfer;
