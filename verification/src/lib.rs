//! Verified core logic of a family of Telegram bots that manage media files on a VPS:
//! a media control panel (`media_control`), an upload bot (`vpsupload`) and a
//! recorder control bot (`bilive`).

pub mod text;
pub mod patterns;
pub mod paths;
pub mod media_control;
pub mod vpsupload;
pub mod bilive;
