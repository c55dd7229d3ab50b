//! Verified core of a game-server presence monitor.
//!
//! The library holds the logic of a poll-render-publish loop: matching the
//! tracked server in a directory listing, canonicalizing map names, mapping
//! gamemode identifiers to overlay codes, computing overlay geometry, building
//! the presence texts, and deciding the liveness status. All I/O (directory
//! fetch, image download and drawing, chat-platform calls, the HTTP liveness
//! listener) lives in the surrounding application, which feeds plain values in
//! and carries the planned actions out.

pub mod config;
pub mod directory;
pub mod gamemode;
pub mod layout;
pub mod liveness;
pub mod mapname;
pub mod records;
pub mod text;
pub mod tick;
