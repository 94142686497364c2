//! Decisions of a stream downloader: which users are watched, which streams
//! are recorded, and when a recording is started, reported, stopped or killed.

pub mod cleanup;
pub mod clock;
pub mod config;
pub mod downloader;
pub mod manager;
pub mod manager_laws;
pub mod page;
pub mod reports;
pub mod retry;
pub mod status;
pub mod status_laws;
pub mod streamer;
pub mod text;
