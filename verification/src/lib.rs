//! Verified core of a small self-hosted media server: media classification,
//! query and playlist text, timeline sprite cues, authentication decisions and
//! the bookkeeping of the background thumbnail worker.

pub mod text;
pub mod config;
pub mod db;
pub mod processing;
pub mod scanner;
pub mod server;
