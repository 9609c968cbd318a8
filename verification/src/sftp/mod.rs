//! The SFTP side: connecting, browsing, and moving one file either way.

pub mod browse;
pub mod client;
pub mod download;
pub mod fault;
pub mod upload;
