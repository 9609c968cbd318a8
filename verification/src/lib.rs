//! Decision core of a resumable SFTP transfer tool for weak networks.

pub mod checkpoint;
pub mod chunk;
pub mod download_checkpoint;
pub mod hashing;
pub mod history;
pub mod number;
pub mod order;
pub mod path;
pub mod profiles;
pub mod retry;
pub mod session;
pub mod sftp;
pub mod ssh_config;
pub mod stall;
pub mod storage;
pub mod text;
pub mod transfer;
