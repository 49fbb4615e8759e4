//! WinKit: the verified core of a read-only Windows observability server.

pub mod text;
pub mod time;
pub mod json;
pub mod errors;
pub mod config;
pub mod chrome;
pub mod models;
pub mod order;
pub mod namemap;
pub mod floats;
pub mod diagnostics;
pub mod tools;
pub mod permissions;
pub mod providers;
pub mod server;
