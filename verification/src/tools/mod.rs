//! The tools: their arguments, what they compute, and how they are offered.

pub mod apps;
pub mod args;
pub mod browser;
pub mod catalog;
pub mod conditions;
pub mod developer;
pub mod diagnostics;
pub mod diskscan;
pub mod environment;
pub mod events;
pub mod evidence;
pub mod files;
pub mod hardware;
pub mod health;
pub mod listing;
pub mod names;
pub mod network;
pub mod processes;
pub mod registry;
pub mod schema;
pub mod services;
pub mod stability;
pub mod storage;
pub mod system;
pub mod timeline;
pub mod toolset;
pub mod windows;
pub mod workflows;
