//! The Chrome adapter: discovery, page inspection and managed sessions.

pub mod attempt;
pub mod cdp;
pub mod diag;
pub mod discovery;
pub mod launch;
pub mod managed;
pub mod metrics;
pub mod page;
pub mod paths;
pub mod report;
pub mod session;
pub mod tabs;
