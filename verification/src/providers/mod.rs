//! The providers: what answers the tools' questions.

pub mod applications;
pub mod clock;
pub mod mock;
pub mod registry;
pub mod sample;
pub mod windows;
