//! The protocol side: session life cycle, dispatch and framing.

pub mod lifecycle;
pub mod profiles;
pub mod protocol;
pub mod registry;
pub mod state;
pub mod transport;
