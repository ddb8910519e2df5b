//! The session provider.

pub mod interface;
pub mod laws;
pub mod runs;
pub mod session;

pub use interface::Interface;
pub use session::{Core, State};
