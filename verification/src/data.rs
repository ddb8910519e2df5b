//! Token values: random byte strings, typed by what they are good for.

pub mod auth;
pub mod refresh;
pub mod token;

pub use auth::Auth;
pub use refresh::Refresh;
pub use token::{Interface, Token};
