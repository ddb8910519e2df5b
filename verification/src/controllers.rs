//! What the session provider does, as functions of the stores.

pub mod login;
pub mod logout;
pub mod refresh;
pub mod register;
pub mod whoami;
