//! Core of a REST gateway in front of a Bitcoin node's wallet interface.

pub mod errors;
pub mod handlers;
pub mod lifecycle;
pub mod node;
pub mod registry;
pub mod session;
pub mod text;
pub mod transaction;
pub mod validate;
