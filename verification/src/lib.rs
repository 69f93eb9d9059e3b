//! A two-listener HTTP demonstration service, as a verified core.
//!
//! The crate holds the rules of the service and proves them: how the
//! three settings are read from their textual values (`config`), the
//! closed set of application errors and their outward form (`error`),
//! the fixed answer of every route (`handlers`, `json`), the description
//! of the two listeners (`server`) and the order in which they are
//! bound, run and given up (`lifecycle`). Reading the environment,
//! binding sockets and serving requests are left to the caller.

pub mod clock;
pub mod config;
pub mod error;
pub mod handlers;
pub mod json;
pub mod lifecycle;
pub mod server;
