//! A verified session layer around a WebAssembly engine.
//!
//! Each loaded module becomes a session: an isolated execution context with a
//! compiled module, a fixed set of declared import slots, and one reply
//! channel per import id. Host-initiated calls are dispatched against a
//! session by export name; module-initiated calls out to the host block on
//! their import's reply channel until the host answers.

pub mod assoc;
pub mod bootstrap;
pub mod bridge;
pub mod chan;
pub mod config;
pub mod dispatch;
pub mod engine;
pub mod errors;
pub mod laws;
pub mod registry;
pub mod session;
pub mod values;
