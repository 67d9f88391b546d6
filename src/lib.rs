//! Detection service core: corner geometry, the detector pool policy,
//! the per-request detection pipeline and the WebSocket session logic.
//!
//! Coordinates are carried as signed integers counting tenths of a pixel,
//! which is exactly the precision the service reports. Timings are
//! nanoseconds since the request arrived.

pub mod config;
pub mod geometry;
pub mod ingress;
pub mod pipeline;
pub mod pool;
pub mod session;
mod store;
