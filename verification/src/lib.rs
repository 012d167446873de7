//! Pure decision logic of the Pullpiri vehicle demo.
//!
//! Simulated sensors feed a fusion step, a hysteretic arbiter picks the
//! driving mode, and per-mode publishers derive the telemetry that follows
//! it. Physical quantities are fixed-point integers in thousandths of their
//! unit, time is a count of milliseconds, and every random draw is an
//! explicit argument, so each step is a function of its inputs.
//!
//! The rules of the persistency client, which stores what the vehicle
//! services need to keep, live in [`persistency`].

pub mod arbiter;
pub mod fixed;
pub mod forwarder;
pub mod fusion;
pub mod hysteresis;
pub mod messages;
pub mod persistency;
pub mod random;
pub mod sensors;
pub mod telemetry;
