//! Connection supervision for a WiFi station.
//!
//! The radio driver, the network stack and the timers live outside this
//! library. What is decided here is *what to ask of them next*: each state
//! machine takes the outcome of the last request as an event and answers with
//! the next request, so that the retry and backoff policy can be stated and
//! proved without touching hardware.

pub mod buffer;
pub mod config;
pub mod fault;
pub mod guarantees;
pub mod notice;
pub mod readiness;
pub mod supervisor;
