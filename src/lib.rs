//! Opening-range breakout trading core.
//!
//! Per instrument, a `System` state machine sequences the trading day and owns
//! one `WorkingOrder` machine per order reference. Broker stream messages are
//! merged by per-instrument caches into the canonical `Event`s the machines
//! consume; the machines answer with `Command`s that a dispatcher executes.
//!
//! Decimal quantities (levels, distances, sizes) are fixed-point integers with
//! `UNITS_PER_POINT` units to one point; times are UTC seconds since the Unix
//! epoch and durations are seconds.
#![allow(non_camel_case_types)]

pub mod models;
pub mod decider;
pub mod range;
pub mod order;
pub mod order_book;
pub mod system;
pub mod laws;
pub mod realtime;
pub mod london;
pub mod caches;
pub mod dispatch;
pub mod views;
pub mod broker;
pub mod atr;

pub use models::UNITS_PER_POINT;
