//! Lazily generated wait durations for retry and backoff loops.
//!
//! A [`StrategyBuilder`] collects an initial duration, an optional ceiling, a
//! growth kind and a jitter ratio; the [`Strategy`] it builds hands out one
//! duration per pull, for as long as it is asked.

pub mod laws;
mod random;
pub mod span;
pub mod strategy;

pub use span::TimeSpan;
pub use strategy::{builder, Kind, Strategy, StrategyBuilder, StrategyBuilderError};
