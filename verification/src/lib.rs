//! A minimal telemetry core: fixed-capacity, insertion-ordered sample
//! windows with FIFO eviction, and a periodic generator that fabricates
//! one momentum sample and one trade sample per tick.

pub mod generator;
pub mod sample;
pub mod shared;
pub mod store;
