//! Sample bookkeeping for circular statistics of directional measurements.
//!
//! A mean bearing and its spread are derived from two running trigonometric
//! sums divided by the number of measurements taken in. This crate keeps that
//! number: it starts at zero, grows by exactly one per measurement, and
//! decides whether a statistic is defined at all and, if so, which divisor
//! the averages use.

use vstd::prelude::*;

pub mod count;

pub use count::{divisor_of, MeasurementCount};
