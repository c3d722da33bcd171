//! Verified accounting core of a market-making strategy evaluator.
//!
//! A single-trajectory engine advances a quoting/fill bookkeeping state one
//! discrete step at a time, applying a latency delay to quote visibility and
//! recording one step record per step; a sweep layer enumerates a Cartesian
//! grid of parameter combinations and reduces per-run summaries. Scalars are
//! carried as opaque IEEE-754 bit patterns; the caller evaluates the
//! real-number formulas and randomness and hands the resulting values in as
//! events, while the engine's routing, latency semantics, inventory
//! accounting and integer statistics are verified for every such value.

pub mod model;
pub mod latency;
pub mod sim;
pub mod analysis;
