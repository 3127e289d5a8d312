//! A weighted evidence score.
//!
//! Evidence is recorded as events of a fixed severity tier, each either a
//! penalty or a bonus. The events are kept in two append-only logs, so that a
//! run can be replayed, and the score is computed from the logs on demand.

pub mod flags;
pub mod laws;
pub mod level;
