//! A fixed-capacity rotating history buffer for time-series samples, together
//! with a shared handle that lets a periodic producer and an on-demand
//! renderer touch the same buffer safely.

pub mod format;
pub mod rotate;
pub mod series;
