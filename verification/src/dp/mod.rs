//! The DP master.
pub mod statistics;
pub mod statistics_laws;

pub use statistics::{DpEvent, DpStatistics, StatisticsModel};
