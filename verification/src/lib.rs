//! Verified core of a PROFIBUS DP master: link statistics and the RP2040 PHY drivers.
pub mod baudrate;
pub mod decimal;
pub mod dp;
pub mod phy;
pub mod time;

pub use baudrate::Baudrate;
