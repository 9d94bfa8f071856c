//! Wire protocols spoken by the flight-control core.

pub mod dshot;
pub mod elrs;
