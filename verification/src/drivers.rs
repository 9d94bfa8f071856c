//! The parts of the sensor drivers that are plain data handling.

pub mod gnss_can;
pub mod imu_shared;
