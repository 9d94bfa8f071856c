//! Readings of the inertial sensor, from the bytes of one transfer.

use vstd::prelude::*;
use crate::fixed::{fx_mul_div, saturate, trunc_div};

verus! {

/// Bytes of one transfer: six readings of two bytes each.
pub const IMU_BUF_LEN: usize = 12;

/// The acceleration that the largest reading stands for: 16 times standard
/// gravity, in metres per second squared.
pub const ACCEL_FULLSCALE: i64 = 156_905_600_000;

/// The angular rate that the largest reading stands for: 2000 degrees per
/// second, in radians per second.
pub const GYRO_FULLSCALE: i64 = 34_906_585_040;

/// The largest reading.
pub const READING_MAX: i64 = 32_767;

/// One sample of the inertial sensor in physical units.
#[derive(Clone, Copy, Debug, PartialEq, Eq, Structural)]
pub struct ImuReadings {
    /// Acceleration, metres per second squared.
    pub a_x: i64,
    pub a_y: i64,
    pub a_z: i64,
    /// Angular rates, radians per second.
    pub v_pitch: i64,
    pub v_roll: i64,
    pub v_yaw: i64,
}

/// The signed reading that two bytes hold, most significant byte first.
pub open spec fn reading(hi: u8, lo: u8) -> int {
    if hi >= 128 {
        hi * 256 + lo - 65_536
    } else {
        hi * 256 + lo
    }
}

/// A reading in physical units: the share of the largest reading, times what
/// the largest reading stands for, rounded toward zero and saturating.
pub open spec fn scaled(raw: int, fullscale: i64) -> int {
    saturate(trunc_div(raw * fullscale, READING_MAX as int))
}

/// The sample that the bytes of one transfer hold. The readings come in the
/// order acceleration x, y, z, then angular rate about x (pitch), y (roll)
/// and z (yaw).
pub open spec fn readings_of(buf: Seq<u8>) -> ImuReadings
    recommends
        buf.len() >= IMU_BUF_LEN,
{
    ImuReadings {
        a_x: scaled(reading(buf[0], buf[1]), ACCEL_FULLSCALE) as i64,
        a_y: scaled(reading(buf[2], buf[3]), ACCEL_FULLSCALE) as i64,
        a_z: scaled(reading(buf[4], buf[5]), ACCEL_FULLSCALE) as i64,
        v_pitch: scaled(reading(buf[6], buf[7]), GYRO_FULLSCALE) as i64,
        v_roll: scaled(reading(buf[8], buf[9]), GYRO_FULLSCALE) as i64,
        v_yaw: scaled(reading(buf[10], buf[11]), GYRO_FULLSCALE) as i64,
    }
}

/// One reading in physical units, from its two bytes, for any value that the
/// largest reading may stand for.
pub fn interpret(hi: u8, lo: u8, fullscale: i64) -> (r: i64)
    ensures
        r == scaled(reading(hi, lo), fullscale),
{
    let raw: i64 = if hi >= 128 {
        hi as i64 * 256 + lo as i64 - 65_536
    } else {
        hi as i64 * 256 + lo as i64
    };
    fx_mul_div(raw, fullscale, READING_MAX)
}

impl ImuReadings {
    /// Turn the bytes of one transfer into a sample in physical units.
    pub fn from_buffer(buf: &[u8; 12]) -> (r: Self)
        ensures
            r == readings_of(buf@),
    {
        ImuReadings {
            a_x: interpret(buf[0], buf[1], ACCEL_FULLSCALE),
            a_y: interpret(buf[2], buf[3], ACCEL_FULLSCALE),
            a_z: interpret(buf[4], buf[5], ACCEL_FULLSCALE),
            v_pitch: interpret(buf[6], buf[7], GYRO_FULLSCALE),
            v_roll: interpret(buf[8], buf[9], GYRO_FULLSCALE),
            v_yaw: interpret(buf[10], buf[11], GYRO_FULLSCALE),
        }
    }
}

} // verus!
