//! The settings of the position sensor node, as bytes, and the kinds of fix
//! it reports.

use vstd::prelude::*;

verus! {

/// Bytes of a position message.
pub const GNSS_PAYLOAD_SIZE: usize = 38;

/// Message type of a position fix.
pub const GNSS_FIX_ID: u16 = 1_063;

/// Bytes that the settings of this node take after the settings that every
/// node has.
pub const CONFIG_SIZE: usize = 8;

/// The settings of the position sensor node, without those that every node has.
#[derive(Clone, Copy, Debug, PartialEq, Eq, Structural)]
pub struct Config {
    /// Position messages per second.
    pub broadcast_rate_gnss: u8,
    /// Fused solutions per second.
    pub broadcast_rate_fused: u16,
    /// Barometer messages per second.
    pub broadcast_rate_baro: u16,
    /// Magnetometer messages per second.
    pub broadcast_rate_mag: u16,
    /// Whether the fused solution is sent in the format of a position fix.
    pub broadcast_fused_as_fix: bool,
}

/// The number that two bytes hold, least significant first.
pub open spec fn u16_le(lo: u8, hi: u8) -> u16 {
    (lo as u16 + 256 * hi as u16) as u16
}

/// The settings that eight bytes hold.
pub open spec fn config_of(buf: Seq<u8>) -> Config
    recommends
        buf.len() >= CONFIG_SIZE,
{
    Config {
        broadcast_rate_gnss: buf[0],
        broadcast_rate_fused: u16_le(buf[1], buf[2]),
        broadcast_rate_baro: u16_le(buf[3], buf[4]),
        broadcast_rate_mag: u16_le(buf[5], buf[6]),
        broadcast_fused_as_fix: buf[7] != 0,
    }
}

/// The eight bytes that hold the settings.
pub open spec fn bytes_of(c: Config) -> Seq<u8> {
    seq![
        c.broadcast_rate_gnss,
        (c.broadcast_rate_fused % 256) as u8,
        (c.broadcast_rate_fused / 256) as u8,
        (c.broadcast_rate_baro % 256) as u8,
        (c.broadcast_rate_baro / 256) as u8,
        (c.broadcast_rate_mag % 256) as u8,
        (c.broadcast_rate_mag / 256) as u8,
        if c.broadcast_fused_as_fix { 1u8 } else { 0u8 },
    ]
}

fn read_u16_le(lo: u8, hi: u8) -> (r: u16)
    ensures
        r == u16_le(lo, hi),
{
    lo as u16 + 256 * (hi as u16)
}

impl Default for Config {
    fn default() -> (r: Self)
        ensures
            r == (Config {
                broadcast_rate_gnss: 5,
                broadcast_rate_fused: 100,
                broadcast_rate_baro: 100,
                broadcast_rate_mag: 100,
                broadcast_fused_as_fix: true,
            }),
    {
        Config {
            broadcast_rate_gnss: 5,
            broadcast_rate_fused: 100,
            broadcast_rate_baro: 100,
            broadcast_rate_mag: 100,
            broadcast_fused_as_fix: true,
        }
    }
}

impl Config {
    /// Read the settings from the bytes that follow the settings every node
    /// has: one byte, three numbers of two bytes each, least significant
    /// byte first, and one byte that is zero for no.
    pub fn from_bytes(buf: &[u8]) -> (r: Self)
        requires
            buf@.len() >= CONFIG_SIZE,
        ensures
            r == config_of(buf@),
    {
        Config {
            broadcast_rate_gnss: buf[0],
            broadcast_rate_fused: read_u16_le(buf[1], buf[2]),
            broadcast_rate_baro: read_u16_le(buf[3], buf[4]),
            broadcast_rate_mag: read_u16_le(buf[5], buf[6]),
            broadcast_fused_as_fix: buf[7] != 0,
        }
    }

    /// Write the settings as bytes, in the layout that `from_bytes` reads.
    pub fn to_bytes(&self) -> (r: [u8; 8])
        ensures
            r@ == bytes_of(*self),
    {
        let r = [
            self.broadcast_rate_gnss,
            (self.broadcast_rate_fused % 256) as u8,
            (self.broadcast_rate_fused / 256) as u8,
            (self.broadcast_rate_baro % 256) as u8,
            (self.broadcast_rate_baro / 256) as u8,
            (self.broadcast_rate_mag % 256) as u8,
            (self.broadcast_rate_mag / 256) as u8,
            if self.broadcast_fused_as_fix {
                1u8
            } else {
                0u8
            },
        ];
        assert(r@ =~= bytes_of(*self));
        r
    }
}

/// The kinds of fix that the position sensor reports.
#[derive(Clone, Copy, Debug, PartialEq, Eq, Structural)]
pub enum FixType {
    NoFix,
    DeadReckoning,
    Fix2d,
    Fix3d,
    Combined,
    TimeOnly,
}

/// The kinds of fix that a position message can carry.
#[derive(Clone, Copy, Debug, PartialEq, Eq, Structural)]
pub enum FixStatus {
    NoFix,
    TimeOnly,
    Fix2d,
    Fix3d,
}

/// The kind of fix to put into a position message: dead reckoning counts as
/// a fix in two dimensions, a combined fix as one in three.
pub fn fix_status(fix_type: FixType) -> (r: FixStatus)
    ensures
        r == (match fix_type {
            FixType::NoFix => FixStatus::NoFix,
            FixType::DeadReckoning => FixStatus::Fix2d,
            FixType::Fix2d => FixStatus::Fix2d,
            FixType::Fix3d => FixStatus::Fix3d,
            FixType::Combined => FixStatus::Fix3d,
            FixType::TimeOnly => FixStatus::TimeOnly,
        }),
{
    match fix_type {
        FixType::NoFix => FixStatus::NoFix,
        FixType::DeadReckoning => FixStatus::Fix2d,
        FixType::Fix2d => FixStatus::Fix2d,
        FixType::Fix3d => FixStatus::Fix3d,
        FixType::Combined => FixStatus::Fix3d,
        FixType::TimeOnly => FixStatus::TimeOnly,
    }
}

/// Settings that were written as bytes are read back as they were.
pub proof fn lemma_config_round_trip(c: Config)
    ensures
        config_of(bytes_of(c)) == c,
{
}

} // verus!
