//! Settings of the aircraft that stay as they are during a flight.

use vstd::prelude::*;

verus! {

/// The settings that a user may change.
#[derive(Clone, Copy, Debug, PartialEq, Eq)]
pub struct UserCfg {
    /// Altitude that the aircraft will not exceed, metres.
    pub ceiling: i64,
    /// Largest pitch or roll angle in attitude mode, radians.
    pub max_angle: i64,
    /// Largest speed, metres per second.
    pub max_velocity: i64,
    /// Power at idle, from 0 to 1.
    pub idle_pwr: i64,
    /// What the pilot's controller puts out at the two ends of each stick.
    pub pitch_input_range: (i64, i64),
    pub roll_input_range: (i64, i64),
    pub yaw_input_range: (i64, i64),
    pub throttle_input_range: (i64, i64),
    /// Whether obstacles are recorded during flight.
    pub mapping_obstacles: bool,
    /// Largest horizontal speed of the autopilot, metres per second.
    pub max_speed_hor: i64,
    /// Largest vertical speed of the autopilot, metres per second.
    pub max_speed_ver: i64,
    /// Whether a position sensor is attached.
    pub gps_attached: bool,
    /// Whether a range sensor is attached.
    pub tof_attached: bool,
    /// Which motors are wired to turn against their normal sense.
    pub motors_reversed: (bool, bool, bool, bool),
}

impl Default for UserCfg {
    fn default() -> (r: Self)
        ensures
            r.ceiling == 122_000_000_000,
            r.max_angle == 1_382_300_768,
            r.max_velocity == 30_000_000_000,
            r.idle_pwr == 0,
            r.pitch_input_range == (0i64, 1_000_000_000i64),
            r.roll_input_range == (0i64, 1_000_000_000i64),
            r.yaw_input_range == (0i64, 1_000_000_000i64),
            r.throttle_input_range == (0i64, 1_000_000_000i64),
            !r.mapping_obstacles,
            r.max_speed_hor == 20_000_000_000,
            r.max_speed_ver == 20_000_000_000,
            !r.gps_attached,
            !r.tof_attached,
            r.motors_reversed == (false, false, false, false),
    {
        UserCfg {
            ceiling: 122_000_000_000,
            max_angle: 1_382_300_768,
            max_velocity: 30_000_000_000,
            idle_pwr: 0,
            pitch_input_range: (0, 1_000_000_000),
            roll_input_range: (0, 1_000_000_000),
            yaw_input_range: (0, 1_000_000_000),
            throttle_input_range: (0, 1_000_000_000),
            mapping_obstacles: false,
            max_speed_hor: 20_000_000_000,
            max_speed_ver: 20_000_000_000,
            gps_attached: false,
            tof_attached: false,
            motors_reversed: (false, false, false, false),
        }
    }
}

/// The physical properties of a multirotor.
#[derive(Clone, Copy, Debug, PartialEq, Eq, Structural)]
pub struct AircraftProperties {
    /// Grams.
    pub mass: i64,
    /// Metres.
    pub arm_len: i64,
    pub drag_coeff: i64,
    pub thrust_coeff: i64,
    pub moment_of_intertia: i64,
    pub rotor_inertia: i64,
}

/// Power per rotor that holds level flight.
pub const LEVEL_POWER: i64 = 100_000_000;

impl AircraftProperties {
    /// The power, applied to each rotor, that holds level flight at an
    /// altitude: a tenth of full power, at every altitude.
    pub fn level_pwr(&self, _alt: i64) -> (r: i64)
        ensures
            r == LEVEL_POWER,
    {
        LEVEL_POWER
    }
}

/// The role of an aircraft in a swarm.
#[derive(Clone, Copy, Debug, PartialEq, Eq, Structural)]
pub enum SwarmRole {
    Queen,
    /// A worker, with its number.
    Worker(u16),
    /// Following a person.
    PersonFollower,
}

/// One of the four rotors, by the output that drives it.
#[derive(Clone, Copy, Debug, PartialEq, Eq, Structural)]
pub enum Rotor {
    R1,
    R2,
    R3,
    R4,
}

/// A channel of a timer.
#[derive(Clone, Copy, Debug, PartialEq, Eq, Structural)]
pub enum TimChannel {
    C1,
    C2,
    C3,
    C4,
}

/// The request line that a timer channel raises for a transfer.
#[derive(Clone, Copy, Debug, PartialEq, Eq, Structural)]
pub enum DmaInput {
    Tim2Ch1,
    Tim2Ch4,
    Tim3Ch3,
    Tim3Ch4,
}

/// A channel of the transfer controller.
#[derive(Clone, Copy, Debug, PartialEq, Eq, Structural)]
pub enum DmaChannel {
    C2,
    C3,
    C4,
    C5,
}

/// The timer channel of a rotor's output.
pub open spec fn rotor_channel(r: Rotor) -> TimChannel {
    match r {
        Rotor::R1 => TimChannel::C1,
        Rotor::R2 => TimChannel::C4,
        Rotor::R3 => TimChannel::C3,
        Rotor::R4 => TimChannel::C4,
    }
}

/// The number of the register that holds the duty value of a timer channel,
/// as the burst transfer of the timer counts registers.
pub open spec fn channel_register(c: TimChannel) -> u8 {
    match c {
        TimChannel::C1 => 16,
        TimChannel::C2 => 17,
        TimChannel::C3 => 18,
        TimChannel::C4 => 19,
    }
}

impl Rotor {
    /// The timer channel of this rotor's output.
    pub fn tim_channel(&self) -> (r: TimChannel)
        ensures
            r == rotor_channel(*self),
    {
        match self {
            Rotor::R1 => TimChannel::C1,
            Rotor::R2 => TimChannel::C4,
            Rotor::R3 => TimChannel::C3,
            Rotor::R4 => TimChannel::C4,
        }
    }

    /// The request line of this rotor's timer channel.
    pub fn dma_input(&self) -> (r: DmaInput)
        ensures
            r == (match *self {
                Rotor::R1 => DmaInput::Tim2Ch1,
                Rotor::R2 => DmaInput::Tim2Ch4,
                Rotor::R3 => DmaInput::Tim3Ch3,
                Rotor::R4 => DmaInput::Tim3Ch4,
            }),
    {
        match self {
            Rotor::R1 => DmaInput::Tim2Ch1,
            Rotor::R2 => DmaInput::Tim2Ch4,
            Rotor::R3 => DmaInput::Tim3Ch3,
            Rotor::R4 => DmaInput::Tim3Ch4,
        }
    }

    /// The channel of the transfer controller that serves this rotor.
    pub fn dma_channel(&self) -> (r: DmaChannel)
        ensures
            r == (match *self {
                Rotor::R1 => DmaChannel::C2,
                Rotor::R2 => DmaChannel::C3,
                Rotor::R3 => DmaChannel::C4,
                Rotor::R4 => DmaChannel::C5,
            }),
    {
        match self {
            Rotor::R1 => DmaChannel::C2,
            Rotor::R2 => DmaChannel::C3,
            Rotor::R3 => DmaChannel::C4,
            Rotor::R4 => DmaChannel::C5,
        }
    }

    /// The number of the register that a burst for this rotor starts at.
    pub fn base_addr_offset(&self) -> (r: u8)
        ensures
            r == channel_register(rotor_channel(*self)),
    {
        match self.tim_channel() {
            TimChannel::C1 => 16,
            TimChannel::C2 => 17,
            TimChannel::C3 => 18,
            TimChannel::C4 => 19,
        }
    }
}

} // verus!
