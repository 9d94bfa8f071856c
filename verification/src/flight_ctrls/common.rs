//! Flight-control types that do not depend on the kind of airframe.

use vstd::prelude::*;
use crate::fixed::{add_spec, div_spec, map_linear_spec, mul_spec, sub_spec};
use crate::fixed::{fx_add, fx_div, fx_mul, fx_sub, map_linear};
use crate::safety::ArmStatus;

verus! {

/// Seconds without a radio packet after which the link counts as lost.
pub const LOST_LINK_TIMEOUT: i64 = 1_000_000_000;

/// Lowest throttle that manual input commands, to leave room for manoeuvres.
pub const THROTTLE_MIN_MNVR_CLAMP: i64 = 60_000_000;

/// Highest throttle that manual input commands, to leave room for manoeuvres.
pub const THROTTLE_MAX_MNVR_CLAMP: i64 = 800_000_000;

/// A quarter turn, in radians.
pub const QUARTER_TURN: i64 = 1_570_796_327;

/// A full turn, in radians.
pub const FULL_TURN: i64 = 6_283_185_307;

/// One of the four motor channels.
#[derive(Clone, Copy, Debug, PartialEq, Eq, Structural)]
pub enum Motor {
    M1,
    M2,
    M3,
    M4,
}

/// Where a motor channel's frames stand among the interleaved slots of a burst.
pub open spec fn motor_offset(motor: Motor) -> int {
    match motor {
        Motor::M1 => 0,
        Motor::M2 => 1,
        Motor::M3 => 2,
        Motor::M4 => 3,
    }
}

impl Motor {
    /// Position of this channel among the interleaved slots of a burst.
    pub fn offset(&self) -> (r: usize)
        ensures
            r == motor_offset(*self),
    {
        match self {
            Motor::M1 => 0,
            Motor::M2 => 1,
            Motor::M3 => 2,
            Motor::M4 => 3,
        }
    }
}

/// Rotor speeds as the speed controllers report them, by rotor position.
#[derive(Clone, Copy, Debug, PartialEq, Eq, Structural)]
pub struct MotorRpm {
    pub front_left: i64,
    pub front_right: i64,
    pub aft_left: i64,
    pub aft_right: i64,
}

/// The reference of an altitude.
#[derive(Clone, Copy, Debug, PartialEq, Eq, Structural)]
pub enum AltType {
    /// Above ground level, from a range sensor.
    Agl,
    /// Above mean sea level, from the barometer or a position fix.
    Msl,
}

/// How the pilot's input is interpreted.
#[derive(Clone, Copy, Debug, PartialEq, Eq, Structural)]
pub enum InputMode {
    /// The sticks command angular rates.
    Acro,
    /// The sticks command pitch and roll angles.
    Attitude,
    /// The autopilot commands the outer tiers.
    Command,
}

/// A set point, or an effort, on each of the four axes.
#[derive(Clone, Copy, Debug, PartialEq, Eq, Structural)]
pub struct CtrlInputs {
    pub pitch: i64,
    pub roll: i64,
    pub yaw: i64,
    pub thrust: i64,
}

impl Default for CtrlInputs {
    fn default() -> (r: Self)
        ensures
            r == (CtrlInputs { pitch: 0, roll: 0, yaw: 0, thrust: 0 }),
    {
        CtrlInputs { pitch: 0, roll: 0, yaw: 0, thrust: 0 }
    }
}

/// Set points that the autopilot substitutes for the pilot's, axis by axis.
/// An axis without a value is left to the pilot.
#[derive(Clone, Copy, Debug, PartialEq, Eq, Structural)]
pub struct RatesCommanded {
    pub pitch: Option<i64>,
    pub roll: Option<i64>,
    pub yaw: Option<i64>,
    pub thrust: Option<i64>,
}

/// `v` if the autopilot commands it, `base` otherwise.
pub open spec fn substituted(base: i64, over: Option<i64>) -> i64 {
    match over {
        Some(v) => v,
        None => base,
    }
}

impl Default for RatesCommanded {
    fn default() -> (r: Self)
        ensures
            r == (RatesCommanded { pitch: None, roll: None, yaw: None, thrust: None }),
    {
        RatesCommanded { pitch: None, roll: None, yaw: None, thrust: None }
    }
}

impl RatesCommanded {
    /// The set points in force: the autopilot's where it commands an axis,
    /// those of `base` elsewhere.
    pub fn substitute_into(&self, base: &CtrlInputs) -> (r: CtrlInputs)
        ensures
            r == (CtrlInputs {
                pitch: substituted(base.pitch, self.pitch),
                roll: substituted(base.roll, self.roll),
                yaw: substituted(base.yaw, self.yaw),
                thrust: substituted(base.thrust, self.thrust),
            }),
    {
        CtrlInputs {
            pitch: match self.pitch {
                Some(v) => v,
                None => base.pitch,
            },
            roll: match self.roll {
                Some(v) => v,
                None => base.roll,
            },
            yaw: match self.yaw {
                Some(v) => v,
                None => base.yaw,
            },
            thrust: match self.thrust {
                Some(v) => v,
                None => base.thrust,
            },
        }
    }
}

/// The effort that the rate tier hands to the mixer.
#[derive(Clone, Copy, Debug, PartialEq, Eq, Structural)]
pub struct CtrlMix {
    pub pitch: i64,
    pub roll: i64,
    pub yaw: i64,
    pub throttle: i64,
}

/// The ranges onto which full stick deflection is mapped in each input mode.
#[derive(Clone, Copy, Debug, PartialEq, Eq)]
pub struct InputMap {
    /// Pitch rate, radians per second.
    pub pitch_rate: (i64, i64),
    /// Roll rate, radians per second.
    pub roll_rate: (i64, i64),
    /// Yaw rate, radians per second.
    pub yaw_rate: (i64, i64),
    /// Throttle, limited to leave room for manoeuvres near the ends.
    pub throttle_clamped: (i64, i64),
    /// Pitch angle, radians from level.
    pub pitch_angle: (i64, i64),
    /// Roll angle, radians from level.
    pub roll_angle: (i64, i64),
    /// Heading, radians from north.
    pub yaw_angle: (i64, i64),
    /// Altitude above the launch point, metres.
    pub alt_commanded_offset_msl: (i64, i64),
    /// Altitude above ground, metres.
    pub alt_commanded_agl: (i64, i64),
}

/// Where a stick at `input`, of a range from -1 to 1, lies in `range`.
pub open spec fn map_stick(input: i64, range: (i64, i64)) -> int {
    map_linear_spec(
        input as int,
        (-1_000_000_000, 1_000_000_000),
        (range.0 as int, range.1 as int),
    )
}

/// Where a throttle at `input`, of a range from 0 to 1, lies in `range`.
pub open spec fn map_throttle(input: i64, range: (i64, i64)) -> int {
    map_linear_spec(input as int, (0, 1_000_000_000), (range.0 as int, range.1 as int))
}

impl InputMap {
    /// Pitch rate commanded by a stick position.
    pub fn calc_pitch_rate(&self, input: i64) -> (r: i64)
        ensures
            r == map_stick(input, self.pitch_rate),
    {
        map_linear(input, (-1_000_000_000, 1_000_000_000), self.pitch_rate)
    }

    /// Roll rate commanded by a stick position.
    pub fn calc_roll_rate(&self, input: i64) -> (r: i64)
        ensures
            r == map_stick(input, self.roll_rate),
    {
        map_linear(input, (-1_000_000_000, 1_000_000_000), self.roll_rate)
    }

    /// Yaw rate commanded by a stick position.
    pub fn calc_yaw_rate(&self, input: i64) -> (r: i64)
        ensures
            r == map_stick(input, self.yaw_rate),
    {
        map_linear(input, (-1_000_000_000, 1_000_000_000), self.yaw_rate)
    }

    /// Throttle commanded by a throttle stick position.
    pub fn calc_manual_throttle(&self, input: i64) -> (r: i64)
        ensures
            r == map_throttle(input, self.throttle_clamped),
    {
        map_linear(input, (0, 1_000_000_000), self.throttle_clamped)
    }

    /// Pitch angle commanded by a stick position.
    pub fn calc_pitch_angle(&self, input: i64) -> (r: i64)
        ensures
            r == map_stick(input, self.pitch_angle),
    {
        map_linear(input, (-1_000_000_000, 1_000_000_000), self.pitch_angle)
    }

    /// Roll angle commanded by a stick position.
    pub fn calc_roll_angle(&self, input: i64) -> (r: i64)
        ensures
            r == map_stick(input, self.roll_angle),
    {
        map_linear(input, (-1_000_000_000, 1_000_000_000), self.roll_angle)
    }

    /// Heading commanded by a stick position.
    pub fn calc_yaw_angle(&self, input: i64) -> (r: i64)
        ensures
            r == map_stick(input, self.yaw_angle),
    {
        map_linear(input, (-1_000_000_000, 1_000_000_000), self.yaw_angle)
    }

    /// The ranges of a flying wing, which has no yaw, throttle or angle modes.
    pub fn default_flying_wing() -> (r: Self)
        ensures
            r == (InputMap {
                pitch_rate: ((-6_000_000_000) as i64, 6_000_000_000),
                roll_rate: ((-6_000_000_000) as i64, 6_000_000_000),
                yaw_rate: (0, 0),
                throttle_clamped: (0, 0),
                pitch_angle: (0, 0),
                roll_angle: (0, 0),
                yaw_angle: (0, 0),
                alt_commanded_offset_msl: (0, 100_000_000_000),
                alt_commanded_agl: (500_000_000, 8_000_000_000),
            }),
    {
        InputMap {
            pitch_rate: (-6_000_000_000, 6_000_000_000),
            roll_rate: (-6_000_000_000, 6_000_000_000),
            yaw_rate: (0, 0),
            throttle_clamped: (0, 0),
            pitch_angle: (0, 0),
            roll_angle: (0, 0),
            yaw_angle: (0, 0),
            alt_commanded_offset_msl: (0, 100_000_000_000),
            alt_commanded_agl: (500_000_000, 8_000_000_000),
        }
    }
}

impl Default for InputMap {
    /// The ranges of a multirotor.
    fn default() -> (r: Self)
        ensures
            r == (InputMap {
                pitch_rate: ((-10_000_000_000) as i64, 10_000_000_000),
                roll_rate: ((-10_000_000_000) as i64, 10_000_000_000),
                yaw_rate: ((-10_000_000_000) as i64, 10_000_000_000),
                throttle_clamped: (THROTTLE_MIN_MNVR_CLAMP, THROTTLE_MAX_MNVR_CLAMP),
                pitch_angle: ((-QUARTER_TURN) as i64, QUARTER_TURN),
                roll_angle: ((-QUARTER_TURN) as i64, QUARTER_TURN),
                yaw_angle: (0, FULL_TURN),
                alt_commanded_offset_msl: (0, 100_000_000_000),
                alt_commanded_agl: (500_000_000, 8_000_000_000),
            }),
    {
        InputMap {
            pitch_rate: (-10_000_000_000, 10_000_000_000),
            roll_rate: (-10_000_000_000, 10_000_000_000),
            yaw_rate: (-10_000_000_000, 10_000_000_000),
            throttle_clamped: (THROTTLE_MIN_MNVR_CLAMP, THROTTLE_MAX_MNVR_CLAMP),
            pitch_angle: (-QUARTER_TURN, QUARTER_TURN),
            roll_angle: (-QUARTER_TURN, QUARTER_TURN),
            yaw_angle: (0, FULL_TURN),
            alt_commanded_offset_msl: (0, 100_000_000_000),
            alt_commanded_agl: (500_000_000, 8_000_000_000),
        }
    }
}

/// What a position is counted from.
#[derive(Clone, Copy, Debug, PartialEq, Eq, Structural)]
pub enum LocationType {
    /// Latitude and longitude, once there is a position fix.
    LatLon,
    /// Metres from where the aircraft started.
    Rel0,
}

impl Default for LocationType {
    fn default() -> (r: Self)
        ensures
            r == LocationType::Rel0,
    {
        LocationType::Rel0
    }
}

/// A position: `x` and `y` in radians of latitude and longitude, or in metres
/// from the start, and `z` in metres above mean sea level.
#[derive(Clone, Copy, Debug, PartialEq, Eq, Structural)]
pub struct Location {
    pub type_: LocationType,
    pub x: i64,
    pub y: i64,
    pub z: i64,
}

impl Location {
    pub fn new(type_: LocationType, x: i64, y: i64, z: i64) -> (r: Self)
        ensures
            r == (Location { type_, x, y, z }),
    {
        Location { type_, x, y, z }
    }
}

impl Default for Location {
    fn default() -> (r: Self)
        ensures
            r == (Location { type_: LocationType::Rel0, x: 0, y: 0, z: 0 }),
    {
        Location { type_: LocationType::Rel0, x: 0, y: 0, z: 0 }
    }
}

/// An orientation as a unit quaternion.
#[derive(Clone, Copy, Debug, PartialEq, Eq, Structural)]
pub struct Quaternion {
    pub w: i64,
    pub x: i64,
    pub y: i64,
    pub z: i64,
}

impl Quaternion {
    pub fn new(w: i64, x: i64, y: i64, z: i64) -> (r: Self)
        ensures
            r == (Quaternion { w, x, y, z }),
    {
        Quaternion { w, x, y, z }
    }
}

/// The product of two quaternions, each part rounded and saturating.
pub open spec fn quaternion_product(a: Quaternion, b: Quaternion) -> Quaternion {
    Quaternion {
        w: sub_spec(
            sub_spec(
                sub_spec(mul_spec(a.w as int, b.w as int), mul_spec(a.x as int, b.x as int)),
                mul_spec(a.y as int, b.y as int),
            ),
            mul_spec(a.z as int, b.z as int),
        ) as i64,
        x: sub_spec(
            add_spec(
                add_spec(mul_spec(a.w as int, b.x as int), mul_spec(a.x as int, b.w as int)),
                mul_spec(a.y as int, b.z as int),
            ),
            mul_spec(a.z as int, b.y as int),
        ) as i64,
        y: add_spec(
            add_spec(
                sub_spec(mul_spec(a.w as int, b.y as int), mul_spec(a.x as int, b.z as int)),
                mul_spec(a.y as int, b.w as int),
            ),
            mul_spec(a.z as int, b.x as int),
        ) as i64,
        z: add_spec(
            sub_spec(
                add_spec(mul_spec(a.w as int, b.z as int), mul_spec(a.x as int, b.y as int)),
                mul_spec(a.y as int, b.x as int),
            ),
            mul_spec(a.z as int, b.w as int),
        ) as i64,
    }
}

impl Quaternion {
    /// The rotation that undoes this one, for a unit quaternion: its conjugate.
    pub fn inverse(self) -> (r: Self)
        ensures
            r == (Quaternion {
                w: self.w,
                x: sub_spec(0, self.x as int) as i64,
                y: sub_spec(0, self.y as int) as i64,
                z: sub_spec(0, self.z as int) as i64,
            }),
    {
        Quaternion { w: self.w, x: fx_sub(0, self.x), y: fx_sub(0, self.y), z: fx_sub(0, self.z) }
    }

    /// The rotation `other` followed by this one.
    pub fn mul(self, other: Self) -> (r: Self)
        ensures
            r == quaternion_product(self, other),
    {
        let (a, b) = (self, other);
        Quaternion {
            w: fx_sub(fx_sub(fx_sub(fx_mul(a.w, b.w), fx_mul(a.x, b.x)), fx_mul(a.y, b.y)), fx_mul(a.z, b.z)),
            x: fx_sub(fx_add(fx_add(fx_mul(a.w, b.x), fx_mul(a.x, b.w)), fx_mul(a.y, b.z)), fx_mul(a.z, b.y)),
            y: fx_add(fx_add(fx_sub(fx_mul(a.w, b.y), fx_mul(a.x, b.z)), fx_mul(a.y, b.w)), fx_mul(a.z, b.x)),
            z: fx_add(fx_sub(fx_add(fx_mul(a.w, b.z), fx_mul(a.x, b.y)), fx_mul(a.y, b.x)), fx_mul(a.z, b.w)),
        }
    }
}

impl Default for Quaternion {
    /// The orientation of an aircraft that is level and has not turned.
    fn default() -> (r: Self)
        ensures
            r == (Quaternion { w: 1_000_000_000, x: 0, y: 0, z: 0 }),
    {
        Quaternion { w: 1_000_000_000, x: 0, y: 0, z: 0 }
    }
}

/// Whether a sensor that may be absent answers.
#[derive(Clone, Copy, Debug, PartialEq, Eq, Structural)]
pub enum SensorStatus {
    Pass,
    Fail,
    NotConnected,
}

/// The state of the sensors that the autopilot depends on.
#[derive(Clone, Copy, Debug, PartialEq, Eq, Structural)]
pub struct SystemStatus {
    /// Position fix.
    pub gnss_can: SensorStatus,
    /// Magnetometer.
    pub magnetometer: SensorStatus,
    /// Range sensor for altitude above ground.
    pub tof: SensorStatus,
}

/// Which optional sensors are connected.
#[derive(Clone, Copy, Debug, PartialEq, Eq, Structural)]
pub struct OptionalSensorStatus {
    pub gps_connected: bool,
    pub tof_connected: bool,
    pub magnetometer_connected: bool,
}

/// What the outer tier remembers between ticks.
#[derive(Clone, Copy, Debug, PartialEq, Eq, Structural)]
pub struct CommandState {
    pub arm_status: ArmStatus,
    /// Position to hold while loitering, metres.
    pub x: i64,
    pub y: i64,
    /// Altitude to hold, metres above mean sea level.
    pub alt: i64,
    /// Whether `x` and `y` hold a position to loiter at.
    pub loiter_set: bool,
}

impl Default for CommandState {
    fn default() -> (r: Self)
        ensures
            r == (CommandState { arm_status: ArmStatus::Disarmed, x: 0, y: 0, alt: 0, loiter_set: false }),
    {
        CommandState { arm_status: ArmStatus::Disarmed, x: 0, y: 0, alt: 0, loiter_set: false }
    }
}

/// The best estimate of the vehicle's state.
#[derive(Clone, Copy, Debug, PartialEq, Eq, Structural)]
pub struct Params {
    /// Position, metres.
    pub s_x: i64,
    pub s_y: i64,
    /// Altitude above mean sea level from the barometer, metres.
    pub baro_alt_msl: i64,
    /// Altitude above ground from the range sensor, metres, if it answers.
    pub tof_alt: Option<i64>,
    /// Latitude and longitude, radians.
    pub lat: i64,
    pub lon: i64,
    /// Attitude, radians.
    pub s_pitch: i64,
    pub s_roll: i64,
    /// Heading, radians.
    pub s_yaw_heading: i64,
    /// Attitude as a quaternion.
    pub quaternion: Quaternion,
    /// Velocity, metres per second.
    pub v_x: i64,
    pub v_y: i64,
    pub v_z: i64,
    /// Angular rates, radians per second.
    pub v_pitch: i64,
    pub v_roll: i64,
    pub v_yaw: i64,
    /// Acceleration, metres per second squared.
    pub a_x: i64,
    pub a_y: i64,
    pub a_z: i64,
    /// Angular acceleration, derived from the rates of two cycles.
    pub a_pitch: i64,
    pub a_roll: i64,
    pub a_yaw: i64,
}

impl Default for Params {
    /// Level, at rest, at the origin.
    fn default() -> (r: Self)
        ensures
            r == (Params {
                s_x: 0,
                s_y: 0,
                baro_alt_msl: 0,
                tof_alt: None,
                lat: 0,
                lon: 0,
                s_pitch: 0,
                s_roll: 0,
                s_yaw_heading: 0,
                quaternion: Quaternion { w: 1_000_000_000, x: 0, y: 0, z: 0 },
                v_x: 0,
                v_y: 0,
                v_z: 0,
                v_pitch: 0,
                v_roll: 0,
                v_yaw: 0,
                a_x: 0,
                a_y: 0,
                a_z: 0,
                a_pitch: 0,
                a_roll: 0,
                a_yaw: 0,
            }),
    {
        Params {
            s_x: 0,
            s_y: 0,
            baro_alt_msl: 0,
            tof_alt: None,
            lat: 0,
            lon: 0,
            s_pitch: 0,
            s_roll: 0,
            s_yaw_heading: 0,
            quaternion: Quaternion::default(),
            v_x: 0,
            v_y: 0,
            v_z: 0,
            v_pitch: 0,
            v_roll: 0,
            v_yaw: 0,
            a_x: 0,
            a_y: 0,
            a_z: 0,
            a_pitch: 0,
            a_roll: 0,
            a_yaw: 0,
        }
    }
}

/// One result of the attitude estimator: the orientation, the same as three
/// angles, and the angular rates.
#[derive(Clone, Copy, Debug, PartialEq, Eq, Structural)]
pub struct AttitudeEstimate {
    pub quaternion: Quaternion,
    pub s_pitch: i64,
    pub s_roll: i64,
    pub s_yaw_heading: i64,
    pub v_pitch: i64,
    pub v_roll: i64,
    pub v_yaw: i64,
}

/// The change of a rate from `prev` to `now` per second.
pub open spec fn finite_difference(now: i64, prev: i64, dt: i64) -> int
    recommends
        dt != 0,
{
    div_spec(sub_spec(now as int, prev as int), dt as int)
}

/// The estimate `current` after the estimator's result `est` was taken in,
/// `dt` seconds after the cycle before.
pub open spec fn params_after(current: Params, est: AttitudeEstimate, dt: i64) -> Params {
    Params {
        quaternion: est.quaternion,
        s_pitch: est.s_pitch,
        s_roll: est.s_roll,
        s_yaw_heading: est.s_yaw_heading,
        v_pitch: est.v_pitch,
        v_roll: est.v_roll,
        v_yaw: est.v_yaw,
        a_pitch: finite_difference(est.v_pitch, current.v_pitch, dt) as i64,
        a_roll: finite_difference(est.v_roll, current.v_roll, dt) as i64,
        a_yaw: finite_difference(est.v_yaw, current.v_yaw, dt) as i64,
        ..current
    }
}

impl Params {
    /// Take in one result of the attitude estimator. The estimate of the last
    /// cycle is first copied to `prev`, and only then overwritten; the
    /// angular accelerations are the change of the rates between the two.
    pub fn update_attitude(&mut self, prev: &mut Params, est: &AttitudeEstimate, dt: i64)
        requires
            dt > 0,
        ensures
            *final(prev) == *old(self),
            *final(self) == params_after(*old(self), *est, dt),
    {
        *prev = *self;
        self.quaternion = est.quaternion;
        self.s_pitch = est.s_pitch;
        self.s_roll = est.s_roll;
        self.s_yaw_heading = est.s_yaw_heading;
        self.v_pitch = est.v_pitch;
        self.v_roll = est.v_roll;
        self.v_yaw = est.v_yaw;
        self.a_pitch = fx_div(fx_sub(est.v_pitch, prev.v_pitch), dt);
        self.a_roll = fx_div(fx_sub(est.v_roll, prev.v_roll), dt);
        self.a_yaw = fx_div(fx_sub(est.v_yaw, prev.v_yaw), dt);
    }
}

/// The pilot's stick positions: pitch, roll and yaw from -1 to 1, throttle
/// from 0 to 1.
#[derive(Clone, Copy, Debug, PartialEq, Eq, Structural)]
pub struct ManualInputs {
    pub pitch: i64,
    pub roll: i64,
    pub yaw: i64,
    pub throttle: i64,
}

impl Default for ManualInputs {
    fn default() -> (r: Self)
        ensures
            r == (ManualInputs { pitch: 0, roll: 0, yaw: 0, throttle: 0 }),
    {
        ManualInputs { pitch: 0, roll: 0, yaw: 0, throttle: 0 }
    }
}

/// Six values at one instant: positions, or velocities, or accelerations, on
/// the three linear and the three angular axes.
#[derive(Clone, Copy, Debug, PartialEq, Eq, Structural)]
pub struct ParamsInst {
    pub x: i64,
    pub y: i64,
    pub z: i64,
    pub pitch: i64,
    pub roll: i64,
    pub yaw: i64,
}

impl Default for ParamsInst {
    fn default() -> (r: Self)
        ensures
            r == (ParamsInst { x: 0, y: 0, z: 0, pitch: 0, roll: 0, yaw: 0 }),
    {
        ParamsInst { x: 0, y: 0, z: 0, pitch: 0, roll: 0, yaw: 0 }
    }
}

impl ParamsInst {
    /// Sum, axis by axis, saturating.
    pub fn add(self, other: Self) -> (r: Self)
        ensures
            r == (ParamsInst {
                x: add_spec(self.x as int, other.x as int) as i64,
                y: add_spec(self.y as int, other.y as int) as i64,
                z: add_spec(self.z as int, other.z as int) as i64,
                pitch: add_spec(self.pitch as int, other.pitch as int) as i64,
                roll: add_spec(self.roll as int, other.roll as int) as i64,
                yaw: add_spec(self.yaw as int, other.yaw as int) as i64,
            }),
    {
        ParamsInst {
            x: fx_add(self.x, other.x),
            y: fx_add(self.y, other.y),
            z: fx_add(self.z, other.z),
            pitch: fx_add(self.pitch, other.pitch),
            roll: fx_add(self.roll, other.roll),
            yaw: fx_add(self.yaw, other.yaw),
        }
    }

    /// Difference, axis by axis, saturating.
    pub fn sub(self, other: Self) -> (r: Self)
        ensures
            r == (ParamsInst {
                x: sub_spec(self.x as int, other.x as int) as i64,
                y: sub_spec(self.y as int, other.y as int) as i64,
                z: sub_spec(self.z as int, other.z as int) as i64,
                pitch: sub_spec(self.pitch as int, other.pitch as int) as i64,
                roll: sub_spec(self.roll as int, other.roll as int) as i64,
                yaw: sub_spec(self.yaw as int, other.yaw as int) as i64,
            }),
    {
        ParamsInst {
            x: fx_sub(self.x, other.x),
            y: fx_sub(self.y, other.y),
            z: fx_sub(self.z, other.z),
            pitch: fx_sub(self.pitch, other.pitch),
            roll: fx_sub(self.roll, other.roll),
            yaw: fx_sub(self.yaw, other.yaw),
        }
    }
}

/// The flight parameters to reach or to keep. A parameter without a value is
/// left free.
#[derive(Clone, Copy, Debug, PartialEq, Eq, Structural)]
pub struct FlightCmd {
    pub s_x: Option<i64>,
    pub s_y: Option<i64>,
    /// Altitude above ground.
    pub s_z: Option<i64>,
    pub s_pitch: Option<i64>,
    pub s_roll: Option<i64>,
    pub s_yaw: Option<i64>,
    pub v_x: Option<i64>,
    pub v_y: Option<i64>,
    pub v_z: Option<i64>,
    pub v_pitch: Option<i64>,
    pub v_roll: Option<i64>,
    pub v_yaw: Option<i64>,
    pub a_x: Option<i64>,
    pub a_y: Option<i64>,
    pub a_z: Option<i64>,
    pub a_pitch: Option<i64>,
    pub a_roll: Option<i64>,
    pub a_yaw: Option<i64>,
}

/// A commanded rate with the pilot's input added to it; the input alone
/// where no rate was commanded.
pub open spec fn with_input(commanded: Option<i64>, input: i64) -> Option<i64> {
    match commanded {
        Some(v) => Some(add_spec(v as int, input as int) as i64),
        None => Some(input),
    }
}

impl Default for FlightCmd {
    /// Every parameter free.
    fn default() -> (r: Self)
        ensures
            r == FlightCmd::free(),
    {
        FlightCmd {
            s_x: None,
            s_y: None,
            s_z: None,
            s_pitch: None,
            s_roll: None,
            s_yaw: None,
            v_x: None,
            v_y: None,
            v_z: None,
            v_pitch: None,
            v_roll: None,
            v_yaw: None,
            a_x: None,
            a_y: None,
            a_z: None,
            a_pitch: None,
            a_roll: None,
            a_yaw: None,
        }
    }
}

impl FlightCmd {
    /// The command that leaves every parameter free.
    pub open spec fn free() -> FlightCmd {
        FlightCmd {
            s_x: None,
            s_y: None,
            s_z: None,
            s_pitch: None,
            s_roll: None,
            s_yaw: None,
            v_x: None,
            v_y: None,
            v_z: None,
            v_pitch: None,
            v_roll: None,
            v_yaw: None,
            a_x: None,
            a_y: None,
            a_z: None,
            a_pitch: None,
            a_roll: None,
            a_yaw: None,
        }
    }

    /// Add the pilot's input to the commanded angular rates.
    pub fn add_inputs(&mut self, inputs: ManualInputs)
        ensures
            *final(self) == (FlightCmd {
                v_pitch: with_input(old(self).v_pitch, inputs.pitch),
                v_roll: with_input(old(self).v_roll, inputs.roll),
                v_yaw: with_input(old(self).v_yaw, inputs.yaw),
                ..*old(self)
            }),
    {
        self.v_pitch =
        match self.v_pitch {
            Some(v) => Some(fx_add(v, inputs.pitch)),
            None => Some(inputs.pitch),
        };
        self.v_roll =
        match self.v_roll {
            Some(v) => Some(fx_add(v, inputs.roll)),
            None => Some(inputs.roll),
        };
        self.v_yaw =
        match self.v_yaw {
            Some(v) => Some(fx_add(v, inputs.yaw)),
            None => Some(inputs.yaw),
        };
    }

    /// Hover: no velocity on any linear axis. The altitude `_alt` is not
    /// commanded; the aircraft stays where the command finds it.
    pub fn hover(_alt: i64) -> (r: Self)
        ensures
            r == (FlightCmd { v_x: Some(0i64), v_y: Some(0i64), v_z: Some(0i64), ..FlightCmd::free() }),
    {
        let mut r = FlightCmd::default();
        r.v_x = Some(0);
        r.v_y = Some(0);
        r.v_z = Some(0);
        r
    }

    /// Keep the aircraft level and its altitude unchanged.
    pub fn level() -> (r: Self)
        ensures
            r == (FlightCmd {
                s_pitch: Some(0i64),
                s_roll: Some(0i64),
                s_yaw: Some(0i64),
                v_z: Some(0i64),
                ..FlightCmd::free()
            }),
    {
        let mut r = FlightCmd::default();
        r.s_pitch = Some(0);
        r.s_roll = Some(0);
        r.s_yaw = Some(0);
        r.v_z = Some(0);
        r
    }
}

} // verus!
