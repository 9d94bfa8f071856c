//! The multirotor: four rotors in an X, mixed from pitch, roll, yaw and throttle.

use vstd::prelude::*;
use crate::fixed::{add_spec, clamp_spec, mul_spec, sub_spec, trunc_div};
use crate::fixed::{clamp, fx_add, fx_div_int, fx_mul, fx_sub};
use crate::flight_ctrls::common::{CtrlMix, Motor};
use crate::protocols::dshot::{payload_with_frames, power_frame, set_power, stop_all, DshotPayload};
use crate::safety::ArmStatus;

verus! {

/// Power of a rotor at idle, which is none; no rotor is given less.
pub const MIN_ROTOR_POWER: i64 = 0;

/// Largest power any single rotor is given.
pub const MAX_ROTOR_POWER: i64 = 1_000_000_000;

/// Power per unit of pitch effort.
pub const PITCH_COEFF: i64 = 1_000_000_000;

/// Power per unit of roll effort.
pub const ROLL_COEFF: i64 = 1_000_000_000;

/// Power per unit of yaw effort.
pub const YAW_COEFF: i64 = 1_000_000_000;

/// Share of the heading error that yaw assist adds to the yaw rate.
pub const YAW_ASSIST_COEFF: i64 = 100_000_000;

/// Horizontal speed from which yaw assist acts, metres per second.
pub const YAW_ASSIST_MIN_SPEED: i64 = 500_000_000;

/// Altitude above ground up to which the take-off climb is commanded, metres.
pub const TAKEOFF_ALT: i64 = 2_000_000_000;

/// Vertical speed of the take-off climb, metres per second.
pub const TAKEOFF_SPEED: i64 = 500_000_000;

/// The sense in which a rotor turns, seen from above.
#[derive(Clone, Copy, Debug, PartialEq, Eq, Structural)]
pub enum RotationDir {
    Clockwise,
    CounterClockwise,
}

/// Where a rotor sits on the airframe.
#[derive(Clone, Copy, Debug, PartialEq, Eq, Structural)]
pub enum RotorPosition {
    FrontLeft,
    FrontRight,
    AftLeft,
    AftRight,
}

/// Which rotor each motor channel drives, and the sense in which the front
/// left and aft right rotors turn (the other two turn against it).
#[derive(Clone, Copy, Debug, PartialEq, Eq, Structural)]
pub struct RotorMapping {
    pub m1: RotorPosition,
    pub m2: RotorPosition,
    pub m3: RotorPosition,
    pub m4: RotorPosition,
    pub frontleft_aftright_dir: RotationDir,
}

impl Default for RotorMapping {
    fn default() -> (r: Self)
        ensures
            r == (RotorMapping {
                m1: RotorPosition::AftRight,
                m2: RotorPosition::FrontRight,
                m3: RotorPosition::AftLeft,
                m4: RotorPosition::FrontLeft,
                frontleft_aftright_dir: RotationDir::Clockwise,
            }),
    {
        RotorMapping {
            m1: RotorPosition::AftRight,
            m2: RotorPosition::FrontRight,
            m3: RotorPosition::AftLeft,
            m4: RotorPosition::FrontLeft,
            frontleft_aftright_dir: RotationDir::Clockwise,
        }
    }
}

impl RotorMapping {
    /// The rotor that a motor channel drives.
    pub open spec fn position_of(self, motor: Motor) -> RotorPosition {
        match motor {
            Motor::M1 => self.m1,
            Motor::M2 => self.m2,
            Motor::M3 => self.m3,
            Motor::M4 => self.m4,
        }
    }

    /// The first motor channel that drives the rotor at `position`; the last
    /// channel if none does.
    pub fn motor_from_position(&self, position: RotorPosition) -> (r: Motor)
        ensures
            r == (if self.m1 == position {
                Motor::M1
            } else if self.m2 == position {
                Motor::M2
            } else if self.m3 == position {
                Motor::M3
            } else {
                Motor::M4
            }),
    {
        if self.m1 == position {
            Motor::M1
        } else if self.m2 == position {
            Motor::M2
        } else if self.m3 == position {
            Motor::M3
        } else {
            Motor::M4
        }
    }
}

/// The power of each rotor, from 0 to 1.
#[derive(Clone, Copy, Debug, PartialEq, Eq, Structural)]
pub struct RotorPower {
    pub front_left: i64,
    pub front_right: i64,
    pub aft_left: i64,
    pub aft_right: i64,
}

/// A rotor's power limited to the range from none to full power.
pub open spec fn clamp_rotor(p: i64) -> i64 {
    clamp_spec(p as int, MIN_ROTOR_POWER as int, MAX_ROTOR_POWER as int) as i64
}

/// The powers with each rotor limited on its own.
pub open spec fn clamped_power(p: RotorPower) -> RotorPower {
    RotorPower {
        front_left: clamp_rotor(p.front_left),
        front_right: clamp_rotor(p.front_right),
        aft_left: clamp_rotor(p.aft_left),
        aft_right: clamp_rotor(p.aft_right),
    }
}

/// The yaw effort as the front left and aft right rotors take it: their
/// torque on the airframe is against the sense in which they turn.
pub open spec fn yaw_by_direction(yaw: i64, dir: RotationDir) -> int {
    match dir {
        RotationDir::Clockwise => sub_spec(0, mul_spec(YAW_COEFF as int, yaw as int)),
        RotationDir::CounterClockwise => mul_spec(YAW_COEFF as int, yaw as int),
    }
}

/// The power of each rotor before it is limited: throttle, plus or minus the
/// pitch, roll and yaw efforts by where the rotor sits and how it turns.
/// Positive pitch raises the nose, positive roll raises the left side.
pub open spec fn mixed_power(mix: CtrlMix, dir: RotationDir) -> RotorPower {
    let t = mix.throttle as int;
    let p = mul_spec(PITCH_COEFF as int, mix.pitch as int);
    let r = mul_spec(ROLL_COEFF as int, mix.roll as int);
    let y = yaw_by_direction(mix.yaw, dir);
    RotorPower {
        front_left: add_spec(add_spec(add_spec(t, p), r), y) as i64,
        front_right: sub_spec(sub_spec(add_spec(t, p), r), y) as i64,
        aft_left: sub_spec(add_spec(sub_spec(t, p), r), y) as i64,
        aft_right: add_spec(sub_spec(sub_spec(t, p), r), y) as i64,
    }
}

impl Default for RotorPower {
    fn default() -> (r: Self)
        ensures
            r == (RotorPower { front_left: 0, front_right: 0, aft_left: 0, aft_right: 0 }),
    {
        RotorPower { front_left: 0, front_right: 0, aft_left: 0, aft_right: 0 }
    }
}

impl RotorPower {
    /// The power of the rotor at a position.
    pub open spec fn at(self, position: RotorPosition) -> i64 {
        match position {
            RotorPosition::FrontLeft => self.front_left,
            RotorPosition::FrontRight => self.front_right,
            RotorPosition::AftLeft => self.aft_left,
            RotorPosition::AftRight => self.aft_right,
        }
    }

    /// The power of the rotor at a position.
    pub fn by_position(&self, position: RotorPosition) -> (r: i64)
        ensures
            r == self.at(position),
    {
        match position {
            RotorPosition::FrontLeft => self.front_left,
            RotorPosition::FrontRight => self.front_right,
            RotorPosition::AftLeft => self.aft_left,
            RotorPosition::AftRight => self.aft_right,
        }
    }

    /// The rotor powers that an effort mixes into, each limited on its own.
    pub fn from_cmds(mix: &CtrlMix, front_left_dir: RotationDir) -> (r: Self)
        ensures
            r == clamped_power(mixed_power(*mix, front_left_dir)),
    {
        let p = fx_mul(PITCH_COEFF, mix.pitch);
        let r = fx_mul(ROLL_COEFF, mix.roll);
        let y = match front_left_dir {
            RotationDir::Clockwise => fx_sub(0, fx_mul(YAW_COEFF, mix.yaw)),
            RotationDir::CounterClockwise => fx_mul(YAW_COEFF, mix.yaw),
        };
        let mut pwr = RotorPower {
            front_left: fx_add(fx_add(fx_add(mix.throttle, p), r), y),
            front_right: fx_sub(fx_sub(fx_add(mix.throttle, p), r), y),
            aft_left: fx_sub(fx_add(fx_sub(mix.throttle, p), r), y),
            aft_right: fx_add(fx_sub(fx_sub(mix.throttle, p), r), y),
        };
        pwr.clamp();
        pwr
    }

    /// Sum of the four powers, saturating.
    pub fn total(&self) -> (r: i64)
        ensures
            r == add_spec(
                add_spec(add_spec(self.front_left as int, self.front_right as int), self.aft_left as int),
                self.aft_right as int,
            ),
    {
        fx_add(fx_add(fx_add(self.front_left, self.front_right), self.aft_left), self.aft_right)
    }

    /// Limit each rotor to the range from idle to full power. Each rotor is
    /// limited on its own: one may be pinned while the others still move.
    pub fn clamp(&mut self)
        ensures
            *final(self) == clamped_power(*old(self)),
    {
        self.front_left = clamp(self.front_left, MIN_ROTOR_POWER, MAX_ROTOR_POWER);
        self.front_right = clamp(self.front_right, MIN_ROTOR_POWER, MAX_ROTOR_POWER);
        self.aft_left = clamp(self.aft_left, MIN_ROTOR_POWER, MAX_ROTOR_POWER);
        self.aft_right = clamp(self.aft_right, MIN_ROTOR_POWER, MAX_ROTOR_POWER);
    }

    /// Limit the powers and write the frames that command them. Unless the
    /// motors are armed the frames command a stop, whatever the powers are.
    pub fn set(&mut self, mapping: &RotorMapping, arm_status: ArmStatus, payload: &mut DshotPayload)
        ensures
            *final(self) == clamped_power(*old(self)),
            final(payload).esc_telem == old(payload).esc_telem,
            final(payload).buf@ == payload_for(
                clamped_power(*old(self)),
                *mapping,
                arm_status,
                *old(payload),
            ),
    {
        self.clamp();
        match arm_status {
            ArmStatus::Armed => {
                set_power(
                    payload,
                    self.by_position(mapping.m1),
                    self.by_position(mapping.m2),
                    self.by_position(mapping.m3),
                    self.by_position(mapping.m4),
                );
            },
            _ => {
                stop_all(payload);
            },
        }
    }
}

/// The transmit buffer after the frames for these powers were written into it.
pub open spec fn payload_for(
    power: RotorPower,
    mapping: RotorMapping,
    arm_status: ArmStatus,
    old: DshotPayload,
) -> Seq<u16> {
    if arm_status == ArmStatus::Armed {
        payload_with_frames(
            old.buf@,
            power_frame(power.at(mapping.m1), old.esc_telem),
            power_frame(power.at(mapping.m2), old.esc_telem),
            power_frame(power.at(mapping.m3), old.esc_telem),
            power_frame(power.at(mapping.m4), old.esc_telem),
        )
    } else {
        payload_with_frames(
            old.buf@,
            power_frame(0, old.esc_telem),
            power_frame(0, old.esc_telem),
            power_frame(0, old.esc_telem),
            power_frame(0, old.esc_telem),
        )
    }
}

/// Mix the efforts of the rate tier into rotor powers, limit them, and write
/// the frames that command them. `current_pwr` receives the limited powers.
pub fn apply_controls(
    pitch: i64,
    roll: i64,
    yaw: i64,
    throttle: i64,
    current_pwr: &mut RotorPower,
    mapping: &RotorMapping,
    payload: &mut DshotPayload,
    arm_status: ArmStatus,
)
    ensures
        *final(current_pwr) == clamped_power(
            mixed_power(CtrlMix { pitch, roll, yaw, throttle }, mapping.frontleft_aftright_dir),
        ),
        final(payload).esc_telem == old(payload).esc_telem,
        final(payload).buf@ == payload_for(*final(current_pwr), *mapping, arm_status, *old(payload)),
{
    let mix = CtrlMix { pitch, roll, yaw, throttle };
    let mut pwr = RotorPower::from_cmds(&mix, mapping.frontleft_aftright_dir);
    pwr.set(mapping, arm_status, payload);
    *current_pwr = pwr;
}

/// The vertical speed to fly toward an altitude that is `dist` metres away:
/// one metre per second for each metre, and never faster than `max_v`.
pub open spec fn enroute_speed_ver_spec(dist: i64, max_v: i64) -> int {
    if max_v <= 0 {
        0
    } else {
        clamp_spec(dist as int, -max_v, max_v as int)
    }
}

/// The vertical speed to command toward an altitude `dist` metres above
/// (positive) or below (negative), limited to `max_v` either way.
pub fn enroute_speed_ver(dist: i64, max_v: i64) -> (r: i64)
    ensures
        r == enroute_speed_ver_spec(dist, max_v),
{
    if max_v <= 0 {
        0
    } else {
        clamp(dist, -max_v, max_v)
    }
}

/// The climb commanded while taking off.
pub open spec fn takeoff_speed_spec(height: i64, max_v: i64) -> int {
    if height >= TAKEOFF_ALT || max_v <= 0 {
        0
    } else if max_v < TAKEOFF_SPEED {
        max_v as int
    } else {
        TAKEOFF_SPEED as int
    }
}

/// The descent commanded while landing, as a speed downward.
pub open spec fn landing_speed_spec(height: i64, max_v: i64) -> int {
    if max_v <= 0 {
        0
    } else {
        clamp_spec(trunc_div(height as int, 4), 0, max_v as int)
    }
}

/// The climb to command while taking off: `TAKEOFF_SPEED` (or `max_v`, if
/// that is less) until the aircraft is `TAKEOFF_ALT` above ground, then none.
pub fn takeoff_speed(height: i64, max_v: i64) -> (r: i64)
    ensures
        r == takeoff_speed_spec(height, max_v),
{
    if height >= TAKEOFF_ALT || max_v <= 0 {
        0
    } else if max_v < TAKEOFF_SPEED {
        max_v
    } else {
        TAKEOFF_SPEED
    }
}

/// The descent to command while landing, as a speed downward: a quarter of
/// the height above ground per second, never more than `max_v` and never
/// upward.
pub fn landing_speed(height: i64, max_v: i64) -> (r: i64)
    ensures
        r == landing_speed_spec(height, max_v),
{
    if max_v <= 0 {
        0
    } else {
        clamp(fx_div_int(height, 4), 0, max_v)
    }
}

/// Limiting rotor powers that are already limited changes nothing.
pub proof fn lemma_clamp_power_idempotent(p: RotorPower)
    ensures
        clamped_power(clamped_power(p)) == clamped_power(p),
{
}

/// Limited powers lie between idle and full power.
pub proof fn lemma_clamped_power_in_range(p: RotorPower, position: RotorPosition)
    ensures
        MIN_ROTOR_POWER <= clamped_power(p).at(position) <= MAX_ROTOR_POWER,
{
}

/// With no pitch, roll or yaw effort every rotor gets the throttle, limited.
pub proof fn lemma_mix_is_symmetric(throttle: i64, dir: RotationDir, position: RotorPosition)
    ensures
        clamped_power(mixed_power(CtrlMix { pitch: 0, roll: 0, yaw: 0, throttle }, dir)).at(position)
            == clamp_rotor(throttle),
{
}

} // verus!
