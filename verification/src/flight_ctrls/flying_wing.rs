//! The flying wing: one motor and two elevons. There is no yaw control; the
//! mean of the elevons gives pitch and their difference gives roll.

use vstd::prelude::*;
use crate::fixed::{add_spec, clamp_spec, div_spec, map_linear_spec, mul_spec, sub_spec};
use crate::fixed::{clamp, fx_add, fx_div, fx_mul, fx_sub, map_linear};
use crate::protocols::dshot::{payload_with_frames, power_frame, set_power, stop_all, DshotPayload};
use crate::flight_ctrls::common::CtrlMix;
use crate::safety::ArmStatus;

verus! {

/// Power of the motor at idle.
pub const MIN_MOTOR_POWER: i64 = 20_000_000;

/// Largest power the motor is given.
pub const MAX_MOTOR_POWER: i64 = 1_000_000_000;

/// Full deflection of an elevon downward.
pub const ELEVON_MIN: i64 = -1_000_000_000;

/// Full deflection of an elevon upward.
pub const ELEVON_MAX: i64 = 1_000_000_000;

/// Elevon deflection per unit of roll effort, against one per unit of pitch.
pub const ROLL_COEFF: i64 = 5_000_000_000;

/// Elevon deflection per radian per second of pitch rate at unit airspeed.
pub const PITCH_RATE_COEFF: i64 = 100_000_000;

/// Elevon difference per radian per second of roll rate at unit airspeed.
pub const ROLL_RATE_COEFF: i64 = 100_000_000;

/// Timer prescaler of the servo outputs.
pub const PSC_SERVOS: u16 = 6;

/// Timer period of the servo outputs.
pub const ARR_SERVOS: u32 = 48_570;

/// Duty value at one end of a servo's travel: a fifth of the period.
pub const SERVO_DUTY_HIGH: i64 = 9_714;

/// Duty value at the other end of a servo's travel: seven tenths of the period.
pub const SERVO_DUTY_LOW: i64 = 33_999;

/// One of the two servo channels.
#[derive(Clone, Copy, Debug, PartialEq, Eq, Structural)]
pub enum ServoWing {
    S1,
    S2,
}

/// The wing that a servo moves.
#[derive(Clone, Copy, Debug, PartialEq, Eq, Structural)]
pub enum ServoWingPosition {
    Left,
    Right,
}

/// Which wing each servo channel moves, and which servos turn the other way.
#[derive(Clone, Copy, Debug, PartialEq, Eq, Structural)]
pub struct ServoWingMapping {
    pub s1: ServoWingPosition,
    pub s2: ServoWingPosition,
    pub s1_reversed: bool,
    pub s2_reversed: bool,
}

impl Default for ServoWingMapping {
    fn default() -> (r: Self)
        ensures
            r == (ServoWingMapping {
                s1: ServoWingPosition::Left,
                s2: ServoWingPosition::Right,
                s1_reversed: false,
                s2_reversed: true,
            }),
    {
        ServoWingMapping {
            s1: ServoWingPosition::Left,
            s2: ServoWingPosition::Right,
            s1_reversed: false,
            s2_reversed: true,
        }
    }
}

impl ServoWingMapping {
    /// The servo channel that moves the wing at `position`: the first if it
    /// is mapped there, the second otherwise.
    pub fn servo_from_position(&self, position: ServoWingPosition) -> (r: ServoWing)
        ensures
            r == (if self.s1 == position {
                ServoWing::S1
            } else {
                ServoWing::S2
            }),
    {
        if self.s1 == position {
            ServoWing::S1
        } else {
            ServoWing::S2
        }
    }

    /// Whether a servo channel turns the other way.
    pub open spec fn reversed(self, elevon: ServoWing) -> bool {
        match elevon {
            ServoWing::S1 => self.s1_reversed,
            ServoWing::S2 => self.s2_reversed,
        }
    }
}

/// The duty value that puts an elevon at `position`: linear between the two
/// ends of the servo's travel, which a reversed servo swaps, and never
/// outside what the timer's register holds.
pub open spec fn elevon_duty(position: i64, reversed: bool) -> u32 {
    let range_out = if reversed {
        (SERVO_DUTY_HIGH as int, SERVO_DUTY_LOW as int)
    } else {
        (SERVO_DUTY_LOW as int, SERVO_DUTY_HIGH as int)
    };
    clamp_spec(
        map_linear_spec(position as int, (ELEVON_MIN as int, ELEVON_MAX as int), range_out),
        0,
        u32::MAX as int,
    ) as u32
}

/// The duty value of the servo timer that puts an elevon at `position`,
/// where -1 is full deflection downward and 1 full deflection upward.
pub fn set_elevon_posit(elevon: ServoWing, position: i64, mapping: &ServoWingMapping) -> (duty_arr: u32)
    ensures
        duty_arr == elevon_duty(position, mapping.reversed(elevon)),
{
    let range_out = match elevon {
        ServoWing::S1 => {
            if mapping.s1_reversed {
                (SERVO_DUTY_HIGH, SERVO_DUTY_LOW)
            } else {
                (SERVO_DUTY_LOW, SERVO_DUTY_HIGH)
            }
        },
        ServoWing::S2 => {
            if mapping.s2_reversed {
                (SERVO_DUTY_HIGH, SERVO_DUTY_LOW)
            } else {
                (SERVO_DUTY_LOW, SERVO_DUTY_HIGH)
            }
        },
    };
    let duty = map_linear(position, (ELEVON_MIN, ELEVON_MAX), range_out);
    clamp(duty, 0, u32::MAX as i64) as u32
}

/// The duty values of the two servo channels.
#[derive(Clone, Copy, Debug, PartialEq, Eq, Structural)]
pub struct ServoDuties {
    pub s1: u32,
    pub s2: u32,
}

/// The settings of the motor and of the elevons. A positive elevon value
/// points the elevon up.
#[derive(Clone, Copy, Debug, PartialEq, Eq, Structural)]
pub struct ControlPositions {
    pub motor: i64,
    pub elevon_left: i64,
    pub elevon_right: i64,
}

/// The settings with motor and elevons each limited to its range.
pub open spec fn clamped_positions(c: ControlPositions) -> ControlPositions {
    ControlPositions {
        motor: clamp_spec(c.motor as int, MIN_MOTOR_POWER as int, MAX_MOTOR_POWER as int) as i64,
        elevon_left: clamp_spec(c.elevon_left as int, ELEVON_MIN as int, ELEVON_MAX as int) as i64,
        elevon_right: clamp_spec(c.elevon_right as int, ELEVON_MIN as int, ELEVON_MAX as int) as i64,
    }
}

/// The settings for a pitch and roll effort and a throttle, before limiting.
pub open spec fn mixed_positions(pitch_delta: i64, roll_delta: i64, throttle: i64) -> ControlPositions {
    ControlPositions {
        motor: throttle,
        elevon_left: add_spec(pitch_delta as int, mul_spec(roll_delta as int, ROLL_COEFF as int)) as i64,
        elevon_right: sub_spec(pitch_delta as int, mul_spec(roll_delta as int, ROLL_COEFF as int)) as i64,
    }
}

/// What the settings `c` put on the motor and the servos under an arm status:
/// the motor's power, and the positions of the left and right elevons.
pub open spec fn commanded(c: ControlPositions, arm_status: ArmStatus) -> ControlPositions {
    match arm_status {
        ArmStatus::Armed => c,
        ArmStatus::ControlsArmed => ControlPositions { motor: 0, ..c },
        ArmStatus::Disarmed => ControlPositions { motor: 0, elevon_left: 0, elevon_right: 0 },
    }
}

/// The transmit buffer after the frame for the motor was written into it.
pub open spec fn wing_payload(c: ControlPositions, arm_status: ArmStatus, old: DshotPayload) -> Seq<u16> {
    payload_with_frames(
        old.buf@,
        power_frame(commanded(c, arm_status).motor, old.esc_telem),
        power_frame(0, old.esc_telem),
        power_frame(0, old.esc_telem),
        power_frame(0, old.esc_telem),
    )
}

/// The duty values that put the elevons where the settings say.
pub open spec fn wing_duties(c: ControlPositions, arm_status: ArmStatus, mapping: ServoWingMapping) -> ServoDuties {
    ServoDuties {
        s1: elevon_duty(commanded(c, arm_status).elevon_left, mapping.s1_reversed),
        s2: elevon_duty(commanded(c, arm_status).elevon_right, mapping.s2_reversed),
    }
}

impl Default for ControlPositions {
    fn default() -> (r: Self)
        ensures
            r == (ControlPositions { motor: 0, elevon_left: 0, elevon_right: 0 }),
    {
        ControlPositions { motor: 0, elevon_left: 0, elevon_right: 0 }
    }
}

impl ControlPositions {
    /// The settings that an effort mixes into, each limited to its range.
    pub fn from_cmds(mix: &CtrlMix) -> (r: Self)
        ensures
            r == clamped_positions(mixed_positions(mix.pitch, mix.roll, mix.throttle)),
    {
        let roll_part = fx_mul(mix.roll, ROLL_COEFF);
        let mut posits = ControlPositions {
            motor: mix.throttle,
            elevon_left: fx_add(mix.pitch, roll_part),
            elevon_right: fx_sub(mix.pitch, roll_part),
        };
        posits.clamp();
        posits
    }

    /// Write the frames that command the motor and return the duty values of
    /// the servos. The first servo channel takes the left elevon's position,
    /// the second the right one's. Disarmed, the motor is stopped and the
    /// elevons stand neutral; with only the controls armed, the motor is
    /// stopped and the elevons move.
    pub fn set(&self, arm_status: ArmStatus, mapping: &ServoWingMapping, payload: &mut DshotPayload) -> (r:
        ServoDuties)
        ensures
            final(payload).esc_telem == old(payload).esc_telem,
            final(payload).buf@ == wing_payload(*self, arm_status, *old(payload)),
            r == wing_duties(*self, arm_status, *mapping),
    {
        match arm_status {
            ArmStatus::Armed => {
                set_power(payload, self.motor, 0, 0, 0);
                ServoDuties {
                    s1: set_elevon_posit(ServoWing::S1, self.elevon_left, mapping),
                    s2: set_elevon_posit(ServoWing::S2, self.elevon_right, mapping),
                }
            },
            ArmStatus::ControlsArmed => {
                stop_all(payload);
                ServoDuties {
                    s1: set_elevon_posit(ServoWing::S1, self.elevon_left, mapping),
                    s2: set_elevon_posit(ServoWing::S2, self.elevon_right, mapping),
                }
            },
            ArmStatus::Disarmed => {
                stop_all(payload);
                ServoDuties {
                    s1: set_elevon_posit(ServoWing::S1, 0, mapping),
                    s2: set_elevon_posit(ServoWing::S2, 0, mapping),
                }
            },
        }
    }

    /// Limit the motor to the range from idle to full power and each elevon
    /// to its travel.
    pub fn clamp(&mut self)
        ensures
            *final(self) == clamped_positions(*old(self)),
    {
        self.motor = clamp(self.motor, MIN_MOTOR_POWER, MAX_MOTOR_POWER);
        self.elevon_left = clamp(self.elevon_left, ELEVON_MIN, ELEVON_MAX);
        self.elevon_right = clamp(self.elevon_right, ELEVON_MIN, ELEVON_MAX);
    }
}

/// Mix a pitch and a roll effort and a throttle into settings of the motor
/// and the elevons, limit them, and command them. Positive pitch raises the
/// nose, positive roll raises the left wing.
pub fn apply_controls(
    pitch_delta: i64,
    roll_delta: i64,
    throttle: i64,
    control_posits: &mut ControlPositions,
    mapping: &ServoWingMapping,
    payload: &mut DshotPayload,
    arm_status: ArmStatus,
) -> (r: ServoDuties)
    ensures
        *final(control_posits) == clamped_positions(mixed_positions(pitch_delta, roll_delta, throttle)),
        final(payload).esc_telem == old(payload).esc_telem,
        final(payload).buf@ == wing_payload(*final(control_posits), arm_status, *old(payload)),
        r == wing_duties(*final(control_posits), arm_status, *mapping),
{
    let posits = ControlPositions::from_cmds(&CtrlMix { pitch: pitch_delta, roll: roll_delta, yaw: 0, throttle });
    *control_posits = posits;
    posits.set(arm_status, mapping, payload)
}

/// The speed by which rates are turned into deflections: the airspeed where
/// it is known, the throttle as a stand-in where it is not.
pub open spec fn reference_speed(airspeed: Option<i64>, throttle: i64) -> i64 {
    match airspeed {
        Some(speed) => speed,
        None => throttle,
    }
}

/// The settings estimated to give a pitch and a roll rate, not limited.
pub open spec fn estimated_positions(
    pitch_rate: i64,
    roll_rate: i64,
    airspeed: Option<i64>,
    throttle: i64,
) -> ControlPositions {
    let speed = reference_speed(airspeed, throttle);
    if speed == 0 {
        ControlPositions { motor: throttle, elevon_left: 0, elevon_right: 0 }
    } else {
        let center = div_spec(mul_spec(PITCH_RATE_COEFF as int, pitch_rate as int), speed as int);
        let diff = mul_spec(
            div_spec(mul_spec(ROLL_RATE_COEFF as int, roll_rate as int), speed as int),
            ROLL_COEFF as int,
        );
        ControlPositions {
            motor: throttle,
            elevon_left: sub_spec(center, diff) as i64,
            elevon_right: add_spec(center, diff) as i64,
        }
    }
}

/// Estimate the settings that give a pitch and a roll rate, in radians per
/// second, at an airspeed in metres per second; without an airspeed the
/// throttle stands in for it. At no speed at all no deflection has any
/// effect, and the elevons are left neutral.
pub fn estimate_ctrl_posits(pitch_rate: i64, roll_rate: i64, airspeed: Option<i64>, throttle: i64) -> (r:
    ControlPositions)
    ensures
        r == estimated_positions(pitch_rate, roll_rate, airspeed, throttle),
{
    let speed = match airspeed {
        Some(speed) => speed,
        None => throttle,
    };
    if speed == 0 {
        return ControlPositions { motor: throttle, elevon_left: 0, elevon_right: 0 };
    }
    let center = fx_div(fx_mul(PITCH_RATE_COEFF, pitch_rate), speed);
    let diff = fx_mul(fx_div(fx_mul(ROLL_RATE_COEFF, roll_rate), speed), ROLL_COEFF);
    ControlPositions { motor: throttle, elevon_left: fx_sub(center, diff), elevon_right: fx_add(center, diff) }
}

/// Limiting settings that are already limited changes nothing.
pub proof fn lemma_clamp_positions_idempotent(c: ControlPositions)
    ensures
        clamped_positions(clamped_positions(c)) == clamped_positions(c),
{
}

/// Limited settings lie within the motor's and the elevons' ranges.
pub proof fn lemma_clamped_positions_in_range(c: ControlPositions)
    ensures
        MIN_MOTOR_POWER <= clamped_positions(c).motor <= MAX_MOTOR_POWER,
        ELEVON_MIN <= clamped_positions(c).elevon_left <= ELEVON_MAX,
        ELEVON_MIN <= clamped_positions(c).elevon_right <= ELEVON_MAX,
{
}

} // verus!
