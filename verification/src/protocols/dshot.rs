//! The DSHOT digital motor protocol.
//!
//! A frame is 16 bits, most significant bit first: an 11-bit data word (0 is
//! "disarmed", 1 to 47 are commands, 48 to 2047 are the 2000 throttle steps),
//! one bit that requests telemetry, and a 4-bit checksum over the 12 bits
//! before it. On the wire each bit is one timer period whose duty cycle tells
//! a 1 from a 0. The frames of the four motors are interleaved in one buffer,
//! so that a single burst updates all four channels together.
//!
//! In bidirectional mode the speed controller answers each frame with a
//! 20-bit run-length-limited word that holds 16 bits: either a rotor period
//! or one extended telemetry value, and a checksum.

use vstd::prelude::*;
use crate::fixed::{clamp, clamp_spec, trunc_div, SCALE};
use crate::flight_ctrls::common::{Motor, MotorRpm, motor_offset};
use crate::safety::ArmStatus;

verus! {

/// Whether the checksum is inverted, as bidirectional DSHOT has it.
pub const BIDIR_EN: bool = true;

/// Timer prescaler for DSHOT-600.
pub const DSHOT_PSC_600: u16 = 0;

/// Timer period of one bit.
pub const DSHOT_ARR_600: u32 = 567;

/// Duty value of a 1 bit: three quarters of the period.
pub const DUTY_HIGH: u32 = DSHOT_ARR_600 * 3 / 4;

/// Duty value of a 0 bit: three eighths of the period.
pub const DUTY_LOW: u32 = DSHOT_ARR_600 * 3 / 8;

/// Number of motor channels that share one burst.
pub const NUM_MOTORS: usize = 4;

/// Length of the transmit buffer: 16 bit slots and 2 idle slots per motor.
pub const PAYLOAD_LEN: usize = 18 * NUM_MOTORS;

/// Number of line samples in one received answer.
pub const REC_BUF_LEN: usize = 20;

/// Milliseconds to wait after each frame while configuring speed controllers.
pub const PAUSE_BETWEEN_COMMANDS: u32 = 1;

/// Milliseconds to wait after the settings were saved.
pub const PAUSE_AFTER_SAVE: u32 = 40;

/// How often a configuration command is sent.
pub const REPEAT_COMMAND_COUNT: u32 = 10;

/// How often zero throttle is sent before configuration commands are accepted.
pub const STOP_REPEAT_COUNT: u32 = 30;

/// Lowest data word that is a throttle step.
pub const THROTTLE_WORD_MIN: u16 = 48;

/// Highest data word.
pub const THROTTLE_WORD_MAX: u16 = 2047;

/// Number of magnet poles of the motors, by which a period becomes a speed.
pub const NUM_POLES: i64 = 14;

/// The commands of the protocol: the data words 0 to 47.
#[derive(Clone, Copy, Debug, PartialEq, Eq, Structural)]
pub enum Command {
    MotorStop,
    Beacon1,
    Beacon2,
    Beacon3,
    Beacon4,
    Beacon5,
    EscInfo,
    /// Forced normal direction.
    SpinDir1,
    /// Forced reversed direction.
    SpinDir2,
    _3dModeOff,
    _3dModeOn,
    SettingsRequest,
    SaveSettings,
    /// Normal with respect to the controller's configuration.
    SpinDirNormal,
    /// Reversed with respect to the controller's configuration.
    SpinDirReversed,
    Led0On,
    Led1On,
    Led2On,
    Led3On,
    Led0Off,
    Led1Off,
    Led2Off,
    Led3Off,
    AudioStreamModeOnOff,
    SilendModeOnOff,
    TelemetryEnable,
    TelemetryDisable,
    ContinuousErpmTelemetry,
    ContinuousErpmPeriodTelemetry,
    TemperatureTelemetry,
    VoltageTelemetry,
    CurrentTelemetry,
    ConsumptionTelemetry,
    ErpmTelemetry,
    ErpmPeriodTelemetry,
}

/// The data word of a command.
pub open spec fn command_code(c: Command) -> u16 {
    match c {
        Command::MotorStop => 0,
        Command::Beacon1 => 1,
        Command::Beacon2 => 2,
        Command::Beacon3 => 3,
        Command::Beacon4 => 4,
        Command::Beacon5 => 5,
        Command::EscInfo => 6,
        Command::SpinDir1 => 7,
        Command::SpinDir2 => 8,
        Command::_3dModeOff => 9,
        Command::_3dModeOn => 10,
        Command::SettingsRequest => 11,
        Command::SaveSettings => 12,
        Command::SpinDirNormal => 20,
        Command::SpinDirReversed => 21,
        Command::Led0On => 22,
        Command::Led1On => 23,
        Command::Led2On => 24,
        Command::Led3On => 25,
        Command::Led0Off => 26,
        Command::Led1Off => 27,
        Command::Led2Off => 28,
        Command::Led3Off => 29,
        Command::AudioStreamModeOnOff => 30,
        Command::SilendModeOnOff => 31,
        Command::TelemetryEnable => 32,
        Command::TelemetryDisable => 33,
        Command::ContinuousErpmTelemetry => 34,
        Command::ContinuousErpmPeriodTelemetry => 35,
        Command::TemperatureTelemetry => 42,
        Command::VoltageTelemetry => 43,
        Command::CurrentTelemetry => 44,
        Command::ConsumptionTelemetry => 45,
        Command::ErpmTelemetry => 46,
        Command::ErpmPeriodTelemetry => 47,
    }
}

impl Command {
    /// The data word that stands for this command on the wire.
    pub fn code(&self) -> (r: u16)
        ensures
            r == command_code(*self),
            r < THROTTLE_WORD_MIN,
    {
        match self {
            Command::MotorStop => 0,
            Command::Beacon1 => 1,
            Command::Beacon2 => 2,
            Command::Beacon3 => 3,
            Command::Beacon4 => 4,
            Command::Beacon5 => 5,
            Command::EscInfo => 6,
            Command::SpinDir1 => 7,
            Command::SpinDir2 => 8,
            Command::_3dModeOff => 9,
            Command::_3dModeOn => 10,
            Command::SettingsRequest => 11,
            Command::SaveSettings => 12,
            Command::SpinDirNormal => 20,
            Command::SpinDirReversed => 21,
            Command::Led0On => 22,
            Command::Led1On => 23,
            Command::Led2On => 24,
            Command::Led3On => 25,
            Command::Led0Off => 26,
            Command::Led1Off => 27,
            Command::Led2Off => 28,
            Command::Led3Off => 29,
            Command::AudioStreamModeOnOff => 30,
            Command::SilendModeOnOff => 31,
            Command::TelemetryEnable => 32,
            Command::TelemetryDisable => 33,
            Command::ContinuousErpmTelemetry => 34,
            Command::ContinuousErpmPeriodTelemetry => 35,
            Command::TemperatureTelemetry => 42,
            Command::VoltageTelemetry => 43,
            Command::CurrentTelemetry => 44,
            Command::ConsumptionTelemetry => 45,
            Command::ErpmTelemetry => 46,
            Command::ErpmPeriodTelemetry => 47,
        }
    }
}

/// What a frame carries: a command, or a power from 0 to 1.
#[derive(Clone, Copy, Debug, PartialEq, Eq, Structural)]
pub enum CmdType {
    Command(Command),
    Power(i64),
}

/// The throttle step of a power: 48 for no power, 2047 for full power, and
/// linear between them. Power outside 0 to 1 counts as the nearer end.
pub open spec fn throttle_word(power: int) -> u16 {
    (trunc_div(clamp_spec(power, 0, SCALE as int) * 1999, SCALE as int) + 48) as u16
}

/// The data word of a frame's content.
pub open spec fn data_word_spec(cmd: CmdType) -> u16 {
    match cmd {
        CmdType::Command(c) => command_code(c),
        CmdType::Power(p) => throttle_word(p as int),
    }
}

/// The checksum of the 12 bits before it: the exclusive or of their three
/// nibbles, inverted in bidirectional mode.
pub open spec fn crc_spec(packet: u16, inverted: bool) -> u16 {
    if inverted {
        (!(packet ^ (packet >> 4u16) ^ (packet >> 8u16))) & 0x0Fu16
    } else {
        (packet ^ (packet >> 4u16) ^ (packet >> 8u16)) & 0x0Fu16
    }
}

/// The 12 bits that the checksum covers: data word, then telemetry request.
pub open spec fn packet_spec(data_word: u16, telemetry: bool) -> u16 {
    (data_word << 1u16) | (if telemetry { 1u16 } else { 0u16 })
}

/// The whole 16-bit frame.
pub open spec fn frame_spec(data_word: u16, telemetry: bool, inverted: bool) -> u16 {
    (packet_spec(data_word, telemetry) << 4u16) | crc_spec(packet_spec(data_word, telemetry), inverted)
}

/// Whether the last four bits of a frame are the checksum of the twelve before.
pub open spec fn frame_valid(frame: u16, inverted: bool) -> bool {
    crc_spec(frame >> 4u16, inverted) == frame & 0x0Fu16
}

/// The data word that a frame carries.
pub open spec fn frame_data_word(frame: u16) -> u16 {
    frame >> 5u16
}

/// Whether a frame requests telemetry.
pub open spec fn frame_telemetry(frame: u16) -> bool {
    (frame >> 4u16) & 1u16 == 1u16
}

/// Checksum of a packet, for sending and for receiving.
pub fn calc_crc(packet: u16) -> (r: u16)
    ensures
        r == crc_spec(packet, BIDIR_EN),
        r <= 0x0F,
{
    let r: u16 = if BIDIR_EN {
        (!(packet ^ (packet >> 4u16) ^ (packet >> 8u16))) & 0x0Fu16
    } else {
        (packet ^ (packet >> 4u16) ^ (packet >> 8u16)) & 0x0Fu16
    };
    assert(r <= 0x0F) by (bit_vector)
        requires
            r == (!(packet ^ (packet >> 4u16) ^ (packet >> 8u16))) & 0x0Fu16 || r == (packet ^ (packet
                >> 4u16) ^ (packet >> 8u16)) & 0x0Fu16,
    ;
    r
}

/// The data word of a frame's content.
pub fn data_word(cmd: CmdType) -> (r: u16)
    ensures
        r == data_word_spec(cmd),
        cmd is Power ==> THROTTLE_WORD_MIN <= r <= THROTTLE_WORD_MAX,
        cmd is Command ==> r < THROTTLE_WORD_MIN,
{
    match cmd {
        CmdType::Command(c) => c.code(),
        CmdType::Power(pwr) => {
            let p = clamp(pwr, 0, SCALE);
            let steps = p * 1999 / SCALE;
            (steps + 48) as u16
        },
    }
}

/// Build a frame from a data word and the telemetry request bit.
pub fn encode_frame(data_word: u16, telemetry: bool) -> (r: u16)
    ensures
        r == frame_spec(data_word, telemetry, BIDIR_EN),
{
    let packet: u16 = (data_word << 1u16) | (if telemetry { 1u16 } else { 0u16 });
    (packet << 4u16) | calc_crc(packet)
}

/// Take a frame apart: its data word and telemetry request bit, or nothing if
/// the checksum does not fit.
pub fn decode_frame(frame: u16) -> (r: Option<(u16, bool)>)
    ensures
        frame_valid(frame, BIDIR_EN) ==> r == Some((frame_data_word(frame), frame_telemetry(frame))),
        !frame_valid(frame, BIDIR_EN) ==> r.is_none(),
{
    if calc_crc(frame >> 4u16) == frame & 0x0Fu16 {
        Some((frame >> 5u16, (frame >> 4u16) & 1u16 == 1u16))
    } else {
        None
    }
}

/// A frame that was built from an 11-bit data word and a telemetry bit is
/// valid and gives both back.
pub proof fn lemma_frame_round_trip(data_word: u16, telemetry: bool, inverted: bool)
    requires
        data_word <= THROTTLE_WORD_MAX,
    ensures
        frame_valid(frame_spec(data_word, telemetry, inverted), inverted),
        frame_data_word(frame_spec(data_word, telemetry, inverted)) == data_word,
        frame_telemetry(frame_spec(data_word, telemetry, inverted)) == telemetry,
{
    let t: u16 = if telemetry { 1 } else { 0 };
    assert(data_word <= 2047 && t <= 1 ==> {
        let p = (data_word << 1u16) | t;
        let fi = (p << 4u16) | ((!(p ^ (p >> 4u16) ^ (p >> 8u16))) & 0x0Fu16);
        let fn_ = (p << 4u16) | ((p ^ (p >> 4u16) ^ (p >> 8u16)) & 0x0Fu16);
        &&& fi >> 5u16 == data_word
        &&& fn_ >> 5u16 == data_word
        &&& (fi >> 4u16) & 1u16 == t
        &&& (fn_ >> 4u16) & 1u16 == t
        &&& ((!((fi >> 4u16) ^ ((fi >> 4u16) >> 4u16) ^ ((fi >> 4u16) >> 8u16))) & 0x0Fu16) == fi & 0x0Fu16
        &&& ((((fn_ >> 4u16) ^ ((fn_ >> 4u16) >> 4u16) ^ ((fn_ >> 4u16) >> 8u16))) & 0x0Fu16) == fn_ & 0x0Fu16
    }) by (bit_vector);
}

/// A valid frame in which any single bit is flipped is no longer valid.
pub proof fn lemma_single_bit_flip_detected(frame: u16, bit: u16, inverted: bool)
    requires
        frame_valid(frame, inverted),
        bit < 16,
    ensures
        !frame_valid(frame ^ (1u16 << bit), inverted),
{
    assert(bit < 16 && ((!((frame >> 4u16) ^ ((frame >> 4u16) >> 4u16) ^ ((frame >> 4u16) >> 8u16)))
        & 0x0Fu16) == frame & 0x0Fu16 ==> {
        let g = frame ^ (1u16 << bit);
        ((!((g >> 4u16) ^ ((g >> 4u16) >> 4u16) ^ ((g >> 4u16) >> 8u16))) & 0x0Fu16) != g & 0x0Fu16
    }) by (bit_vector);
    assert(bit < 16 && ((((frame >> 4u16) ^ ((frame >> 4u16) >> 4u16) ^ ((frame >> 4u16) >> 8u16)))
        & 0x0Fu16) == frame & 0x0Fu16 ==> {
        let g = frame ^ (1u16 << bit);
        ((((g >> 4u16) ^ ((g >> 4u16) >> 4u16) ^ ((g >> 4u16) >> 8u16))) & 0x0Fu16) != g & 0x0Fu16
    }) by (bit_vector);
}

/// Every power gives a throttle step, never a command or the disarm word;
/// no power gives the lowest step and full power the highest.
pub proof fn lemma_throttle_word_range(power: int)
    ensures
        THROTTLE_WORD_MIN <= throttle_word(power) <= THROTTLE_WORD_MAX,
        power <= 0 ==> throttle_word(power) == THROTTLE_WORD_MIN,
        power >= SCALE ==> throttle_word(power) == THROTTLE_WORD_MAX,
{
}

/// The frame of any power, with either telemetry bit, is valid and gives
/// back the throttle step of that power and the telemetry bit.
pub proof fn lemma_power_round_trip(power: i64, telemetry: bool, inverted: bool)
    ensures
        frame_valid(frame_spec(throttle_word(power as int), telemetry, inverted), inverted),
        frame_data_word(frame_spec(throttle_word(power as int), telemetry, inverted)) == throttle_word(
            power as int,
        ),
        frame_telemetry(frame_spec(throttle_word(power as int), telemetry, inverted)) == telemetry,
{
    lemma_throttle_word_range(power as int);
    lemma_frame_round_trip(throttle_word(power as int), telemetry, inverted);
}

/// More power never gives a lower throttle step.
pub proof fn lemma_throttle_word_monotonic(less: int, more: int)
    requires
        less <= more,
    ensures
        throttle_word(less) <= throttle_word(more),
{
}

/// The transmit buffer of one burst, and the telemetry request bit that the
/// frames written into it carry.
#[derive(Clone, Copy, Debug, PartialEq, Eq)]
pub struct DshotPayload {
    /// Duty values: slot `4 k + m` holds bit `k` (counted from the most
    /// significant) of the frame of motor channel `m`; the last 8 slots stay 0.
    pub buf: [u16; 72],
    /// Telemetry request bit; set only while speed controllers are configured.
    pub esc_telem: bool,
}

/// The duty value of bit `slot` of a frame, counted from the most significant.
pub open spec fn bit_duty(frame: u16, slot: int) -> u16 {
    if (frame >> ((15 - slot) as u16)) & 1u16 == 1u16 {
        DUTY_HIGH as u16
    } else {
        DUTY_LOW as u16
    }
}

/// The buffer `old` with the frame of one motor replaced.
pub open spec fn payload_with_frame(old: Seq<u16>, motor: Motor, frame: u16) -> Seq<u16> {
    Seq::new(
        PAYLOAD_LEN as nat,
        |j: int|
            if j < 64 && j % 4 == motor_offset(motor) {
                bit_duty(frame, j / 4)
            } else {
                old[j]
            },
    )
}

/// The buffer `old` with the frames of all four motors replaced.
pub open spec fn payload_with_frames(old: Seq<u16>, f1: u16, f2: u16, f3: u16, f4: u16) -> Seq<u16> {
    payload_with_frame(
        payload_with_frame(
            payload_with_frame(payload_with_frame(old, Motor::M1, f1), Motor::M2, f2),
            Motor::M3,
            f3,
        ),
        Motor::M4,
        f4,
    )
}

/// The frame that carries a power, with the given telemetry request bit.
pub open spec fn power_frame(power: i64, telemetry: bool) -> u16 {
    frame_spec(throttle_word(power as int), telemetry, BIDIR_EN)
}

/// The frame that carries a command, with the given telemetry request bit.
pub open spec fn command_frame(c: Command, telemetry: bool) -> u16 {
    frame_spec(command_code(c), telemetry, BIDIR_EN)
}

impl DshotPayload {
    /// An empty buffer that requests no telemetry.
    pub fn new() -> (r: Self)
        ensures
            r.buf@ == Seq::new(PAYLOAD_LEN as nat, |j: int| 0u16),
            !r.esc_telem,
    {
        let r = DshotPayload { buf: [0u16; 72], esc_telem: false };
        assert(r.buf@ =~= Seq::new(PAYLOAD_LEN as nat, |j: int| 0u16));
        r
    }
}

/// Write the frame for one motor into the transmit buffer: 16 duty values, one
/// per bit, most significant bit first, in every fourth slot from the motor's
/// own. The slots of the other motors and the idle slots at the end are left
/// as they are.
pub fn setup_payload(payload: &mut DshotPayload, rotor: Motor, cmd: CmdType)
    ensures
        final(payload).buf@ == payload_with_frame(
            old(payload).buf@,
            rotor,
            frame_spec(data_word_spec(cmd), old(payload).esc_telem, BIDIR_EN),
        ),
        final(payload).esc_telem == old(payload).esc_telem,
{
    let word = data_word(cmd);
    let packet = encode_frame(word, payload.esc_telem);
    let offset = rotor.offset();
    let mut i: u16 = 0;
    while i < 16
        invariant
            i <= 16,
            offset == motor_offset(rotor),
            payload.esc_telem == old(payload).esc_telem,
            forall|j: int|
                0 <= j < 72 ==> #[trigger] payload.buf@[j] == (if j < 64 && j % 4 == offset && j / 4 > 15
                    - i {
                    bit_duty(packet, j / 4)
                } else {
                    old(payload).buf@[j]
                }),
        decreases 16 - i,
    {
        let bit = (packet >> i) & 1u16;
        let val: u16 = if bit == 1 {
            DUTY_HIGH as u16
        } else {
            DUTY_LOW as u16
        };
        let idx: usize = (15 - i) as usize * NUM_MOTORS + offset;
        payload.buf[idx] = val;
        i += 1;
    }
    assert(payload.buf@ =~= payload_with_frame(old(payload).buf@, rotor, packet));
}

/// Write the frames that set the power of all four motors. Each power ranges
/// from 0 to 1.
pub fn set_power(payload: &mut DshotPayload, power1: i64, power2: i64, power3: i64, power4: i64)
    ensures
        final(payload).buf@ == payload_with_frames(
            old(payload).buf@,
            power_frame(power1, old(payload).esc_telem),
            power_frame(power2, old(payload).esc_telem),
            power_frame(power3, old(payload).esc_telem),
            power_frame(power4, old(payload).esc_telem),
        ),
        final(payload).esc_telem == old(payload).esc_telem,
{
    setup_payload(payload, Motor::M1, CmdType::Power(power1));
    setup_payload(payload, Motor::M2, CmdType::Power(power2));
    setup_payload(payload, Motor::M3, CmdType::Power(power3));
    setup_payload(payload, Motor::M4, CmdType::Power(power4));
}

/// Write the frame that sets the power of a single motor.
pub fn set_power_single(payload: &mut DshotPayload, rotor: Motor, power: i64)
    ensures
        final(payload).buf@ == payload_with_frame(
            old(payload).buf@,
            rotor,
            power_frame(power, old(payload).esc_telem),
        ),
        final(payload).esc_telem == old(payload).esc_telem,
{
    setup_payload(payload, rotor, CmdType::Power(power));
}

/// Write the frames that stop all motors: power 0 for each. The stop command
/// itself is not relied on; zero throttle is also what a speed controller
/// wants to see before it finishes its start-up.
pub fn stop_all(payload: &mut DshotPayload)
    ensures
        final(payload).buf@ == payload_with_frames(
            old(payload).buf@,
            power_frame(0, old(payload).esc_telem),
            power_frame(0, old(payload).esc_telem),
            power_frame(0, old(payload).esc_telem),
            power_frame(0, old(payload).esc_telem),
        ),
        final(payload).esc_telem == old(payload).esc_telem,
{
    set_power(payload, 0, 0, 0, 0);
}

/// The frames that stop the motors carry the lowest throttle step, not the
/// disarm word, and are valid.
pub proof fn lemma_stop_frame_is_lowest_throttle(telemetry: bool)
    ensures
        frame_data_word(power_frame(0, telemetry)) == THROTTLE_WORD_MIN,
        frame_valid(power_frame(0, telemetry), BIDIR_EN),
        frame_telemetry(power_frame(0, telemetry)) == telemetry,
{
    lemma_power_round_trip(0, telemetry, BIDIR_EN);
    lemma_throttle_word_range(0);
}

/// Number of bursts in the sequence that sets the motor directions.
pub open spec fn motor_dir_steps() -> int {
    STOP_REPEAT_COUNT + 2 * REPEAT_COMMAND_COUNT
}

/// The command that sets a motor's direction.
pub open spec fn spin_dir_command(reversed: bool) -> Command {
    if reversed {
        Command::SpinDir2
    } else {
        Command::SpinDir1
    }
}

/// What the buffer holds for burst `step` of the sequence that sets the motor
/// directions.
pub open spec fn motor_dir_payload(
    step: int,
    motors_reversed: (bool, bool, bool, bool),
    old: Seq<u16>,
) -> Seq<u16> {
    if step < STOP_REPEAT_COUNT {
        payload_with_frames(
            old,
            power_frame(0, false),
            power_frame(0, false),
            power_frame(0, false),
            power_frame(0, false),
        )
    } else if step < STOP_REPEAT_COUNT + REPEAT_COMMAND_COUNT {
        payload_with_frames(
            old,
            command_frame(spin_dir_command(motors_reversed.0), true),
            command_frame(spin_dir_command(motors_reversed.1), true),
            command_frame(spin_dir_command(motors_reversed.2), true),
            command_frame(spin_dir_command(motors_reversed.3), true),
        )
    } else if step < motor_dir_steps() {
        payload_with_frames(
            old,
            command_frame(Command::SaveSettings, true),
            command_frame(Command::SaveSettings, true),
            command_frame(Command::SaveSettings, true),
            command_frame(Command::SaveSettings, true),
        )
    } else {
        old
    }
}

/// Milliseconds to wait after burst `step` of the sequence that sets the motor
/// directions; nothing once the sequence is over.
pub open spec fn motor_dir_pause(step: int) -> Option<u32> {
    if step < STOP_REPEAT_COUNT - 1 {
        Some(PAUSE_BETWEEN_COMMANDS)
    } else if step == STOP_REPEAT_COUNT - 1 {
        Some((2 * PAUSE_BETWEEN_COMMANDS) as u32)
    } else if step < motor_dir_steps() - 1 {
        Some(PAUSE_BETWEEN_COMMANDS)
    } else if step == motor_dir_steps() - 1 {
        Some((PAUSE_BETWEEN_COMMANDS + PAUSE_AFTER_SAVE) as u32)
    } else {
        None
    }
}

/// One step of setting the direction of each motor. The sequence is: zero
/// throttle 30 times; then, with the telemetry bit set, the forced direction
/// command of each motor 10 times; then the command that saves the settings
/// 10 times. The caller counts `step` up from 0; each call prepares the burst
/// of that step and returns the pause to keep after sending it. When the
/// sequence is over the call clears the telemetry bit, leaves the buffer, and
/// returns nothing. The sequence is for the set-up phase, never for flight:
/// unless the aircraft is disarmed the call does nothing and returns nothing.
pub fn setup_motor_dir(
    step: u32,
    motors_reversed: (bool, bool, bool, bool),
    arm_status: ArmStatus,
    payload: &mut DshotPayload,
) -> (pause_ms: Option<u32>)
    ensures
        arm_status == ArmStatus::Disarmed ==> {
            &&& pause_ms == motor_dir_pause(step as int)
            &&& final(payload).buf@ == motor_dir_payload(step as int, motors_reversed, old(payload).buf@)
            &&& final(payload).esc_telem == (STOP_REPEAT_COUNT <= step < motor_dir_steps())
        },
        arm_status != ArmStatus::Disarmed ==> {
            &&& pause_ms.is_none()
            &&& final(payload).buf@ == old(payload).buf@
            &&& final(payload).esc_telem == old(payload).esc_telem
        },
{
    if arm_status != ArmStatus::Disarmed {
        return None;
    }
    if step < STOP_REPEAT_COUNT {
        payload.esc_telem = false;
        stop_all(payload);
        if step == STOP_REPEAT_COUNT - 1 {
            Some(2 * PAUSE_BETWEEN_COMMANDS)
        } else {
            Some(PAUSE_BETWEEN_COMMANDS)
        }
    } else if step < STOP_REPEAT_COUNT + REPEAT_COMMAND_COUNT {
        payload.esc_telem = true;
        let cmd_1 = if motors_reversed.0 {
            Command::SpinDir2
        } else {
            Command::SpinDir1
        };
        let cmd_2 = if motors_reversed.1 {
            Command::SpinDir2
        } else {
            Command::SpinDir1
        };
        let cmd_3 = if motors_reversed.2 {
            Command::SpinDir2
        } else {
            Command::SpinDir1
        };
        let cmd_4 = if motors_reversed.3 {
            Command::SpinDir2
        } else {
            Command::SpinDir1
        };
        setup_payload(payload, Motor::M1, CmdType::Command(cmd_1));
        setup_payload(payload, Motor::M2, CmdType::Command(cmd_2));
        setup_payload(payload, Motor::M3, CmdType::Command(cmd_3));
        setup_payload(payload, Motor::M4, CmdType::Command(cmd_4));
        Some(PAUSE_BETWEEN_COMMANDS)
    } else if step < STOP_REPEAT_COUNT + 2 * REPEAT_COMMAND_COUNT {
        payload.esc_telem = true;
        setup_payload(payload, Motor::M1, CmdType::Command(Command::SaveSettings));
        setup_payload(payload, Motor::M2, CmdType::Command(Command::SaveSettings));
        setup_payload(payload, Motor::M3, CmdType::Command(Command::SaveSettings));
        setup_payload(payload, Motor::M4, CmdType::Command(Command::SaveSettings));
        if step == STOP_REPEAT_COUNT + 2 * REPEAT_COMMAND_COUNT - 1 {
            Some(PAUSE_BETWEEN_COMMANDS + PAUSE_AFTER_SAVE)
        } else {
            Some(PAUSE_BETWEEN_COMMANDS)
        }
    } else {
        payload.esc_telem = false;
        None
    }
}

/// Writing the frame of one motor leaves the slots of every other motor, and
/// the idle slots, as they were.
pub proof fn lemma_frames_do_not_overlap(old: Seq<u16>, motor: Motor, frame: u16, j: int)
    requires
        old.len() == PAYLOAD_LEN,
        0 <= j < PAYLOAD_LEN,
        j >= 64 || j % 4 != motor_offset(motor),
    ensures
        payload_with_frame(old, motor, frame)[j] == old[j],
{
}

/// What a speed controller's answer holds.
#[derive(Clone, Copy, Debug, PartialEq, Eq, Structural)]
pub enum EscData {
    /// Rotor speed.
    Rpm(i64),
    /// One extended telemetry value with its kind.
    Telem(EscTelemType, u8),
}

/// The kinds of extended telemetry.
#[derive(Clone, Copy, Debug, PartialEq, Eq, Structural)]
pub enum EscTelemType {
    Temp,
    Voltage,
    Current,
    Debug1,
    Debug2,
    Debug3,
    State,
}

/// Why an answer could not be used.
#[derive(Clone, Copy, Debug, PartialEq, Eq, Structural)]
pub enum RpmError {
    /// A group of five bits that stands for no nibble.
    Gcr,
    /// The checksum does not fit.
    Crc,
    /// An extended telemetry kind that does not exist.
    TelemType,
}

/// The line samples as one number: sample `i` becomes bit `20 - i`.
pub open spec fn bits_value(arr: Seq<bool>) -> u32
    recommends
        arr.len() <= 21,
    decreases arr.len(),
{
    if arr.len() == 0 {
        0
    } else {
        bits_value(arr.drop_last()) | ((if arr.last() {
            1u32
        } else {
            0u32
        }) << ((20 - (arr.len() - 1)) as u32))
    }
}

/// Undo the edge coding of an answer: each bit becomes the exclusive or of
/// itself and its more significant neighbour.
pub open spec fn gcr_step_1_spec(val: u32) -> u32 {
    val ^ (val >> 1u32)
}

/// The nibble that a group of five bits stands for, if it stands for one.
pub open spec fn gcr_nibble(val: u16) -> Option<u16> {
    if val == 0x19 {
        Some(0u16)
    } else if val == 0x1b {
        Some(1u16)
    } else if val == 0x12 {
        Some(2u16)
    } else if val == 0x13 {
        Some(3u16)
    } else if val == 0x1d {
        Some(4u16)
    } else if val == 0x15 {
        Some(5u16)
    } else if val == 0x16 {
        Some(6u16)
    } else if val == 0x17 {
        Some(7u16)
    } else if val == 0x1a {
        Some(8u16)
    } else if val == 0x09 {
        Some(9u16)
    } else if val == 0x0a {
        Some(0xau16)
    } else if val == 0x0b {
        Some(0xbu16)
    } else if val == 0x1e {
        Some(0xcu16)
    } else if val == 0x0d {
        Some(0xdu16)
    } else if val == 0x0e {
        Some(0xeu16)
    } else if val == 0x0f {
        Some(0xfu16)
    } else {
        None
    }
}

/// Group `k` of five bits of a 20-bit word, counted from the least significant.
pub open spec fn gcr_group(val: u32, k: u32) -> u16 {
    ((val >> (5 * k) as u32) & 0b1_1111u32) as u16
}

/// The 16 bits that a 20-bit word stands for, if each of its four groups
/// stands for a nibble.
pub open spec fn gcr_decode(val: u32) -> Option<u16> {
    if gcr_nibble(gcr_group(val, 0)).is_some() && gcr_nibble(gcr_group(val, 1)).is_some()
        && gcr_nibble(gcr_group(val, 2)).is_some() && gcr_nibble(gcr_group(val, 3)).is_some() {
        Some(
            gcr_nibble(gcr_group(val, 0)).unwrap() | (gcr_nibble(gcr_group(val, 1)).unwrap() << 4u16)
                | (gcr_nibble(gcr_group(val, 2)).unwrap() << 8u16) | (gcr_nibble(
                gcr_group(val, 3),
            ).unwrap() << 12u16),
        )
    } else {
        None
    }
}

/// The kind of extended telemetry that a type code names.
pub open spec fn telem_type_spec(code: u16) -> Option<EscTelemType> {
    if code == 0x02 {
        Some(EscTelemType::Temp)
    } else if code == 0x04 {
        Some(EscTelemType::Voltage)
    } else if code == 0x06 {
        Some(EscTelemType::Current)
    } else if code == 0x08 {
        Some(EscTelemType::Debug1)
    } else if code == 0x0A {
        Some(EscTelemType::Debug2)
    } else if code == 0x0C {
        Some(EscTelemType::Debug3)
    } else if code == 0x0E {
        Some(EscTelemType::State)
    } else {
        None
    }
}

/// The rotor period in microseconds that a packet holds: a 9-bit base shifted
/// left by a 3-bit exponent.
pub open spec fn packet_period_us(packet: u16) -> u32 {
    (((packet >> 4u16) & 0b1_1111_1111u16) as u32) << ((packet >> 13u16) as u32)
}

/// The speed of a rotor whose period is `period_us`, for the pole count of
/// the motors. A period of zero, which no turning rotor has, gives zero.
pub open spec fn period_to_speed(period_us: u32) -> i64 {
    if period_us == 0 {
        0
    } else {
        ((SCALE * 1_000_000) / (period_us * NUM_POLES)) as i64
    }
}

/// What a 16-bit answer packet holds.
pub open spec fn rpm_from_data_spec(packet: u16) -> Result<EscData, RpmError> {
    if !frame_valid(packet, BIDIR_EN) {
        Err(RpmError::Crc)
    } else if (packet >> 8u16) & 1u16 == 0 {
        match telem_type_spec(packet >> 12u16) {
            Some(t) => Ok(EscData::Telem(t, ((packet >> 4u16) & 0xffu16) as u8)),
            None => Err(RpmError::TelemType),
        }
    } else {
        Ok(EscData::Rpm(period_to_speed(packet_period_us(packet))))
    }
}

/// What the line samples of one answer hold.
pub open spec fn answer_spec(samples: Seq<bool>) -> Result<EscData, RpmError> {
    match gcr_decode(gcr_step_1_spec(bits_value(samples))) {
        Some(packet) => rpm_from_data_spec(packet),
        None => Err(RpmError::Gcr),
    }
}

/// Interpret a 16-bit answer packet. The checksum is tested first; then the
/// packet is either one extended telemetry value or a rotor period, which is
/// returned as a speed.
pub fn rpm_from_data(packet: u16) -> (r: Result<EscData, RpmError>)
    ensures
        r == rpm_from_data_spec(packet),
{
    let crc = packet & 0b1111u16;
    if crc != calc_crc(packet >> 4u16) {
        return Err(RpmError::Crc);
    }
    if ((packet >> 8u16) & 1u16) == 0 {
        let telem_type_val = packet >> 12u16;
        let val = (packet >> 4u16) & 0xffu16;
        assert(val <= 0xff) by (bit_vector)
            requires
                val == (packet >> 4u16) & 0xffu16,
        ;
        let telem_type = if telem_type_val == 0x02 {
            EscTelemType::Temp
        } else if telem_type_val == 0x04 {
            EscTelemType::Voltage
        } else if telem_type_val == 0x06 {
            EscTelemType::Current
        } else if telem_type_val == 0x08 {
            EscTelemType::Debug1
        } else if telem_type_val == 0x0A {
            EscTelemType::Debug2
        } else if telem_type_val == 0x0C {
            EscTelemType::Debug3
        } else if telem_type_val == 0x0E {
            EscTelemType::State
        } else {
            return Err(RpmError::TelemType);
        };
        Ok(EscData::Telem(telem_type, val as u8))
    } else {
        let shift: u32 = (packet >> 13u16) as u32;
        let base: u32 = ((packet >> 4u16) & 0b1_1111_1111u16) as u32;
        assert(shift <= 7 && base <= 511) by (bit_vector)
            requires
                shift == (packet >> 13u16) as u32,
                base == ((packet >> 4u16) & 0b1_1111_1111u16) as u32,
        ;
        let period_us: u32 = base << shift;
        assert(period_us <= 65408) by (bit_vector)
            requires
                shift <= 7,
                base <= 511,
                period_us == base << shift,
        ;
        if period_us == 0 {
            Ok(EscData::Rpm(0))
        } else {
            Ok(EscData::Rpm((SCALE * 1_000_000) / (period_us as i64 * NUM_POLES)))
        }
    }
}

/// Gather the line samples of one answer into a number, first sample highest.
pub fn bool_array_to_u32(arr: &[bool]) -> (result: u32)
    requires
        arr@.len() <= 21,
    ensures
        result == bits_value(arr@),
{
    let mut result: u32 = 0;
    let mut i: usize = 0;
    while i < arr.len()
        invariant
            i <= arr@.len() <= 21,
            result == bits_value(arr@.take(i as int)),
        decreases arr@.len() - i,
    {
        let v: u32 = if arr[i] {
            1
        } else {
            0
        };
        proof {
            assert(arr@.take(i + 1).drop_last() =~= arr@.take(i as int));
        }
        result = result | (v << ((20 - i) as u32));
        i += 1;
    }
    proof {
        assert(arr@.take(i as int) =~= arr@);
    }
    result
}

/// Turn one group of five bits into the nibble it stands for.
pub fn reduce_bit_count_helper(val: u16) -> (r: Result<u16, RpmError>)
    ensures
        r == (match gcr_nibble(val) {
            Some(n) => Ok::<u16, RpmError>(n),
            None => Err(RpmError::Gcr),
        }),
        r matches Ok(n) ==> n <= 0xf,
{
    let result: u16 = if val == 0x19 {
        0
    } else if val == 0x1b {
        1
    } else if val == 0x12 {
        2
    } else if val == 0x13 {
        3
    } else if val == 0x1d {
        4
    } else if val == 0x15 {
        5
    } else if val == 0x16 {
        6
    } else if val == 0x17 {
        7
    } else if val == 0x1a {
        8
    } else if val == 0x09 {
        9
    } else if val == 0x0a {
        0xa
    } else if val == 0x0b {
        0xb
    } else if val == 0x1e {
        0xc
    } else if val == 0x0d {
        0xd
    } else if val == 0x0e {
        0xe
    } else if val == 0x0f {
        0xf
    } else {
        return Err(RpmError::Gcr);
    };
    Ok(result)
}

/// Turn the 20 bits of an answer into the 16 bits they stand for. A group of
/// five bits that stands for no nibble makes the whole answer unusable.
pub fn reduce_gcr_bit_count(val: u32) -> (r: Result<u16, RpmError>)
    ensures
        r == (match gcr_decode(val) {
            Some(packet) => Ok::<u16, RpmError>(packet),
            None => Err(RpmError::Gcr),
        }),
{
    let nibble_0 = (val & 0b1_1111u32) as u16;
    let nibble_1 = ((val >> 5u32) & 0b1_1111u32) as u16;
    let nibble_2 = ((val >> 10u32) & 0b1_1111u32) as u16;
    let nibble_3 = ((val >> 15u32) & 0b1_1111u32) as u16;
    assert(val >> 0u32 == val) by (bit_vector);
    assert(nibble_0 == gcr_group(val, 0));
    assert(nibble_1 == gcr_group(val, 1));
    assert(nibble_2 == gcr_group(val, 2));
    assert(nibble_3 == gcr_group(val, 3));
    let n0 = match reduce_bit_count_helper(nibble_0) {
        Ok(n) => n,
        Err(e) => { return Err(e); },
    };
    let n1 = match reduce_bit_count_helper(nibble_1) {
        Ok(n) => n,
        Err(e) => { return Err(e); },
    };
    let n2 = match reduce_bit_count_helper(nibble_2) {
        Ok(n) => n,
        Err(e) => { return Err(e); },
    };
    let n3 = match reduce_bit_count_helper(nibble_3) {
        Ok(n) => n,
        Err(e) => { return Err(e); },
    };
    Ok(n0 | (n1 << 4u16) | (n2 << 8u16) | (n3 << 12u16))
}

/// Undo the edge coding of an answer.
pub fn gcr_step_1(val: u32) -> (r: u32)
    ensures
        r == gcr_step_1_spec(val),
{
    val ^ (val >> 1u32)
}

/// Store the speed that a decoded packet holds. A packet that could not be
/// decoded, or that fails its own checks, is handed back as the error and the
/// stored speed stays; so it does for extended telemetry.
pub fn update_rpm_from_packet(rpm: &mut i64, packet: Result<u16, RpmError>, fault: &mut bool) -> (r:
    Result<(), RpmError>)
    ensures
        *final(fault) == *old(fault),
        r == (match packet {
            Ok(p) => match rpm_from_data_spec(p) {
                Ok(_) => Ok::<(), RpmError>(()),
                Err(e) => Err(e),
            },
            Err(e) => Err(e),
        }),
        *final(rpm) == (match packet {
            Ok(p) => match rpm_from_data_spec(p) {
                Ok(EscData::Rpm(v)) => v,
                _ => *old(rpm),
            },
            Err(_) => *old(rpm),
        }),
{
    match packet {
        Ok(packet) => {
            match rpm_from_data(packet) {
                Ok(r) => {
                    match r {
                        EscData::Rpm(rpm_) => {
                            *rpm = rpm_;
                        },
                        EscData::Telem(_, _) => {},
                    }
                },
                Err(e) => {
                    return Err(e);
                },
            }
        },
        Err(e) => {
            return Err(e);
        },
    }
    Ok(())
}

/// The speed to store for a rotor after an answer with these line samples.
pub open spec fn rpm_after(old: i64, samples: Seq<bool>) -> i64 {
    match answer_spec(samples) {
        Ok(EscData::Rpm(v)) => v,
        _ => old,
    }
}

/// Decode the answers of the four speed controllers and store the speeds.
/// The answer on the first channel belongs to the aft right rotor, the second
/// to the front right, the third to the aft left, the fourth to the front
/// left. An answer that cannot be decoded leaves that rotor's speed as it was
/// and raises `fault`; the other rotors are not affected.
pub fn update_rpms(
    rpms: &mut MotorRpm,
    fault: &mut bool,
    rec_1: &[bool; 20],
    rec_2: &[bool; 20],
    rec_3: &[bool; 20],
    rec_4: &[bool; 20],
)
    ensures
        final(rpms).aft_right == rpm_after(old(rpms).aft_right, rec_1@),
        final(rpms).front_right == rpm_after(old(rpms).front_right, rec_2@),
        final(rpms).aft_left == rpm_after(old(rpms).aft_left, rec_3@),
        final(rpms).front_left == rpm_after(old(rpms).front_left, rec_4@),
        *final(fault) == (*old(fault) || answer_spec(rec_1@).is_err() || answer_spec(rec_2@).is_err()
            || answer_spec(rec_3@).is_err() || answer_spec(rec_4@).is_err()),
{
    let gcr1 = gcr_step_1(bool_array_to_u32(rec_1.as_slice()));
    let gcr2 = gcr_step_1(bool_array_to_u32(rec_2.as_slice()));
    let gcr3 = gcr_step_1(bool_array_to_u32(rec_3.as_slice()));
    let gcr4 = gcr_step_1(bool_array_to_u32(rec_4.as_slice()));
    let packet1 = reduce_gcr_bit_count(gcr1);
    let packet2 = reduce_gcr_bit_count(gcr2);
    let packet3 = reduce_gcr_bit_count(gcr3);
    let packet4 = reduce_gcr_bit_count(gcr4);
    let mut aft_right = rpms.aft_right;
    let mut front_right = rpms.front_right;
    let mut aft_left = rpms.aft_left;
    let mut front_left = rpms.front_left;
    if update_rpm_from_packet(&mut aft_right, packet1, fault).is_err() {
        *fault = true;
    }
    if update_rpm_from_packet(&mut front_right, packet2, fault).is_err() {
        *fault = true;
    }
    if update_rpm_from_packet(&mut aft_left, packet3, fault).is_err() {
        *fault = true;
    }
    if update_rpm_from_packet(&mut front_left, packet4, fault).is_err() {
        *fault = true;
    }
    rpms.aft_right = aft_right;
    rpms.front_right = front_right;
    rpms.aft_left = aft_left;
    rpms.front_left = front_left;
}

/// Two different groups of five bits never stand for the same nibble, and
/// every nibble is below 16.
pub proof fn lemma_gcr_nibbles_distinct(a: u16, b: u16)
    requires
        gcr_nibble(a).is_some(),
        gcr_nibble(a) == gcr_nibble(b),
    ensures
        a == b,
        gcr_nibble(a).unwrap() < 16,
{
}

/// Which level of the timer's output counts as active.
#[derive(Clone, Copy, Debug, PartialEq, Eq, Structural)]
pub enum Polarity {
    ActiveHigh,
    ActiveLow,
}

/// Which way the timer counts.
#[derive(Clone, Copy, Debug, PartialEq, Eq, Structural)]
pub enum CountDir {
    Up,
    Down,
}

/// The polarity and count direction of the motor timer: active low and
/// counting down for bidirectional mode, in which the line idles high;
/// active high and counting up otherwise.
pub fn set_bidirectional(enabled: bool) -> (r: (Polarity, CountDir))
    ensures
        r == (if enabled {
            (Polarity::ActiveLow, CountDir::Down)
        } else {
            (Polarity::ActiveHigh, CountDir::Up)
        }),
{
    if enabled {
        (Polarity::ActiveLow, CountDir::Down)
    } else {
        (Polarity::ActiveHigh, CountDir::Up)
    }
}

/// Where one transmission cycle of the motor bus stands.
#[derive(Clone, Copy, Debug, PartialEq, Eq, Structural)]
pub enum DshotPhase {
    /// Nothing in progress.
    Idle,
    /// The frames are being written into the transmit buffer.
    Encoding,
    /// The burst is on its way to the timer.
    Transmitting,
    /// The line is an input and the answers are being sampled.
    Receiving,
}

/// What happens to a transmission cycle.
#[derive(Clone, Copy, Debug, PartialEq, Eq, Structural)]
pub enum DshotEvent {
    /// New frames are to be sent.
    TransmitRequested,
    /// The frames stand in the transmit buffer.
    Encoded,
    /// The burst has been transferred.
    TransferComplete,
    /// All samples of the answers have been taken.
    ReceiveComplete,
}

/// What to do with the bus after an event.
#[derive(Clone, Copy, Debug, PartialEq, Eq, Structural)]
pub enum DshotAction {
    /// Nothing.
    Nothing,
    /// Write the frames into the transmit buffer.
    Encode,
    /// Make the line an output and start the burst.
    StartBurst,
    /// Make the line an input and start sampling the answers.
    StartReceive,
    /// Stop sampling, throw away what was sampled, and write the new frames
    /// into the transmit buffer.
    AbortReceiveAndEncode,
    /// Make the line an output again and decode the answers.
    FinishReceive,
}

/// The phase after an event, and what to do.
pub open spec fn dshot_cycle_spec(phase: DshotPhase, event: DshotEvent, bidirectional: bool) -> (
    DshotPhase,
    DshotAction,
) {
    match (phase, event) {
        (DshotPhase::Idle, DshotEvent::TransmitRequested) => (DshotPhase::Encoding, DshotAction::Encode),
        (DshotPhase::Encoding, DshotEvent::TransmitRequested) => (DshotPhase::Encoding, DshotAction::Encode),
        (DshotPhase::Transmitting, DshotEvent::TransmitRequested) => (
            DshotPhase::Encoding,
            DshotAction::Encode,
        ),
        (DshotPhase::Receiving, DshotEvent::TransmitRequested) => (
            DshotPhase::Encoding,
            DshotAction::AbortReceiveAndEncode,
        ),
        (DshotPhase::Encoding, DshotEvent::Encoded) => (DshotPhase::Transmitting, DshotAction::StartBurst),
        (DshotPhase::Transmitting, DshotEvent::TransferComplete) => if bidirectional {
            (DshotPhase::Receiving, DshotAction::StartReceive)
        } else {
            (DshotPhase::Idle, DshotAction::Nothing)
        },
        (DshotPhase::Receiving, DshotEvent::ReceiveComplete) => (
            DshotPhase::Idle,
            DshotAction::FinishReceive,
        ),
        _ => (phase, DshotAction::Nothing),
    }
}

/// One step of a transmission cycle: idle, encoding, transmitting, and, in
/// bidirectional mode, receiving, then idle again. A request to transmit is
/// never held up: it starts a new cycle from any phase, and during reception
/// it aborts the reception. An event that does not belong to the phase
/// changes nothing.
pub fn dshot_cycle(phase: DshotPhase, event: DshotEvent, bidirectional: bool) -> (r: (
    DshotPhase,
    DshotAction,
))
    ensures
        r == dshot_cycle_spec(phase, event, bidirectional),
{
    match event {
        DshotEvent::TransmitRequested => match phase {
            DshotPhase::Receiving => (DshotPhase::Encoding, DshotAction::AbortReceiveAndEncode),
            _ => (DshotPhase::Encoding, DshotAction::Encode),
        },
        DshotEvent::Encoded => match phase {
            DshotPhase::Encoding => (DshotPhase::Transmitting, DshotAction::StartBurst),
            _ => (phase, DshotAction::Nothing),
        },
        DshotEvent::TransferComplete => match phase {
            DshotPhase::Transmitting => {
                if bidirectional {
                    (DshotPhase::Receiving, DshotAction::StartReceive)
                } else {
                    (DshotPhase::Idle, DshotAction::Nothing)
                }
            },
            _ => (phase, DshotAction::Nothing),
        },
        DshotEvent::ReceiveComplete => match phase {
            DshotPhase::Receiving => (DshotPhase::Idle, DshotAction::FinishReceive),
            _ => (phase, DshotAction::Nothing),
        },
    }
}

/// The phase after a run of events.
pub open spec fn dshot_cycle_run(phase: DshotPhase, events: Seq<DshotEvent>, bidirectional: bool) -> DshotPhase
    decreases events.len(),
{
    if events.len() == 0 {
        phase
    } else {
        dshot_cycle_spec(dshot_cycle_run(phase, events.drop_last(), bidirectional), events.last(), bidirectional).0
    }
}

/// A request to transmit leads to encoding from every phase.
pub proof fn lemma_transmit_is_never_held_up(phase: DshotPhase, bidirectional: bool)
    ensures
        dshot_cycle_spec(phase, DshotEvent::TransmitRequested, bidirectional).0 == DshotPhase::Encoding,
        dshot_cycle_spec(phase, DshotEvent::TransmitRequested, bidirectional).1 != DshotAction::Nothing,
{
}

/// Outside bidirectional mode the bus never receives, whatever happens.
pub proof fn lemma_unidirectional_never_receives(phase: DshotPhase, events: Seq<DshotEvent>)
    requires
        phase != DshotPhase::Receiving,
    ensures
        dshot_cycle_run(phase, events, false) != DshotPhase::Receiving,
    decreases events.len(),
{
    if events.len() > 0 {
        lemma_unidirectional_never_receives(phase, events.drop_last());
    }
}

/// A whole cycle in bidirectional mode ends idle, and so does one outside it.
pub proof fn lemma_cycle_returns_to_idle(bidirectional: bool)
    ensures
        dshot_cycle_run(
            DshotPhase::Idle,
            seq![
                DshotEvent::TransmitRequested,
                DshotEvent::Encoded,
                DshotEvent::TransferComplete,
                DshotEvent::ReceiveComplete,
            ],
            bidirectional,
        ) == DshotPhase::Idle,
{
    let e0 = Seq::<DshotEvent>::empty();
    let e1 = seq![DshotEvent::TransmitRequested];
    let e2 = seq![DshotEvent::TransmitRequested, DshotEvent::Encoded];
    let e3 = seq![DshotEvent::TransmitRequested, DshotEvent::Encoded, DshotEvent::TransferComplete];
    let e4 = seq![
        DshotEvent::TransmitRequested,
        DshotEvent::Encoded,
        DshotEvent::TransferComplete,
        DshotEvent::ReceiveComplete,
    ];
    assert(e1.drop_last() =~= e0);
    assert(e2.drop_last() =~= e1);
    assert(e3.drop_last() =~= e2);
    assert(e4.drop_last() =~= e3);
    assert(dshot_cycle_run(DshotPhase::Idle, e0, bidirectional) == DshotPhase::Idle);
    assert(dshot_cycle_run(DshotPhase::Idle, e1, bidirectional) == DshotPhase::Encoding);
    assert(dshot_cycle_run(DshotPhase::Idle, e2, bidirectional) == DshotPhase::Transmitting);
    assert(dshot_cycle_run(DshotPhase::Idle, e3, bidirectional) == (if bidirectional {
        DshotPhase::Receiving
    } else {
        DshotPhase::Idle
    }));
}

} // verus!
