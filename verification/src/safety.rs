//! Arming, the take-off attitude lock, and what to do when the radio link is lost.

use vstd::prelude::*;
use crate::fixed::{add_spec, fx_add};
use crate::fixed::{abs, abs_spec, max};
use crate::flight_ctrls::common::{AltType, Location, Params, RatesCommanded, SensorStatus, SystemStatus, LOST_LINK_TIMEOUT};
use crate::autopilot::AutopilotStatus;
use crate::control_interface::ChannelData;
use crate::pid::{integrators_reset, PidGroup};

verus! {

/// The arm switch must say the same for this many cycles in a row before the
/// arm status follows it.
pub const NUM_ARM_DISARM_SIGNALS_REQUIRED: u8 = 5;

/// The throttle must be below this to arm.
pub const THROTTLE_MAX_TO_ARM: i64 = 5_000_000;

/// Radians from level within which the aircraft may arm.
pub const ARM_LEVEL_THRESH: i64 = 100_000_000;

/// Altitude to climb to when the link is lost, metres.
pub const LOST_LINK_RTB_ALT: i64 = 100_000_000_000;

/// Throttle from which the aircraft may be taking off.
pub const TAKEOFF_POWER_THRESH: i64 = 200_000_000;

/// Throttle up to which the aircraft may be sitting on the ground.
pub const IDLE_POWER_THRESH: i64 = 70_000_000;

/// Seconds of take-off throttle after which the aircraft counts as airborne.
pub const TAKEOFF_POWER_TIME: i64 = 1_000_000_000;

/// Seconds of idle throttle after which the aircraft counts as landed.
pub const IDLE_POWER_TIME: i64 = 5_000_000_000;

/// Radians from upright within which the aircraft may be sitting on the ground.
pub const UPRIGHT_THRESH: i64 = 170_000_000;

/// Radio packets that arrive faster than this, per second, are dropped.
pub const MAX_RF_UPDATE_RATE: i64 = 700_000_000_000;

/// The master arm status. While it is `Disarmed` no motor turns. A fixed wing
/// has a state between, in which the control surfaces move and the motor does
/// not; a multirotor is either `Disarmed` or `Armed`.
#[derive(Clone, Copy, Debug, PartialEq, Eq, Structural)]
pub enum ArmStatus {
    /// Motors and control surfaces are disarmed.
    Disarmed,
    /// Control surfaces are armed, motors are not.
    ControlsArmed,
    /// Motors are armed, and control surfaces where there are any.
    Armed,
}

impl Default for ArmStatus {
    fn default() -> (r: Self)
        ensures
            r == ArmStatus::Disarmed,
    {
        ArmStatus::Disarmed
    }
}

/// The two latches of the arming logic.
#[derive(Clone, Copy, Debug, PartialEq, Eq, Structural)]
pub struct ArmLatches {
    /// Set once the arm switch was seen off with the throttle at idle, and
    /// never cleared: the aircraft cannot start up armed.
    pub received_initial_disarm: bool,
    /// Set when arming was commanded with the throttle not at idle; blocks
    /// arming until the arm switch was seen off again.
    pub arm_commanded_without_idle: bool,
}

impl Default for ArmLatches {
    fn default() -> (r: Self)
        ensures
            r == (ArmLatches { received_initial_disarm: false, arm_commanded_without_idle: false }),
    {
        ArmLatches { received_initial_disarm: false, arm_commanded_without_idle: false }
    }
}

/// What to do with the servo outputs of a fixed wing after a cycle.
#[derive(Clone, Copy, Debug, PartialEq, Eq, Structural)]
pub enum ServoAction {
    /// Drive the servos.
    Enable,
    /// Hold the servo lines so that no pulse reaches the servos.
    Disable,
}

/// Everything the arming logic reads and writes.
#[derive(Clone, Copy, Debug, PartialEq, Eq, Structural)]
pub struct ArmState {
    pub status: ArmStatus,
    pub arm_signals: u8,
    pub disarm_signals: u8,
    pub latches: ArmLatches,
    pub has_taken_off: bool,
}

/// A signal count one higher, where a `u8` can hold it.
pub open spec fn bumped(c: u8) -> u8 {
    if c < u8::MAX {
        (c + 1) as u8
    } else {
        c
    }
}

/// The arming logic after one cycle in which the arm switch says `signal` and
/// the throttle stands at `throttle`.
pub open spec fn arm_step(s: ArmState, signal: ArmStatus, throttle: i64) -> ArmState {
    match s.status {
        ArmStatus::Armed => {
            let d = if signal != ArmStatus::Armed {
                bumped(s.disarm_signals)
            } else {
                0u8
            };
            if d >= NUM_ARM_DISARM_SIGNALS_REQUIRED {
                ArmState { status: signal, disarm_signals: 0, has_taken_off: false, ..s }
            } else {
                ArmState { disarm_signals: d, ..s }
            }
        },
        ArmStatus::Disarmed => {
            let a = if signal == ArmStatus::Armed {
                bumped(s.arm_signals)
            } else {
                0u8
            };
            let idle = throttle < THROTTLE_MAX_TO_ARM;
            let latches = if signal == ArmStatus::Armed {
                s.latches
            } else {
                ArmLatches {
                    received_initial_disarm: s.latches.received_initial_disarm || idle,
                    arm_commanded_without_idle: false,
                }
            };
            if a >= NUM_ARM_DISARM_SIGNALS_REQUIRED {
                if latches.arm_commanded_without_idle {
                    ArmState { arm_signals: 0, latches, ..s }
                } else if !idle {
                    ArmState {
                        arm_signals: 0,
                        latches: ArmLatches { arm_commanded_without_idle: true, ..latches },
                        ..s
                    }
                } else if latches.received_initial_disarm {
                    ArmState { status: ArmStatus::Armed, arm_signals: 0, latches, ..s }
                } else {
                    ArmState { arm_signals: 0, latches, ..s }
                }
            } else {
                ArmState { arm_signals: a, latches, ..s }
            }
        },
        ArmStatus::ControlsArmed => s,
    }
}

/// What to do with the servo outputs while the arm status is `status`.
pub open spec fn servo_action(status: ArmStatus) -> ServoAction {
    match status {
        ArmStatus::Disarmed => ServoAction::Disable,
        _ => ServoAction::Enable,
    }
}

/// The arming logic after a run of cycles, each with what the arm switch said
/// and where the throttle stood.
pub open spec fn arm_run(s: ArmState, signals: Seq<(ArmStatus, i64)>) -> ArmState
    decreases signals.len(),
{
    if signals.len() == 0 {
        s
    } else {
        arm_step(arm_run(s, signals.drop_last()), signals.last().0, signals.last().1)
    }
}

/// Whether a cycle took the motors out of the armed state.
pub open spec fn leaves_armed(before: ArmStatus, after: ArmStatus) -> bool {
    before == ArmStatus::Armed && after != ArmStatus::Armed
}

/// One cycle of the arming logic.
///
/// Armed: the status follows the arm switch once the switch has said
/// something else than armed for `NUM_ARM_DISARM_SIGNALS_REQUIRED` cycles in
/// a row; the aircraft then counts as not having taken off, and the integral
/// terms of all three tiers are zeroed, so that nothing of one flight acts
/// on the next. Disarmed: the
/// aircraft arms on the cycle in which the switch has said armed for that
/// many cycles in a row, if the throttle is then below
/// `THROTTLE_MAX_TO_ARM`, the switch was seen off with the throttle at idle
/// at some time before, and arming is not blocked. Arming with the throttle
/// not at idle blocks arming until the switch was seen off again. Returns
/// what to do with the servos, by the status at the start of the cycle.
pub fn handle_arm_status(
    arm_signals_received: &mut u8,
    disarm_signals_received: &mut u8,
    latches: &mut ArmLatches,
    controller_arm_status: ArmStatus,
    arm_status: &mut ArmStatus,
    has_taken_off: &mut bool,
    throttle: i64,
    pid_rate: &mut PidGroup,
    pid_attitude: &mut PidGroup,
    pid_velocity: &mut PidGroup,
) -> (servos: ServoAction)
    ensures
        *final(pid_rate) == (if leaves_armed(*old(arm_status), *final(arm_status)) {
            integrators_reset(*old(pid_rate))
        } else {
            *old(pid_rate)
        }),
        *final(pid_attitude) == (if leaves_armed(*old(arm_status), *final(arm_status)) {
            integrators_reset(*old(pid_attitude))
        } else {
            *old(pid_attitude)
        }),
        *final(pid_velocity) == (if leaves_armed(*old(arm_status), *final(arm_status)) {
            integrators_reset(*old(pid_velocity))
        } else {
            *old(pid_velocity)
        }),
        (ArmState {
            status: *final(arm_status),
            arm_signals: *final(arm_signals_received),
            disarm_signals: *final(disarm_signals_received),
            latches: *final(latches),
            has_taken_off: *final(has_taken_off),
        }) == arm_step(
            ArmState {
                status: *old(arm_status),
                arm_signals: *old(arm_signals_received),
                disarm_signals: *old(disarm_signals_received),
                latches: *old(latches),
                has_taken_off: *old(has_taken_off),
            },
            controller_arm_status,
            throttle,
        ),
        servos == servo_action(*old(arm_status)),
{
    match *arm_status {
        ArmStatus::Armed => {
            if controller_arm_status != ArmStatus::Armed {
                if *disarm_signals_received < u8::MAX {
                    *disarm_signals_received += 1;
                }
            } else {
                *disarm_signals_received = 0;
            }
            if *disarm_signals_received >= NUM_ARM_DISARM_SIGNALS_REQUIRED {
                *disarm_signals_received = 0;
                *arm_status = controller_arm_status;
                pid_rate.reset_integrator();
                pid_attitude.reset_integrator();
                pid_velocity.reset_integrator();
                *has_taken_off = false;
            }
            ServoAction::Enable
        },
        ArmStatus::Disarmed => {
            let idle = throttle < THROTTLE_MAX_TO_ARM;
            if controller_arm_status == ArmStatus::Armed {
                if *arm_signals_received < u8::MAX {
                    *arm_signals_received += 1;
                }
            } else {
                if idle {
                    latches.received_initial_disarm = true;
                }
                latches.arm_commanded_without_idle = false;
                *arm_signals_received = 0;
            }
            if *arm_signals_received >= NUM_ARM_DISARM_SIGNALS_REQUIRED {
                *arm_signals_received = 0;
                if !latches.arm_commanded_without_idle {
                    if idle {
                        if latches.received_initial_disarm {
                            *arm_status = ArmStatus::Armed;
                        }
                    } else {
                        latches.arm_commanded_without_idle = true;
                    }
                }
            }
            ServoAction::Disable
        },
        ArmStatus::ControlsArmed => ServoAction::Enable,
    }
}

/// While disarmed, as long as fewer arm signals than required have come in a
/// row, the aircraft stays disarmed and only the count of them changes.
pub proof fn lemma_arm_signals_are_counted(s: ArmState, signals: Seq<(ArmStatus, i64)>)
    requires
        s.status == ArmStatus::Disarmed,
        s.arm_signals == 0,
        signals.len() < NUM_ARM_DISARM_SIGNALS_REQUIRED,
        forall|i: int| 0 <= i < signals.len() ==> (#[trigger] signals[i]).0 == ArmStatus::Armed,
    ensures
        arm_run(s, signals) == (ArmState { arm_signals: signals.len() as u8, ..s }),
    decreases signals.len(),
{
    if signals.len() > 0 {
        lemma_arm_signals_are_counted(s, signals.drop_last());
    }
}

/// Debounce: arm signals that stop one short of the required number, followed
/// by a signal that is not an arm signal, leave the aircraft disarmed at every
/// cycle, whatever the throttle and the latches.
pub proof fn lemma_arming_needs_all_signals(
    s: ArmState,
    signals: Seq<(ArmStatus, i64)>,
    other: ArmStatus,
    throttle: i64,
    k: int,
)
    requires
        s.status == ArmStatus::Disarmed,
        s.arm_signals == 0,
        signals.len() == NUM_ARM_DISARM_SIGNALS_REQUIRED - 1,
        forall|i: int| 0 <= i < signals.len() ==> (#[trigger] signals[i]).0 == ArmStatus::Armed,
        other != ArmStatus::Armed,
        0 <= k <= signals.len(),
    ensures
        arm_run(s, signals.take(k)).status == ArmStatus::Disarmed,
        arm_run(s, signals.push((other, throttle))).status == ArmStatus::Disarmed,
        arm_run(s, signals.push((other, throttle))).arm_signals == 0,
{
    lemma_arm_signals_are_counted(s, signals.take(k));
    lemma_arm_signals_are_counted(s, signals);
    assert(signals.push((other, throttle)).drop_last() =~= signals);
}

/// The aircraft arms on exactly the cycle of the last required arm signal,
/// not earlier: given that the switch was seen off with idle throttle before,
/// that arming is not blocked, and that the throttle is at idle on that cycle.
pub proof fn lemma_arms_on_last_required_signal(s: ArmState, signals: Seq<(ArmStatus, i64)>, k: int)
    requires
        s.status == ArmStatus::Disarmed,
        s.arm_signals == 0,
        s.latches.received_initial_disarm,
        !s.latches.arm_commanded_without_idle,
        signals.len() == NUM_ARM_DISARM_SIGNALS_REQUIRED,
        forall|i: int| 0 <= i < signals.len() ==> (#[trigger] signals[i]).0 == ArmStatus::Armed,
        signals.last().1 < THROTTLE_MAX_TO_ARM,
        0 <= k < signals.len(),
    ensures
        arm_run(s, signals.take(k)).status == ArmStatus::Disarmed,
        arm_run(s, signals).status == ArmStatus::Armed,
        arm_run(s, signals).arm_signals == 0,
{
    lemma_arm_signals_are_counted(s, signals.take(k));
    lemma_arm_signals_are_counted(s, signals.drop_last());
}

/// Arming with the throttle not at idle does not arm, and blocks arming until
/// the arm switch is seen off.
pub proof fn lemma_arming_without_idle_is_blocked(s: ArmState, signals: Seq<(ArmStatus, i64)>)
    requires
        s.status == ArmStatus::Disarmed,
        s.arm_signals == 0,
        !s.latches.arm_commanded_without_idle,
        signals.len() == NUM_ARM_DISARM_SIGNALS_REQUIRED,
        forall|i: int| 0 <= i < signals.len() ==> (#[trigger] signals[i]).0 == ArmStatus::Armed,
        signals.last().1 >= THROTTLE_MAX_TO_ARM,
    ensures
        arm_run(s, signals).status == ArmStatus::Disarmed,
        arm_run(s, signals).latches.arm_commanded_without_idle,
{
    lemma_arm_signals_are_counted(s, signals.drop_last());
}

/// While arming is blocked, no arm signal arms the aircraft.
pub proof fn lemma_blocked_stays_disarmed(s: ArmState, throttle: i64)
    requires
        s.status == ArmStatus::Disarmed,
        s.latches.arm_commanded_without_idle,
    ensures
        arm_step(s, ArmStatus::Armed, throttle).status == ArmStatus::Disarmed,
        arm_step(s, ArmStatus::Armed, throttle).latches.arm_commanded_without_idle,
{
}

/// What the take-off attitude lock keeps between cycles.
#[derive(Clone, Copy, Debug, PartialEq, Eq, Structural)]
pub struct TakeoffLock {
    /// Seconds for which the throttle has been at take-off power without a break.
    pub time_with_high_throttle: i64,
    /// Seconds for which the throttle has been at idle, and the aircraft
    /// upright, without a break.
    pub time_with_low_throttle: i64,
    pub has_taken_off: bool,
}

/// The take-off attitude lock after one cycle of `dt` seconds.
pub open spec fn takeoff_lock_step(
    lock: TakeoffLock,
    arm_status: ArmStatus,
    throttle: i64,
    angle_from_upright: i64,
    dt: i64,
) -> TakeoffLock {
    if arm_status == ArmStatus::Armed && throttle >= TAKEOFF_POWER_THRESH {
        if lock.time_with_high_throttle >= TAKEOFF_POWER_TIME {
            TakeoffLock { time_with_high_throttle: 0, time_with_low_throttle: 0, has_taken_off: true }
        } else {
            TakeoffLock {
                time_with_high_throttle: add_spec(lock.time_with_high_throttle as int, dt as int) as i64,
                time_with_low_throttle: 0,
                has_taken_off: lock.has_taken_off,
            }
        }
    } else if arm_status == ArmStatus::Armed && throttle <= IDLE_POWER_THRESH && angle_from_upright
        < UPRIGHT_THRESH {
        if lock.time_with_low_throttle >= IDLE_POWER_TIME {
            TakeoffLock { time_with_high_throttle: 0, time_with_low_throttle: 0, has_taken_off: false }
        } else {
            TakeoffLock {
                time_with_high_throttle: 0,
                time_with_low_throttle: add_spec(lock.time_with_low_throttle as int, dt as int) as i64,
                has_taken_off: lock.has_taken_off,
            }
        }
    } else {
        TakeoffLock { time_with_high_throttle: 0, time_with_low_throttle: 0, has_taken_off: lock.has_taken_off }
    }
}

/// One cycle of the take-off attitude lock.
///
/// While armed, throttle at or above `TAKEOFF_POWER_THRESH` that has lasted
/// `TAKEOFF_POWER_TIME` without a break releases the lock: the aircraft has
/// taken off. Throttle at or below `IDLE_POWER_THRESH` with the aircraft
/// within `UPRIGHT_THRESH` of upright that has lasted `IDLE_POWER_TIME`
/// without a break engages it again. Whenever a condition does not hold, its
/// time starts again from zero.
pub fn handle_takeoff_attitude_lock(
    arm_status: ArmStatus,
    throttle: i64,
    time_with_high_throttle: &mut i64,
    time_with_low_throttle: &mut i64,
    angle_from_upright: i64,
    has_taken_off: &mut bool,
    dt: i64,
)
    ensures
        (TakeoffLock {
            time_with_high_throttle: *final(time_with_high_throttle),
            time_with_low_throttle: *final(time_with_low_throttle),
            has_taken_off: *final(has_taken_off),
        }) == takeoff_lock_step(
            TakeoffLock {
                time_with_high_throttle: *old(time_with_high_throttle),
                time_with_low_throttle: *old(time_with_low_throttle),
                has_taken_off: *old(has_taken_off),
            },
            arm_status,
            throttle,
            angle_from_upright,
            dt,
        ),
{
    if arm_status == ArmStatus::Armed && throttle >= TAKEOFF_POWER_THRESH {
        *time_with_low_throttle = 0;
        if *time_with_high_throttle >= TAKEOFF_POWER_TIME {
            *has_taken_off = true;
            *time_with_high_throttle = 0;
            return ;
        }
        *time_with_high_throttle = fx_add(*time_with_high_throttle, dt);
    } else if arm_status == ArmStatus::Armed && throttle <= IDLE_POWER_THRESH && angle_from_upright
        < UPRIGHT_THRESH {
        *time_with_high_throttle = 0;
        if *time_with_low_throttle >= IDLE_POWER_TIME {
            *has_taken_off = false;
            *time_with_low_throttle = 0;
            return ;
        }
        *time_with_low_throttle = fx_add(*time_with_low_throttle, dt);
    } else {
        *time_with_high_throttle = 0;
        *time_with_low_throttle = 0;
    }
}

/// How far the aircraft is from upright: the larger of pitch and roll,
/// whichever way.
pub fn angle_from_upright(params: &Params) -> (r: i64)
    ensures
        r == (if abs_spec(params.s_pitch as int) > abs_spec(params.s_roll as int) {
            abs_spec(params.s_pitch as int)
        } else {
            abs_spec(params.s_roll as int)
        }),
{
    max(abs(params.s_pitch), abs(params.s_roll))
}

/// Whether the commanded attitude is held level: while the motors are armed
/// and the aircraft has not taken off.
pub open spec fn attitude_locked(arm_status: ArmStatus, has_taken_off: bool) -> bool {
    arm_status == ArmStatus::Armed && !has_taken_off
}

/// The take-off attitude lock: while the motors are armed and the aircraft
/// has not taken off, the commanded pitch and roll are level, whatever the
/// sticks and the autopilot say; otherwise the set points stay as they are.
pub fn lock_attitude(attitude: &mut RatesCommanded, arm_status: ArmStatus, has_taken_off: bool)
    ensures
        *final(attitude) == (if attitude_locked(arm_status, has_taken_off) {
            RatesCommanded { pitch: Some(0i64), roll: Some(0i64), ..*old(attitude) }
        } else {
            *old(attitude)
        }),
{
    if arm_status == ArmStatus::Armed && !has_taken_off {
        attitude.pitch = Some(0);
        attitude.roll = Some(0);
    }
}

/// The autopilot once the lost-link procedure has been applied to it: it
/// recovers to, and holds, the recovery altitude; with a position fix it
/// heads for the base, without one its point to head for stays as it was.
pub open spec fn link_lost_autopilot(
    system_status: SystemStatus,
    autopilot_status: AutopilotStatus,
    params: Params,
    base_pt: Location,
) -> AutopilotStatus {
    AutopilotStatus {
        recover: Some(LOST_LINK_RTB_ALT),
        alt_hold: Some((AltType::Msl, LOST_LINK_RTB_ALT)),
        direct_to_point: if system_status.gnss_can == SensorStatus::Pass {
            Some(base_pt)
        } else {
            autopilot_status.direct_to_point
        },
        ..autopilot_status
    }
}

/// The lost-link procedure: climb to `LOST_LINK_RTB_ALT` and hold it, and,
/// whenever there is a position fix, head for the base. Without a position
/// fix the aircraft only climbs.
pub fn excecute_link_lost(
    system_status: &SystemStatus,
    autopilot_status: &mut AutopilotStatus,
    params: &Params,
    base_pt: &Location,
)
    ensures
        *final(autopilot_status) == link_lost_autopilot(
            *system_status,
            *old(autopilot_status),
            *params,
            *base_pt,
        ),
{
    autopilot_status.recover = Some(LOST_LINK_RTB_ALT);
    autopilot_status.alt_hold = Some((AltType::Msl, LOST_LINK_RTB_ALT));
    if system_status.gnss_can == SensorStatus::Pass {
        autopilot_status.direct_to_point = Some(*base_pt);
    }
}

/// Whether the link is lost, and the autopilot as it was when that happened.
#[derive(Clone, Copy, Debug, PartialEq, Eq)]
pub struct LinkState {
    /// Seconds since the last valid packet.
    pub time_since_packet: i64,
    pub link_lost: bool,
    /// What to put the autopilot back to once the link is there again.
    pub resume: AutopilotStatus,
}

impl LinkState {
    /// A link that is there.
    pub fn new() -> (r: Self)
        ensures
            r.time_since_packet == 0,
            !r.link_lost,
            r.resume == AutopilotStatus::idle(),
    {
        LinkState { time_since_packet: 0, link_lost: false, resume: AutopilotStatus::new() }
    }
}

/// Count the time without a packet: `dt` more seconds have passed. Returns
/// whether the link timer has run out, that is, whether no packet has
/// arrived for `LOST_LINK_TIMEOUT`.
pub fn link_time_passed(link: &mut LinkState, dt: i64) -> (expired: bool)
    ensures
        final(link).time_since_packet == add_spec(old(link).time_since_packet as int, dt as int),
        final(link).link_lost == old(link).link_lost,
        final(link).resume == old(link).resume,
        expired == (final(link).time_since_packet >= LOST_LINK_TIMEOUT),
{
    link.time_since_packet = fx_add(link.time_since_packet, dt);
    link.time_since_packet >= LOST_LINK_TIMEOUT
}

/// The link timer has run out: no packet has arrived for
/// `LOST_LINK_TIMEOUT`. The first time, the autopilot is put aside as it
/// is, to be resumed. Then, and each further time while no packet arrives,
/// the lost-link procedure is applied. The arm status is not touched: the
/// motors stay armed.
pub fn link_timer_expired(
    link: &mut LinkState,
    system_status: &SystemStatus,
    autopilot_status: &mut AutopilotStatus,
    params: &Params,
    base_pt: &Location,
)
    ensures
        final(link).link_lost,
        final(link).time_since_packet == old(link).time_since_packet,
        final(link).resume == (if old(link).link_lost {
            old(link).resume
        } else {
            *old(autopilot_status)
        }),
        *final(autopilot_status) == link_lost_autopilot(
            *system_status,
            *old(autopilot_status),
            *params,
            *base_pt,
        ),
{
    if !link.link_lost {
        link.resume = *autopilot_status;
        link.link_lost = true;
    }
    excecute_link_lost(system_status, autopilot_status, params, base_pt);
}

/// A valid packet has arrived: the link timer starts again. If the link was
/// lost, the autopilot is put back to what it was when the link was lost, so
/// that the pilot flies again at once; no arming is needed. Returns whether
/// the link was lost.
pub fn link_packet_received(link: &mut LinkState, autopilot_status: &mut AutopilotStatus) -> (was_lost: bool)
    ensures
        was_lost == old(link).link_lost,
        !final(link).link_lost,
        final(link).time_since_packet == 0,
        final(link).resume == old(link).resume,
        *final(autopilot_status) == (if old(link).link_lost {
            old(link).resume
        } else {
            *old(autopilot_status)
        }),
{
    link.time_since_packet = 0;
    if link.link_lost {
        *autopilot_status = link.resume;
        link.link_lost = false;
        true
    } else {
        false
    }
}

/// What the radio link delivered: a decoded packet of the pilot's input, or
/// nothing where a packet could not be decoded. A packet replaces the
/// pilot's input and counts as a valid packet for the link: the link timer
/// starts again, and if the link was lost the autopilot is put back to what
/// it was; the fault flag stays as it is. A failed packet changes nothing
/// but the fault flag, which it raises.
pub fn radio_packet(
    packet: Option<ChannelData>,
    ch_data: &mut ChannelData,
    link: &mut LinkState,
    autopilot_status: &mut AutopilotStatus,
    rx_fault: &mut bool,
)
    ensures
        match packet {
            Some(d) => {
                &&& *final(ch_data) == d
                &&& !final(link).link_lost
                &&& final(link).time_since_packet == 0
                &&& final(link).resume == old(link).resume
                &&& *final(autopilot_status) == (if old(link).link_lost {
                    old(link).resume
                } else {
                    *old(autopilot_status)
                })
                &&& *final(rx_fault) == *old(rx_fault)
            },
            None => {
                &&& *final(ch_data) == *old(ch_data)
                &&& *final(link) == *old(link)
                &&& *final(autopilot_status) == *old(autopilot_status)
                &&& *final(rx_fault)
            },
        },
{
    match packet {
        Some(d) => {
            *ch_data = d;
            link_packet_received(link, autopilot_status);
        },
        None => {
            *rx_fault = true;
        },
    }
}

/// While the link is lost the recovery behaviour is switched on and holds
/// the recovery altitude above mean sea level; with a position fix the
/// aircraft heads for the base, whatever its altitude, and without one the
/// procedure sets no point to head for.
pub proof fn lemma_link_lost_engages_recovery(
    system_status: SystemStatus,
    autopilot_status: AutopilotStatus,
    params: Params,
    base_pt: Location,
)
    ensures
        link_lost_autopilot(system_status, autopilot_status, params, base_pt).recover == Some(
            LOST_LINK_RTB_ALT,
        ),
        link_lost_autopilot(system_status, autopilot_status, params, base_pt).alt_hold == Some(
            (AltType::Msl, LOST_LINK_RTB_ALT),
        ),
        system_status.gnss_can == SensorStatus::Pass ==> link_lost_autopilot(
            system_status,
            autopilot_status,
            params,
            base_pt,
        ).direct_to_point == Some(base_pt),
        system_status.gnss_can != SensorStatus::Pass ==> link_lost_autopilot(
            system_status,
            autopilot_status,
            params,
            base_pt,
        ).direct_to_point == autopilot_status.direct_to_point,
{
}

} // verus!
