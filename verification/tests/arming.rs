use flight_core::flight_ctrls::common::RatesCommanded;
use flight_core::safety::{angle_from_upright, lock_attitude};
use flight_core::autopilot::AutopilotStatus;
use flight_core::control_interface::{ChannelData, InputModeSwitch};
use flight_core::fixed::SCALE;
use flight_core::flight_ctrls::common::{AltType, Location, LocationType, Params, SensorStatus, SystemStatus};
use flight_core::pid::{PidGroup, PidState};
use flight_core::safety::{
    excecute_link_lost, handle_arm_status, handle_takeoff_attitude_lock, link_packet_received, link_time_passed,
    link_timer_expired, radio_packet,
    ArmLatches, ArmStatus, LinkState, ServoAction, IDLE_POWER_THRESH, IDLE_POWER_TIME,
    LOST_LINK_RTB_ALT, TAKEOFF_POWER_THRESH, TAKEOFF_POWER_TIME, THROTTLE_MAX_TO_ARM, UPRIGHT_THRESH,
};

struct Craft {
    arm_signals: u8,
    disarm_signals: u8,
    latches: ArmLatches,
    status: ArmStatus,
    has_taken_off: bool,
    pid_rate: PidGroup,
    pid_attitude: PidGroup,
    pid_velocity: PidGroup,
}

fn wound_up() -> PidGroup {
    let s = PidState { measurement: 1, e: 2, p: 3, i: 4, d: 5 };
    PidGroup { pitch: s, roll: s, yaw: s, thrust: s }
}

fn craft() -> Craft {
    Craft {
        arm_signals: 0,
        disarm_signals: 0,
        latches: ArmLatches::default(),
        status: ArmStatus::default(),
        has_taken_off: false,
        pid_rate: wound_up(),
        pid_attitude: wound_up(),
        pid_velocity: wound_up(),
    }
}

fn cycle(c: &mut Craft, switch: ArmStatus, throttle: i64) -> ServoAction {
    handle_arm_status(
        &mut c.arm_signals,
        &mut c.disarm_signals,
        &mut c.latches,
        switch,
        &mut c.status,
        &mut c.has_taken_off,
        throttle,
        &mut c.pid_rate,
        &mut c.pid_attitude,
        &mut c.pid_velocity,
    )
}

fn armed_craft() -> Craft {
    let mut c = craft();
    cycle(&mut c, ArmStatus::Disarmed, 0);
    for _ in 0..5 {
        cycle(&mut c, ArmStatus::Armed, 0);
    }
    assert_eq!(c.status, ArmStatus::Armed);
    c
}

#[test]
fn starts_disarmed_with_latches_clear() {
    assert_eq!(ArmStatus::default(), ArmStatus::Disarmed);
    assert_eq!(ArmLatches::default(), ArmLatches { received_initial_disarm: false, arm_commanded_without_idle: false });
}

#[test]
fn does_not_arm_before_the_switch_was_seen_off() {
    let mut c = craft();
    for _ in 0..20 {
        cycle(&mut c, ArmStatus::Armed, 0);
        assert_eq!(c.status, ArmStatus::Disarmed);
    }
}

#[test]
fn switch_seen_off_with_throttle_up_does_not_count() {
    let mut c = craft();
    cycle(&mut c, ArmStatus::Disarmed, THROTTLE_MAX_TO_ARM);
    assert!(!c.latches.received_initial_disarm);
    for _ in 0..5 {
        cycle(&mut c, ArmStatus::Armed, 0);
    }
    assert_eq!(c.status, ArmStatus::Disarmed);
    cycle(&mut c, ArmStatus::Disarmed, THROTTLE_MAX_TO_ARM - 1);
    assert!(c.latches.received_initial_disarm);
}

#[test]
fn arms_on_exactly_the_fifth_signal() {
    let mut c = craft();
    cycle(&mut c, ArmStatus::Disarmed, 0);
    for k in 1..=4u8 {
        cycle(&mut c, ArmStatus::Armed, SCALE);
        assert_eq!(c.status, ArmStatus::Disarmed);
        assert_eq!(c.arm_signals, k);
    }
    cycle(&mut c, ArmStatus::Armed, THROTTLE_MAX_TO_ARM - 1);
    assert_eq!(c.status, ArmStatus::Armed);
    assert_eq!(c.arm_signals, 0);
}

#[test]
fn a_break_in_the_signals_starts_the_count_again() {
    let mut c = craft();
    cycle(&mut c, ArmStatus::Disarmed, 0);
    for _ in 0..4 {
        cycle(&mut c, ArmStatus::Armed, 0);
    }
    cycle(&mut c, ArmStatus::Disarmed, 0);
    for _ in 0..4 {
        cycle(&mut c, ArmStatus::Armed, 0);
        assert_eq!(c.status, ArmStatus::Disarmed);
    }
    cycle(&mut c, ArmStatus::Armed, 0);
    assert_eq!(c.status, ArmStatus::Armed);
}

#[test]
fn arming_with_throttle_up_blocks_until_switch_is_cycled() {
    let mut c = craft();
    cycle(&mut c, ArmStatus::Disarmed, 0);
    for _ in 0..5 {
        cycle(&mut c, ArmStatus::Armed, THROTTLE_MAX_TO_ARM);
    }
    assert_eq!(c.status, ArmStatus::Disarmed);
    assert!(c.latches.arm_commanded_without_idle);
    for _ in 0..12 {
        cycle(&mut c, ArmStatus::Armed, 0);
        assert_eq!(c.status, ArmStatus::Disarmed);
    }
    cycle(&mut c, ArmStatus::Disarmed, SCALE);
    assert!(!c.latches.arm_commanded_without_idle);
    for _ in 0..5 {
        cycle(&mut c, ArmStatus::Armed, 0);
    }
    assert_eq!(c.status, ArmStatus::Armed);
}

#[test]
fn disarms_on_the_fifth_signal_and_resets() {
    let mut c = armed_craft();
    c.has_taken_off = true;
    c.pid_rate = wound_up();
    c.pid_attitude = wound_up();
    c.pid_velocity = wound_up();
    for k in 1..=4u8 {
        assert_eq!(cycle(&mut c, ArmStatus::Disarmed, SCALE), ServoAction::Enable);
        assert_eq!(c.status, ArmStatus::Armed);
        assert_eq!(c.disarm_signals, k);
        assert!(c.has_taken_off);
        assert_eq!(c.pid_rate, wound_up());
    }
    cycle(&mut c, ArmStatus::Disarmed, SCALE);
    assert_eq!(c.status, ArmStatus::Disarmed);
    assert_eq!(c.disarm_signals, 0);
    assert!(!c.has_taken_off);
    let z = PidState { measurement: 1, e: 2, p: 3, i: 0, d: 5 };
    let reset = PidGroup { pitch: z, roll: z, yaw: z, thrust: z };
    assert_eq!(c.pid_rate, reset);
    assert_eq!(c.pid_attitude, reset);
    assert_eq!(c.pid_velocity, reset);
    assert_eq!(cycle(&mut c, ArmStatus::Disarmed, 0), ServoAction::Disable);
}

#[test]
fn an_arm_signal_between_disarm_signals_starts_the_count_again() {
    let mut c = armed_craft();
    for _ in 0..4 {
        cycle(&mut c, ArmStatus::Disarmed, 0);
    }
    cycle(&mut c, ArmStatus::Armed, 0);
    assert_eq!(c.disarm_signals, 0);
    for _ in 0..4 {
        cycle(&mut c, ArmStatus::Disarmed, 0);
        assert_eq!(c.status, ArmStatus::Armed);
    }
}

#[test]
fn fixed_wing_falls_back_to_controls_armed() {
    let mut c = armed_craft();
    for _ in 0..5 {
        cycle(&mut c, ArmStatus::ControlsArmed, 0);
    }
    assert_eq!(c.status, ArmStatus::ControlsArmed);
    let before = (c.arm_signals, c.disarm_signals, c.latches, c.has_taken_off);
    assert_eq!(cycle(&mut c, ArmStatus::Armed, 0), ServoAction::Enable);
    assert_eq!(c.status, ArmStatus::ControlsArmed);
    assert_eq!((c.arm_signals, c.disarm_signals, c.latches, c.has_taken_off), before);
}

#[test]
fn counters_at_their_limit_do_not_overflow() {
    let mut c = craft();
    c.arm_signals = 255;
    cycle(&mut c, ArmStatus::Armed, 0);
    assert_eq!(c.arm_signals, 0);
    assert_eq!(c.status, ArmStatus::Disarmed);
}

fn lock(
    status: ArmStatus,
    throttle: i64,
    high: &mut i64,
    low: &mut i64,
    angle: i64,
    taken_off: &mut bool,
    dt: i64,
) {
    handle_takeoff_attitude_lock(status, throttle, high, low, angle, taken_off, dt);
}

#[test]
fn takeoff_lock_releases_after_a_second_of_power() {
    let (mut high, mut low, mut off) = (0, 0, false);
    let dt = SCALE / 4;
    for k in 1..=4 {
        lock(ArmStatus::Armed, TAKEOFF_POWER_THRESH, &mut high, &mut low, 0, &mut off, dt);
        assert_eq!(high, k * dt);
        assert!(!off);
    }
    assert_eq!(high, TAKEOFF_POWER_TIME);
    lock(ArmStatus::Armed, TAKEOFF_POWER_THRESH, &mut high, &mut low, 0, &mut off, dt);
    assert!(off);
    assert_eq!(high, 0);
}

#[test]
fn takeoff_lock_gives_no_credit_across_a_break() {
    let (mut high, mut low, mut off) = (0, 0, false);
    let dt = SCALE / 4;
    for _ in 0..3 {
        lock(ArmStatus::Armed, SCALE, &mut high, &mut low, 0, &mut off, dt);
    }
    lock(ArmStatus::Armed, TAKEOFF_POWER_THRESH - 1, &mut high, &mut low, SCALE, &mut off, dt);
    assert_eq!(high, 0);
    for _ in 0..4 {
        lock(ArmStatus::Armed, SCALE, &mut high, &mut low, 0, &mut off, dt);
        assert!(!off);
    }
    lock(ArmStatus::Armed, SCALE, &mut high, &mut low, 0, &mut off, dt);
    assert!(off);
}

#[test]
fn takeoff_lock_engages_again_after_five_seconds_at_idle() {
    let (mut high, mut low, mut off) = (0, 0, true);
    for k in 1..=5 {
        lock(ArmStatus::Armed, IDLE_POWER_THRESH, &mut high, &mut low, UPRIGHT_THRESH - 1, &mut off, SCALE);
        assert_eq!(low, k * SCALE);
        assert!(off);
    }
    assert_eq!(low, IDLE_POWER_TIME);
    lock(ArmStatus::Armed, IDLE_POWER_THRESH, &mut high, &mut low, UPRIGHT_THRESH - 1, &mut off, SCALE);
    assert!(!off);
    assert_eq!(low, 0);
}

#[test]
fn takeoff_lock_idle_time_needs_upright_and_armed() {
    let (mut high, mut low, mut off) = (0, 3 * SCALE, true);
    lock(ArmStatus::Armed, 0, &mut high, &mut low, UPRIGHT_THRESH, &mut off, SCALE);
    assert_eq!(low, 0);
    low = 3 * SCALE;
    high = SCALE / 2;
    lock(ArmStatus::Disarmed, 0, &mut high, &mut low, 0, &mut off, SCALE);
    assert_eq!((high, low), (0, 0));
    assert!(off);
    low = 3 * SCALE;
    lock(ArmStatus::Armed, SCALE, &mut high, &mut low, 0, &mut off, SCALE);
    assert_eq!(low, 0);
    assert_eq!(high, SCALE);
}

fn status(gnss: SensorStatus) -> SystemStatus {
    SystemStatus { gnss_can: gnss, magnetometer: SensorStatus::Pass, tof: SensorStatus::NotConnected }
}

fn base() -> Location {
    Location::new(LocationType::LatLon, 600_000_000, -1_300_000_000, 50 * SCALE)
}

#[test]
fn lost_link_climbs_and_heads_for_base_whenever_there_is_a_fix() {
    for alt in [0, 10 * SCALE, LOST_LINK_RTB_ALT, 500 * SCALE] {
        let mut ap = AutopilotStatus::new();
        let mut params = Params::default();
        params.baro_alt_msl = alt;
        excecute_link_lost(&status(SensorStatus::Pass), &mut ap, &params, &base());
        assert_eq!(ap.recover, Some(LOST_LINK_RTB_ALT));
        assert_eq!(ap.alt_hold, Some((AltType::Msl, LOST_LINK_RTB_ALT)));
        assert_eq!(ap.direct_to_point, Some(base()));
    }
}

#[test]
fn lost_link_without_a_fix_only_climbs() {
    let mut ap = AutopilotStatus::new();
    let mut params = Params::default();
    params.baro_alt_msl = LOST_LINK_RTB_ALT;
    for gnss in [SensorStatus::Fail, SensorStatus::NotConnected] {
        excecute_link_lost(&status(gnss), &mut ap, &params, &base());
        assert_eq!(ap.direct_to_point, None);
        assert_eq!(ap.alt_hold, Some((AltType::Msl, LOST_LINK_RTB_ALT)));
    }
}

#[test]
fn pilot_resumes_when_the_link_is_back() {
    let mut link = LinkState::new();
    let mut ap = AutopilotStatus::new();
    ap.hdg_hold = Some(SCALE);
    ap.alt_hold = Some((AltType::Agl, 3 * SCALE));
    let before = ap;
    let mut params = Params::default();
    params.baro_alt_msl = LOST_LINK_RTB_ALT;

    assert!(!link_packet_received(&mut link, &mut ap));
    assert_eq!(ap, before);

    link_timer_expired(&mut link, &status(SensorStatus::Pass), &mut ap, &params, &base());
    assert!(link.link_lost);
    assert_eq!(ap.recover, Some(LOST_LINK_RTB_ALT));
    assert_eq!(ap.direct_to_point, Some(base()));
    link_timer_expired(&mut link, &status(SensorStatus::Pass), &mut ap, &params, &base());
    assert_eq!(link.resume, before);

    assert!(link_packet_received(&mut link, &mut ap));
    assert!(!link.link_lost);
    assert_eq!(ap, before);
}

#[test]
fn attitude_is_held_level_until_take_off() {
    let given = RatesCommanded { pitch: Some(5), roll: None, yaw: Some(7), thrust: None };
    let mut a = given;
    lock_attitude(&mut a, ArmStatus::Armed, false);
    assert_eq!(a, RatesCommanded { pitch: Some(0), roll: Some(0), yaw: Some(7), thrust: None });
    for (arm, off) in [
        (ArmStatus::Armed, true),
        (ArmStatus::Disarmed, false),
        (ArmStatus::Disarmed, true),
        (ArmStatus::ControlsArmed, false),
    ] {
        let mut a = given;
        lock_attitude(&mut a, arm, off);
        assert_eq!(a, given);
    }
}

#[test]
fn angle_from_upright_is_the_larger_of_pitch_and_roll() {
    let mut p = Params::default();
    assert_eq!(angle_from_upright(&p), 0);
    p.s_pitch = -300;
    p.s_roll = 200;
    assert_eq!(angle_from_upright(&p), 300);
    p.s_roll = 400;
    assert_eq!(angle_from_upright(&p), 400);
    p.s_roll = i64::MIN;
    assert_eq!(angle_from_upright(&p), i64::MAX);
}

#[test]
fn link_timer_runs_out_after_a_second_without_packets() {
    let mut link = LinkState::new();
    let mut ap = AutopilotStatus::new();
    for _ in 0..3 {
        assert!(!link_time_passed(&mut link, SCALE / 4));
    }
    assert_eq!(link.time_since_packet, 750_000_000);
    assert!(link_time_passed(&mut link, SCALE / 4));
    assert!(link_time_passed(&mut link, SCALE / 4));
    link_packet_received(&mut link, &mut ap);
    assert_eq!(link.time_since_packet, 0);
    assert!(!link_time_passed(&mut link, SCALE - 1));
    assert!(link_time_passed(&mut link, i64::MAX));
    assert_eq!(link.time_since_packet, i64::MAX);
}

#[test]
fn a_decoded_packet_replaces_the_input_and_restores_the_link() {
    let mut ch = ChannelData::default();
    let mut link = LinkState::new();
    let mut ap = AutopilotStatus::new();
    ap.hdg_hold = Some(SCALE);
    let before = ap;
    let mut fault = false;
    let mut params = Params::default();
    params.baro_alt_msl = 3 * SCALE;
    link_time_passed(&mut link, 2 * SCALE);
    link_timer_expired(&mut link, &status(SensorStatus::Pass), &mut ap, &params, &base());
    assert!(link.link_lost);
    assert_eq!(ap.direct_to_point, Some(base()));

    let packet = ChannelData {
        roll: 1,
        pitch: 2,
        throttle: 3,
        yaw: 4,
        arm_status: ArmStatus::Armed,
        input_mode: InputModeSwitch::AttitudeCommand,
    };
    radio_packet(Some(packet), &mut ch, &mut link, &mut ap, &mut fault);
    assert_eq!(ch, packet);
    assert!(!link.link_lost);
    assert_eq!(link.time_since_packet, 0);
    assert_eq!(ap, before);
    assert!(!fault);
}

#[test]
fn a_failed_packet_only_raises_the_fault_flag() {
    let mut ch = ChannelData { throttle: 77, ..ChannelData::default() };
    let mut link = LinkState::new();
    link_time_passed(&mut link, 5);
    let mut ap = AutopilotStatus::new();
    let mut fault = false;
    let (ch_before, link_before, ap_before) = (ch, link, ap);
    radio_packet(None, &mut ch, &mut link, &mut ap, &mut fault);
    assert!(fault);
    assert_eq!((ch, link, ap), (ch_before, link_before, ap_before));
    radio_packet(Some(ch_before), &mut ch, &mut link, &mut ap, &mut fault);
    assert!(fault);
    radio_packet(None, &mut ch, &mut link, &mut ap, &mut fault);
    assert!(fault);
}
