use flight_core::control_interface::{ChannelData, ElrsChannelData, InputModeSwitch, LinkStats};
use flight_core::drivers::gnss_can::{fix_status, Config, FixStatus, FixType, CONFIG_SIZE, GNSS_FIX_ID, GNSS_PAYLOAD_SIZE};
use flight_core::fixed::SCALE;
use flight_core::flight_ctrls::common::{
    AltType, AttitudeEstimate, CommandState, CtrlInputs, FlightCmd, InputMap, Location, LocationType, ManualInputs,
    Params, ParamsInst, Quaternion, RatesCommanded, FULL_TURN, QUARTER_TURN,
};
use flight_core::flight_ctrls::ctrl_logic::{calc_drag_coeff, omega_dot_from_ttc, CtrlCoeffs, PowerMaps, RpmToAccel};
use flight_core::protocols::elrs::pfd::PFD;
use flight_core::safety::ArmStatus;
use flight_core::protocols::dshot::{set_bidirectional, CountDir, Polarity};
use flight_core::state::{AircraftProperties, DmaChannel, DmaInput, Rotor, SwarmRole, TimChannel, UserCfg};

#[test]
fn input_map_of_a_multirotor() {
    let m = InputMap::default();
    assert_eq!(m.calc_pitch_rate(500_000_000), 5 * SCALE);
    assert_eq!(m.calc_roll_rate(-SCALE), -10 * SCALE);
    assert_eq!(m.calc_yaw_rate(250_000_000), 2_500_000_000);
    assert_eq!(m.calc_manual_throttle(0), 60_000_000);
    assert_eq!(m.calc_manual_throttle(SCALE), 800_000_000);
    assert_eq!(m.calc_manual_throttle(500_000_000), 430_000_000);
    assert_eq!(m.calc_pitch_angle(500_000_000), 785_398_163);
    assert_eq!(m.calc_pitch_angle(SCALE), QUARTER_TURN);
    assert_eq!(m.calc_roll_angle(-SCALE), -QUARTER_TURN);
    assert_eq!(m.calc_yaw_angle(-SCALE), 0);
    assert_eq!(m.calc_yaw_angle(SCALE), FULL_TURN);
    assert_eq!(m.alt_commanded_offset_msl, (0, 100 * SCALE));
    assert_eq!(m.alt_commanded_agl, (500_000_000, 8 * SCALE));
}

#[test]
fn input_map_of_a_flying_wing() {
    let m = InputMap::default_flying_wing();
    assert_eq!(m.calc_pitch_rate(SCALE), 6 * SCALE);
    assert_eq!(m.calc_roll_rate(-500_000_000), -3 * SCALE);
    assert_eq!(m.calc_yaw_rate(SCALE), 0);
    assert_eq!(m.calc_manual_throttle(SCALE), 0);
    assert_eq!(m.calc_pitch_angle(SCALE), 0);
    assert_eq!(m.calc_roll_angle(SCALE), 0);
    assert_eq!(m.calc_yaw_angle(SCALE), 0);
}

#[test]
fn autopilot_set_points_replace_the_pilots_axis_by_axis() {
    let base = CtrlInputs { pitch: 1, roll: 2, yaw: 3, thrust: 4 };
    assert_eq!(RatesCommanded::default().substitute_into(&base), base);
    let over = RatesCommanded { pitch: Some(10), roll: None, yaw: None, thrust: Some(40) };
    assert_eq!(over.substitute_into(&base), CtrlInputs { pitch: 10, roll: 2, yaw: 3, thrust: 40 });
}

#[test]
fn previous_estimate_is_copied_before_it_is_overwritten() {
    let mut current = Params::default();
    current.v_pitch = 100_000_000;
    current.v_roll = -200_000_000;
    current.s_pitch = 5;
    current.baro_alt_msl = 77;
    let before = current;
    let mut prev = Params::default();
    let est = AttitudeEstimate {
        quaternion: Quaternion::new(1, 2, 3, 4),
        s_pitch: 11,
        s_roll: 12,
        s_yaw_heading: 13,
        v_pitch: 300_000_000,
        v_roll: -200_000_000,
        v_yaw: -50_000_000,
    };
    current.update_attitude(&mut prev, &est, 10_000_000);
    assert_eq!(prev, before);
    assert_eq!(current.quaternion, Quaternion { w: 1, x: 2, y: 3, z: 4 });
    assert_eq!((current.s_pitch, current.s_roll, current.s_yaw_heading), (11, 12, 13));
    assert_eq!((current.v_pitch, current.v_roll, current.v_yaw), (300_000_000, -200_000_000, -50_000_000));
    assert_eq!((current.a_pitch, current.a_roll, current.a_yaw), (20 * SCALE, 0, -5 * SCALE));
    assert_eq!(current.baro_alt_msl, 77);
}

#[test]
fn starting_values() {
    assert_eq!(Quaternion::default(), Quaternion { w: SCALE, x: 0, y: 0, z: 0 });
    assert_eq!(Params::default().quaternion, Quaternion::default());
    assert_eq!(Params::default().tof_alt, None);
    assert_eq!(Location::default(), Location { type_: LocationType::Rel0, x: 0, y: 0, z: 0 });
    assert_eq!(LocationType::default(), LocationType::Rel0);
    assert_eq!(Location::new(LocationType::LatLon, 1, 2, 3), Location { type_: LocationType::LatLon, x: 1, y: 2, z: 3 });
    assert_eq!(CommandState::default().arm_status, ArmStatus::Disarmed);
    assert!(!CommandState::default().loiter_set);
    assert_eq!(ManualInputs::default(), ManualInputs { pitch: 0, roll: 0, yaw: 0, throttle: 0 });
    assert_eq!(AltType::Agl, AltType::Agl);
    assert_eq!(ChannelData::default().input_mode, InputModeSwitch::Acro);
    assert_eq!(ElrsChannelData::default().aux1, ArmStatus::Disarmed);
    assert_eq!(LinkStats::default().uplink_link_quality, 0);
    assert_eq!(InputModeSwitch::default(), InputModeSwitch::Acro);
}

#[test]
fn flight_commands() {
    let hover = FlightCmd::hover(3 * SCALE);
    assert_eq!((hover.v_x, hover.v_y, hover.v_z), (Some(0), Some(0), Some(0)));
    assert_eq!((hover.s_z, hover.s_pitch), (None, None));
    let level = FlightCmd::level();
    assert_eq!((level.s_pitch, level.s_roll, level.s_yaw, level.v_z), (Some(0), Some(0), Some(0), Some(0)));
    assert_eq!(level.v_x, None);
    let mut cmd = FlightCmd::default();
    cmd.v_pitch = Some(100);
    cmd.add_inputs(ManualInputs { pitch: 5, roll: -6, yaw: 7, throttle: 8 });
    assert_eq!((cmd.v_pitch, cmd.v_roll, cmd.v_yaw), (Some(105), Some(-6), Some(7)));
    assert_eq!(cmd.v_z, None);
}

#[test]
fn six_axis_sums() {
    let a = ParamsInst { x: 1, y: 2, z: 3, pitch: 4, roll: 5, yaw: i64::MAX };
    let b = ParamsInst { x: 10, y: 20, z: 30, pitch: 40, roll: 50, yaw: 60 };
    assert_eq!(a.add(b), ParamsInst { x: 11, y: 22, z: 33, pitch: 44, roll: 55, yaw: i64::MAX });
    assert_eq!(b.sub(a), ParamsInst { x: 9, y: 18, z: 27, pitch: 36, roll: 45, yaw: 60 - i64::MAX });
    assert_eq!(ParamsInst::default().sub(a).x, -1);
}

#[test]
fn phase_detector() {
    let mut pfd = PFD::default();
    pfd.calcResult();
    assert_eq!(pfd.result, 0);
    pfd.extEvent(10);
    pfd.calcResult();
    assert_eq!(pfd.result, 0);
    pfd.intEvent(5);
    assert!(pfd.gotExtEvent && pfd.gotIntEvent);
    pfd.calcResult();
    assert_eq!(pfd.result, 5);
    pfd.extEvent(5);
    pfd.intEvent(10);
    pfd.calcResult();
    assert_eq!(pfd.result, -5);
    pfd.extEvent(0);
    pfd.intEvent(u32::MAX);
    pfd.calcResult();
    assert_eq!(pfd.result, 1);
    pfd.extEvent(1 << 31);
    pfd.intEvent(0);
    pfd.calcResult();
    assert_eq!(pfd.result, i32::MIN);
    pfd.extEvent(0);
    pfd.intEvent(1 << 31);
    pfd.calcResult();
    assert_eq!(pfd.result, i32::MIN);
    pfd.extEvent((1 << 31) - 1);
    pfd.intEvent(0);
    pfd.calcResult();
    assert_eq!(pfd.result, i32::MAX);
    pfd.reset();
    assert!(!pfd.gotExtEvent && !pfd.gotIntEvent);
    assert_eq!(pfd.result, i32::MAX);
    pfd.calcResult();
    assert_eq!(pfd.result, 0);
}

#[test]
fn sensor_node_settings_as_bytes() {
    assert_eq!(CONFIG_SIZE, 8);
    assert_eq!(GNSS_FIX_ID, 1_063);
    assert_eq!(GNSS_PAYLOAD_SIZE, 38);
    let c = Config::default();
    assert_eq!(c.to_bytes(), [5, 100, 0, 100, 0, 100, 0, 1]);
    assert_eq!(Config::from_bytes(&c.to_bytes()), c);
    let odd = Config {
        broadcast_rate_gnss: 18,
        broadcast_rate_fused: 0x1234,
        broadcast_rate_baro: 0xFFFF,
        broadcast_rate_mag: 0x0100,
        broadcast_fused_as_fix: false,
    };
    assert_eq!(odd.to_bytes(), [18, 0x34, 0x12, 0xFF, 0xFF, 0x00, 0x01, 0]);
    assert_eq!(Config::from_bytes(&[18, 0x34, 0x12, 0xFF, 0xFF, 0x00, 0x01, 0, 99, 98]), odd);
    assert!(Config::from_bytes(&[0, 0, 0, 0, 0, 0, 0, 7]).broadcast_fused_as_fix);
}

#[test]
fn kinds_of_fix() {
    assert_eq!(fix_status(FixType::NoFix), FixStatus::NoFix);
    assert_eq!(fix_status(FixType::DeadReckoning), FixStatus::Fix2d);
    assert_eq!(fix_status(FixType::Fix2d), FixStatus::Fix2d);
    assert_eq!(fix_status(FixType::Fix3d), FixStatus::Fix3d);
    assert_eq!(fix_status(FixType::Combined), FixStatus::Fix3d);
    assert_eq!(fix_status(FixType::TimeOnly), FixStatus::TimeOnly);
}

#[test]
fn acceleration_log_keeps_one_entry_per_band() {
    let mut log = RpmToAccel::new();
    assert_eq!(log, RpmToAccel::default());
    log.log_val(50_000_000, 7);
    assert_eq!(log.r_0, (50_000_000, 7));
    log.log_val(100_000_000, 8);
    assert_eq!(log.r_1k, (100_000_000, 8));
    assert_eq!(log.r_0, (50_000_000, 7));
    log.log_val(999_999_999, 9);
    assert_eq!(log.r_9k, (999_999_999, 9));
    log.log_val(SCALE, 10);
    assert_eq!(log.r_10k, (SCALE, 10));
    log.log_val(-5, 11);
    assert_eq!(log.r_0, (-5, 11));
    log.log_val(550_000_000, 12);
    assert_eq!(log.r_5k, (550_000_000, 12));
    assert_eq!(log.r_4k, (0, 0));
    assert_eq!(log.rpm_to_angular_accel(550_000_000), 0);
    assert_eq!(PowerMaps::default().rpm_to_accel_yaw, RpmToAccel::new());
}

#[test]
fn drag_and_correction() {
    assert_eq!(calc_drag_coeff(2 * SCALE, 200_000_000, 500_000_000), 150_000_000);
    assert_eq!(calc_drag_coeff(0, 200_000_000, 500_000_000), 0);
    assert_eq!(calc_drag_coeff(999, 200_000_000, 500_000_000), 0);
    assert_eq!(calc_drag_coeff(-999, 200_000_000, 500_000_000), 0);
    assert_eq!(omega_dot_from_ttc(500_000_000, 200_000_000, 300_000_000), -138_666_666_666);
    assert_eq!(omega_dot_from_ttc(0, 200_000_000, 300_000_000), 0);
    assert_eq!(CtrlCoeffs::default(), CtrlCoeffs { ttc_per_dtheta: 300_000_000, max_ttc_per_dtheta: 500_000_000 });
    assert_eq!(
        CtrlCoeffs::default_fixed_wing(),
        CtrlCoeffs { ttc_per_dtheta: 500_000_000, max_ttc_per_dtheta: 700_000_000 }
    );
}

#[test]
fn settings() {
    let cfg = UserCfg::default();
    assert_eq!(cfg.ceiling, 122 * SCALE);
    assert_eq!(cfg.max_angle, 1_382_300_768);
    assert_eq!(cfg.max_velocity, 30 * SCALE);
    assert_eq!(cfg.max_speed_hor, 20 * SCALE);
    assert_eq!(cfg.max_speed_ver, 20 * SCALE);
    assert_eq!(cfg.throttle_input_range, (0, SCALE));
    assert_eq!(cfg.motors_reversed, (false, false, false, false));
    let props = AircraftProperties {
        mass: 1,
        arm_len: 1,
        drag_coeff: 1,
        thrust_coeff: 1,
        moment_of_intertia: 1,
        rotor_inertia: 1,
    };
    assert_eq!(props.level_pwr(0), 100_000_000);
    assert_eq!(props.level_pwr(3_000 * SCALE), 100_000_000);
    assert_ne!(SwarmRole::Worker(3), SwarmRole::Worker(4));
    assert_ne!(SwarmRole::Queen, SwarmRole::PersonFollower);
}

#[test]
fn rotor_outputs() {
    let want = [
        (Rotor::R1, TimChannel::C1, DmaInput::Tim2Ch1, DmaChannel::C2, 16u8),
        (Rotor::R2, TimChannel::C4, DmaInput::Tim2Ch4, DmaChannel::C3, 19),
        (Rotor::R3, TimChannel::C3, DmaInput::Tim3Ch3, DmaChannel::C4, 18),
        (Rotor::R4, TimChannel::C4, DmaInput::Tim3Ch4, DmaChannel::C5, 19),
    ];
    for (rotor, channel, input, dma, register) in want {
        assert_eq!(rotor.tim_channel(), channel);
        assert_eq!(rotor.dma_input(), input);
        assert_eq!(rotor.dma_channel(), dma);
        assert_eq!(rotor.base_addr_offset(), register);
    }
}

#[test]
fn timer_setting_for_bidirectional_mode() {
    assert_eq!(set_bidirectional(true), (Polarity::ActiveLow, CountDir::Down));
    assert_eq!(set_bidirectional(false), (Polarity::ActiveHigh, CountDir::Up));
}
