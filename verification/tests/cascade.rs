use flight_core::autopilot::AutopilotMode;
use flight_core::control_interface::InputModeSwitch;
use flight_core::pid::select_input_mode;
use flight_core::control_interface::ChannelData;
use flight_core::fixed::SCALE;
use flight_core::flight_ctrls::common::{
    AltType, CommandState, CtrlInputs, InputMap, InputMode, Params, RatesCommanded,
};
use flight_core::flight_ctrls::flying_wing::{set_elevon_posit, ControlPositions, ServoWing, ServoWingMapping};
use flight_core::flight_ctrls::quad::{RotationDir, RotorMapping, RotorPower};
use flight_core::autopilot::AutopilotStatus;
use flight_core::pid::{
    run_attitude_quad, run_outer_tiers, run_rate_fixed_wing, run_rate_quad, run_velocity, set_input_mode,
    CtrlCoeffGroup,
    CtrlCoeffsPR, CtrlCoeffsYT, IirInstWrapper, LowpassCutoff, PidDerivFilters, PidGroup, PidState, DT_ATTITUDE,
};
use flight_core::protocols::dshot::{decode_frame, DshotPayload, DUTY_HIGH};
use flight_core::safety::ArmStatus;

fn word_of(p: &DshotPayload, motor: usize) -> u16 {
    let mut frame = 0u16;
    for k in 0..16 {
        frame = (frame << 1) | (p.buf[k * 4 + motor] as u32 == DUTY_HIGH) as u16;
    }
    decode_frame(frame).unwrap().0
}

fn sticks(pitch: i64, roll: i64, yaw: i64, throttle: i64) -> ChannelData {
    ChannelData { pitch, roll, yaw, throttle, ..ChannelData::default() }
}

fn none() -> RatesCommanded {
    RatesCommanded::default()
}

fn gentle() -> CtrlCoeffGroup {
    let pr = CtrlCoeffsPR {
        k_p_rate: 100_000_000,
        k_i_rate: 500_000_000,
        k_d_rate: 3_000_000,
        k_p_attitude: 2 * SCALE,
        k_i_attitude: SCALE,
        k_d_attitude: 0,
        k_p_velocity: 100_000_000,
        k_i_velocity: 0,
        pid_deriv_lowpass_cutoff_rate: LowpassCutoff::H1k,
        pid_deriv_lowpass_cutoff_attitude: LowpassCutoff::H1k,
    };
    CtrlCoeffGroup { pitch: pr, roll: pr, yaw: CtrlCoeffsYT::default(), thrust: CtrlCoeffsYT::default() }
}

#[test]
fn rate_tier_in_acro_mode_runs_from_sticks_to_frames() {
    let mut params = Params::default();
    params.v_pitch = 10_000_000;
    let mut rates = CtrlInputs::default();
    let mut pid = PidGroup::default();
    let mut filters = PidDerivFilters::new();
    let mut pwr = RotorPower::default();
    let mut payload = DshotPayload::new();
    run_rate_quad(
        &params,
        InputMode::Acro,
        &none(),
        &sticks(100_000_000, -50_000_000, 20_000_000, 500_000_000),
        &mut rates,
        &mut pid,
        &mut filters,
        &mut pwr,
        &RotorMapping::default(),
        &mut payload,
        &gentle(),
        &InputMap::default(),
        ArmStatus::Armed,
        125_000,
    );
    assert_eq!(rates, CtrlInputs { pitch: SCALE, roll: -500_000_000, yaw: 200_000_000, thrust: 430_000_000 });
    assert_eq!(pid.pitch, PidState { measurement: 10_000_000, e: 990_000_000, p: 99_000_000, i: 30_937, d: 8_230_548 });
    assert_eq!(pid.roll, PidState { measurement: 0, e: -500_000_000, p: -50_000_000, i: -15_625, d: 0 });
    assert_eq!(pid.yaw, PidState { measurement: 0, e: 200_000_000, p: 60_000_000, i: 0, d: 0 });
    assert_eq!(pid.thrust, PidState::default());
    assert_eq!(filters.pitch_rate.x1, 217_712_000);
    assert_eq!(filters.pitch_rate.y1, 8_230_548);
    assert_eq!(filters.pitch_attitude, IirInstWrapper::new());
    assert_eq!(
        pwr,
        RotorPower { front_left: 427_245_860, front_right: 647_277_110, aft_left: 332_722_890, aft_right: 312_754_140 }
    );
    assert_eq!([word_of(&payload, 0), word_of(&payload, 1), word_of(&payload, 2), word_of(&payload, 3)], [673, 1341, 713, 902]);
}

#[test]
fn rate_tier_yaw_follows_spin_direction() {
    let mut params = Params::default();
    params.v_pitch = 10_000_000;
    let mut rates = CtrlInputs::default();
    let mut pid = PidGroup::default();
    let mut filters = PidDerivFilters::new();
    let mut pwr = RotorPower::default();
    let mut payload = DshotPayload::new();
    let mapping = RotorMapping { frontleft_aftright_dir: RotationDir::CounterClockwise, ..RotorMapping::default() };
    run_rate_quad(
        &params,
        InputMode::Acro,
        &none(),
        &sticks(100_000_000, -50_000_000, 20_000_000, 500_000_000),
        &mut rates,
        &mut pid,
        &mut filters,
        &mut pwr,
        &mapping,
        &mut payload,
        &gentle(),
        &InputMap::default(),
        ArmStatus::Armed,
        125_000,
    );
    assert_eq!(
        pwr,
        RotorPower { front_left: 547_245_860, front_right: 527_277_110, aft_left: 212_722_890, aft_right: 432_754_140 }
    );
}

#[test]
fn rate_tier_outside_acro_mode_takes_rates_from_above() {
    let params = Params::default();
    let mut rates = CtrlInputs { pitch: SCALE, roll: 0, yaw: 0, thrust: 200_000_000 };
    let mut pid = PidGroup::default();
    let mut filters = PidDerivFilters::new();
    let mut pwr = RotorPower::default();
    let mut payload = DshotPayload::new();
    run_rate_quad(
        &params,
        InputMode::Attitude,
        &RatesCommanded { thrust: Some(600_000_000), ..none() },
        &sticks(-SCALE, -SCALE, -SCALE, SCALE),
        &mut rates,
        &mut pid,
        &mut filters,
        &mut pwr,
        &RotorMapping::default(),
        &mut payload,
        &gentle(),
        &InputMap::default(),
        ArmStatus::Disarmed,
        125_000,
    );
    assert_eq!(rates, CtrlInputs { pitch: SCALE, roll: 0, yaw: 0, thrust: 600_000_000 });
    assert_eq!(pid.pitch.p, 100_000_000);
    assert_eq!(pid.pitch.i, 31_250);
    assert_eq!(pwr.front_left, 700_031_250);
    assert_eq!(pwr.aft_left, 499_968_750);
    for m in 0..4 {
        assert_eq!(word_of(&payload, m), 48);
    }
}

#[test]
fn rate_tier_of_a_flying_wing() {
    let mut params = Params::default();
    params.v_pitch = 10_000_000;
    let mut rates = CtrlInputs::default();
    let mut pid = PidGroup::default();
    let mut filters = PidDerivFilters::new();
    let mut posits = ControlPositions::default();
    let mut payload = DshotPayload::new();
    let mapping = ServoWingMapping::default();
    let mut map = InputMap::default_flying_wing();
    map.throttle_clamped = (0, SCALE);
    let duties = run_rate_fixed_wing(
        &params,
        InputMode::Acro,
        &none(),
        &sticks(100_000_000, -50_000_000, 0, 500_000_000),
        &mut rates,
        &mut pid,
        &mut filters,
        &mut posits,
        &mapping,
        &mut payload,
        &CtrlCoeffGroup::default_flying_wing(),
        &map,
        ArmStatus::Armed,
        125_000,
    );
    assert_eq!(rates, CtrlInputs { pitch: 600_000_000, roll: -300_000_000, yaw: 0, thrust: 500_000_000 });
    assert_eq!(pid.pitch.out(), 35_400_000);
    assert_eq!(pid.roll.out(), -18_000_000);
    assert_eq!(posits, ControlPositions { motor: 500_000_000, elevon_left: -54_600_000, elevon_right: 125_400_000 });
    assert_eq!(word_of(&payload, 0), 48 + 999);
    assert_eq!(duties.s1, set_elevon_posit(ServoWing::S1, -54_600_000, &mapping));
    assert_eq!(duties.s2, set_elevon_posit(ServoWing::S2, 125_400_000, &mapping));
}

#[test]
fn attitude_tier_in_attitude_mode_runs_from_sticks() {
    let mut params = Params::default();
    params.s_pitch = 100_000_000;
    params.s_yaw_heading = 300_000_000;
    let mut att = CtrlInputs { pitch: 9, roll: 9, yaw: 9, thrust: 9 };
    let mut rates = CtrlInputs::default();
    let mut pid = PidGroup::default();
    let mut filters = PidDerivFilters::new();
    run_attitude_quad(
        &params,
        &sticks(200_000_000, -100_000_000, 50_000_000, 400_000_000),
        &InputMap::default(),
        &mut att,
        &mut rates,
        &mut pid,
        &mut filters,
        &InputMode::Attitude,
        &none(),
        &gentle(),
    );
    assert_eq!(att, CtrlInputs { pitch: 314_159_265, roll: -157_079_633, yaw: 500_000_000, thrust: 400_000_000 });
    assert_eq!(pid.pitch, PidState { measurement: 100_000_000, e: 214_159_265, p: 428_318_530, i: -28_318_530, d: 0 });
    assert_eq!(pid.roll, PidState { measurement: 0, e: -157_079_633, p: -314_159_266, i: -49_087, d: 0 });
    assert_eq!(rates, CtrlInputs { pitch: 400_000_000, roll: -314_208_353, yaw: 20_000_000, thrust: 40_000_000 });
}

#[test]
fn attitude_tier_takes_the_autopilots_set_points() {
    let params = Params::default();
    let mut att = CtrlInputs { pitch: 100_000_000, roll: 200_000_000, yaw: 300_000_000, thrust: 400_000_000 };
    let mut rates = CtrlInputs::default();
    let mut pid = PidGroup::default();
    let mut filters = PidDerivFilters::new();
    let ap = RatesCommanded { pitch: Some(0), roll: None, yaw: Some(-SCALE), thrust: None };
    run_attitude_quad(
        &params,
        &sticks(SCALE, SCALE, SCALE, SCALE),
        &InputMap::default(),
        &mut att,
        &mut rates,
        &mut pid,
        &mut filters,
        &InputMode::Command,
        &ap,
        &gentle(),
    );
    assert_eq!(att, CtrlInputs { pitch: 0, roll: 200_000_000, yaw: -SCALE, thrust: 400_000_000 });
    assert_eq!(rates.pitch, 0);
    assert_eq!(rates.yaw, -100_000_000);
}

fn velocity_tick(
    params: &Params,
    ch: &ChannelData,
    vel: &mut CtrlInputs,
    mode: InputMode,
    ap: &AutopilotStatus,
    commands: &mut CommandState,
) -> (CtrlInputs, PidGroup) {
    let mut att = CtrlInputs::default();
    let mut pid = PidGroup::default();
    run_velocity(
        params,
        ch,
        &InputMap::default(),
        vel,
        &mut att,
        &mut pid,
        &mode,
        ap,
        20 * SCALE,
        commands,
        &gentle(),
    );
    (att, pid)
}

#[test]
fn velocity_tier_turns_velocity_error_into_attitude() {
    let mut params = Params::default();
    params.s_x = 5 * SCALE;
    params.v_y = 500_000_000;
    let mut vel = CtrlInputs { pitch: 2 * SCALE, roll: 0, yaw: 0, thrust: 0 };
    let mut commands = CommandState::default();
    let (att, pid) = velocity_tick(
        &params,
        &sticks(0, 0, 0, 0),
        &mut vel,
        InputMode::Command,
        &AutopilotStatus::new(),
        &mut commands,
    );
    assert_eq!(pid.pitch, PidState { measurement: 500_000_000, e: 1_500_000_000, p: 150_000_000, i: 0, d: 0 });
    assert_eq!(att, CtrlInputs { pitch: 150_000_000, roll: 0, yaw: 0, thrust: 0 });
    assert!(!commands.loiter_set);
    assert_eq!(DT_ATTITUDE, 625_000);
}

#[test]
fn velocity_tier_holds_a_position_near_the_origin() {
    let mut params = Params::default();
    params.s_x = 3_000_000;
    params.s_y = -4_000_000;
    params.v_x = 7 * SCALE;
    let mut vel = CtrlInputs::default();
    let mut commands = CommandState::default();
    let (_, pid) = velocity_tick(
        &params,
        &sticks(0, 0, 0, 0),
        &mut vel,
        InputMode::Command,
        &AutopilotStatus::new(),
        &mut commands,
    );
    assert!(commands.loiter_set);
    assert_eq!((commands.x, commands.y), (3_000_000, -4_000_000));
    assert_eq!(pid.roll.measurement, 3_000_000);
    assert_eq!(pid.pitch.measurement, -4_000_000);

    params.s_x = 1_000_000;
    let (_, pid) = velocity_tick(
        &params,
        &sticks(0, 0, 0, 0),
        &mut vel,
        InputMode::Command,
        &AutopilotStatus::new(),
        &mut commands,
    );
    assert_eq!(commands.x, 3_000_000);
    assert_eq!(pid.roll.measurement, 3_000_000);

    let (_, _) = velocity_tick(
        &params,
        &sticks(20_000_000, 0, 0, 0),
        &mut vel,
        InputMode::Command,
        &AutopilotStatus::new(),
        &mut commands,
    );
    assert_eq!(commands.x, 1_000_000);
    assert!(commands.loiter_set);
}

#[test]
fn velocity_tier_set_points_by_behaviour() {
    let mut params = Params::default();
    params.s_x = 5 * SCALE;
    params.baro_alt_msl = 90 * SCALE;
    params.tof_alt = Some(8 * SCALE);
    let base = CtrlInputs { pitch: 1, roll: 2, yaw: 3, thrust: 4 };
    let ch = sticks(0, 0, 0, 0);

    let mut ap = AutopilotStatus::new();
    ap.alt_hold = Some((AltType::Msl, 93 * SCALE));
    let mut vel = base;
    velocity_tick(&params, &ch, &mut vel, InputMode::Attitude, &ap, &mut CommandState::default());
    assert_eq!(vel, CtrlInputs { thrust: 3 * SCALE, ..base });

    ap.alt_hold = Some((AltType::Agl, 5 * SCALE));
    let mut vel = base;
    velocity_tick(&params, &ch, &mut vel, InputMode::Attitude, &ap, &mut CommandState::default());
    assert_eq!(vel, CtrlInputs { thrust: -3 * SCALE, ..base });

    let mut no_tof = params;
    no_tof.tof_alt = None;
    let mut vel = base;
    velocity_tick(&no_tof, &ch, &mut vel, InputMode::Attitude, &ap, &mut CommandState::default());
    assert_eq!(vel, base);

    ap.takeoff = true;
    let mut vel = base;
    velocity_tick(&params, &ch, &mut vel, InputMode::Attitude, &ap, &mut CommandState::default());
    assert_eq!(vel, CtrlInputs { thrust: -3 * SCALE, ..base });
    let mut low = params;
    low.tof_alt = Some(SCALE);
    let mut vel = base;
    velocity_tick(&low, &ch, &mut vel, InputMode::Command, &ap, &mut CommandState::default());
    assert_eq!(vel, CtrlInputs { pitch: 0, roll: 0, yaw: 0, thrust: 500_000_000 });

    ap.land = Some(flight_core::autopilot::LandingCfg {
        descent_starting_alt_msl: 0,
        descent_speed: SCALE,
        touchdown_point: flight_core::flight_ctrls::common::Location::default(),
        heading: 0,
        glideslope: 0,
        ground_speed: 0,
        angle_of_attack: 0,
        flare_alt_agl: 0,
        min_ground_track: 0,
    });
    let mut vel = base;
    velocity_tick(&params, &ch, &mut vel, InputMode::Command, &ap, &mut CommandState::default());
    assert_eq!(vel, CtrlInputs { pitch: 0, roll: 0, yaw: 0, thrust: -2 * SCALE });

    ap.recover = Some(200 * SCALE);
    let mut vel = base;
    velocity_tick(&params, &ch, &mut vel, InputMode::Command, &ap, &mut CommandState::default());
    assert_eq!(vel, CtrlInputs { pitch: 0, roll: 0, yaw: 0, thrust: 20 * SCALE });
}

#[test]
fn switching_mode_resets_the_integrators_of_a_tier_that_starts() {
    let s = PidState { measurement: 1, e: 2, p: 3, i: 4, d: 5 };
    let wound = PidGroup { pitch: s, roll: s, yaw: s, thrust: s };
    let z = PidState { i: 0, ..s };
    let reset = PidGroup { pitch: z, roll: z, yaw: z, thrust: z };
    let cases = [
        (InputMode::Acro, InputMode::Acro, wound, wound),
        (InputMode::Acro, InputMode::Attitude, reset, wound),
        (InputMode::Acro, InputMode::Command, reset, reset),
        (InputMode::Attitude, InputMode::Acro, wound, wound),
        (InputMode::Attitude, InputMode::Attitude, wound, wound),
        (InputMode::Attitude, InputMode::Command, wound, reset),
        (InputMode::Command, InputMode::Acro, wound, wound),
        (InputMode::Command, InputMode::Attitude, wound, wound),
        (InputMode::Command, InputMode::Command, wound, wound),
    ];
    for (from, to, want_attitude, want_velocity) in cases {
        let mut mode = from;
        let mut attitude = wound;
        let mut velocity = wound;
        set_input_mode(to, &mut mode, &mut attitude, &mut velocity);
        assert_eq!(mode, to);
        assert_eq!(attitude, want_attitude, "attitude tier, {:?} to {:?}", from, to);
        assert_eq!(velocity, want_velocity, "velocity tier, {:?} to {:?}", from, to);
    }
}

#[test]
fn input_mode_follows_switch_and_autopilot() {
    assert_eq!(select_input_mode(InputModeSwitch::Acro, AutopilotMode::Manual), InputMode::Acro);
    assert_eq!(select_input_mode(InputModeSwitch::AttitudeCommand, AutopilotMode::Manual), InputMode::Attitude);
    for mode in [
        AutopilotMode::Recover,
        AutopilotMode::Land,
        AutopilotMode::DirectToPoint,
        AutopilotMode::Loiter,
        AutopilotMode::Takeoff,
    ] {
        assert_eq!(select_input_mode(InputModeSwitch::Acro, mode), InputMode::Command);
        assert_eq!(select_input_mode(InputModeSwitch::AttitudeCommand, mode), InputMode::Command);
    }
}

struct Tiers {
    velocities: CtrlInputs,
    attitudes: CtrlInputs,
    rates: CtrlInputs,
    pid_velocity: PidGroup,
    pid_attitude: PidGroup,
    filters: PidDerivFilters,
    commands: CommandState,
}

fn tiers() -> Tiers {
    Tiers {
        velocities: CtrlInputs { pitch: 2 * SCALE, roll: 0, yaw: 0, thrust: 0 },
        attitudes: CtrlInputs { pitch: 50_000_000, roll: 0, yaw: 0, thrust: 0 },
        rates: CtrlInputs { pitch: 7, roll: 8, yaw: 9, thrust: 10 },
        pid_velocity: PidGroup::default(),
        pid_attitude: PidGroup::default(),
        filters: PidDerivFilters::new(),
        commands: CommandState::default(),
    }
}

fn outer(t: &mut Tiers, mode: InputMode, multirotor: bool) {
    let mut params = Params::default();
    params.s_x = 5 * SCALE;
    params.v_y = 500_000_000;
    run_outer_tiers(
        &params,
        &sticks(200_000_000, 0, 0, 400_000_000),
        &InputMap::default(),
        &mut t.velocities,
        &mut t.attitudes,
        &mut t.rates,
        &mut t.pid_velocity,
        &mut t.pid_attitude,
        &mut t.filters,
        mode,
        multirotor,
        &AutopilotStatus::new(),
        &none(),
        20 * SCALE,
        &mut t.commands,
        &gentle(),
    );
}

#[test]
fn in_acro_mode_no_outer_tier_runs() {
    for multirotor in [true, false] {
        let mut t = tiers();
        outer(&mut t, InputMode::Acro, multirotor);
        assert_eq!(t.velocities, tiers().velocities);
        assert_eq!(t.attitudes, tiers().attitudes);
        assert_eq!(t.rates, tiers().rates);
        assert_eq!(t.pid_velocity, PidGroup::default());
        assert_eq!(t.pid_attitude, PidGroup::default());
        assert_eq!(t.filters, PidDerivFilters::new());
        assert_eq!(t.commands, CommandState::default());
    }
}

#[test]
fn in_attitude_mode_only_the_attitude_tier_runs() {
    let mut t = tiers();
    outer(&mut t, InputMode::Attitude, true);
    assert_eq!(t.velocities, tiers().velocities);
    assert_eq!(t.pid_velocity, PidGroup::default());
    assert_eq!(t.commands, CommandState::default());
    assert_eq!(t.attitudes, CtrlInputs { pitch: 314_159_265, roll: 0, yaw: 0, thrust: 400_000_000 });
    assert_eq!(t.pid_attitude.pitch.e, 314_159_265);
    assert_eq!(t.pid_attitude.pitch.p, 628_318_530);
    assert_eq!(t.rates, CtrlInputs { pitch: 400_000_000, roll: 0, yaw: 0, thrust: 40_000_000 });
}

#[test]
fn in_command_mode_the_velocity_tier_feeds_the_attitude_tier() {
    let mut t = tiers();
    outer(&mut t, InputMode::Command, true);
    assert_eq!(t.pid_velocity.pitch, PidState { measurement: 500_000_000, e: 1_500_000_000, p: 150_000_000, i: 0, d: 0 });
    assert_eq!(t.attitudes, CtrlInputs { pitch: 150_000_000, roll: 0, yaw: 0, thrust: 0 });
    assert_eq!(t.pid_attitude.pitch.e, 150_000_000);
    assert_eq!(t.pid_attitude.pitch.p, 300_000_000);
    assert_eq!(t.pid_attitude.pitch.i, 46_875);
    assert_eq!(t.rates, CtrlInputs { pitch: 300_046_875, roll: 0, yaw: 0, thrust: 0 });
}

#[test]
fn a_flying_wing_has_no_attitude_tier() {
    let mut t = tiers();
    outer(&mut t, InputMode::Attitude, false);
    assert_eq!(t.attitudes, tiers().attitudes);
    assert_eq!(t.rates, tiers().rates);
    assert_eq!(t.pid_attitude, PidGroup::default());
    assert_eq!(t.filters, PidDerivFilters::new());

    let mut t = tiers();
    outer(&mut t, InputMode::Command, false);
    assert_eq!(t.pid_velocity.pitch.p, 150_000_000);
    assert_eq!(t.attitudes, CtrlInputs { pitch: 150_000_000, roll: 0, yaw: 0, thrust: 0 });
    assert_eq!(t.rates, tiers().rates);
    assert_eq!(t.pid_attitude, PidGroup::default());
    assert_eq!(t.filters, PidDerivFilters::new());
}
