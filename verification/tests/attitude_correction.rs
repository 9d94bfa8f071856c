use flight_core::fixed::{fx_sqrt, SCALE};
use flight_core::flight_ctrls::common::{CtrlMix, Params, Quaternion};
use flight_core::flight_ctrls::ctrl_logic::{
    control_posits_from_att, find_ctrl_setting, rotor_rpms_from_att, CtrlCoeffs, FlightCtrlFilters,
};
use flight_core::flight_ctrls::flying_wing::ControlPositions;
use flight_core::flight_ctrls::quad::{RotationDir, RotorPower};
use flight_core::pid::IirInstWrapper;

#[test]
fn square_roots_round_down() {
    assert_eq!(fx_sqrt(4 * SCALE), 2 * SCALE);
    assert_eq!(fx_sqrt(2 * SCALE), 1_414_213_562);
    assert_eq!(fx_sqrt(250_000_000), 500_000_000);
    assert_eq!(fx_sqrt(0), 0);
    assert_eq!(fx_sqrt(1), 31_622);
    assert_eq!(fx_sqrt(i64::MAX), 96_038_388_349_944);
}

#[test]
fn square_root_is_the_largest_whose_square_fits() {
    let mut x: i64 = 1;
    while x < i64::MAX / 3 {
        let r = fx_sqrt(x) as i128;
        let n = x as i128 * SCALE as i128;
        assert!(r * r <= n && n < (r + 1) * (r + 1));
        x = x * 3 + 7;
    }
}

fn setting(d_theta: i64, omega: i64, accel: i64, last: i64, max_ttc: i64) -> (i64, IirInstWrapper) {
    let coeffs = CtrlCoeffs { ttc_per_dtheta: 300_000_000, max_ttc_per_dtheta: max_ttc };
    let mut filter = IirInstWrapper::new();
    let r = find_ctrl_setting(d_theta, omega, accel, last, &coeffs, &mut filter);
    (r, filter)
}

#[test]
fn correction_without_acceleration_that_is_too_slow() {
    let (r, f) = setting(500_000_000, 200_000_000, 0, 100_000_000, 500_000_000);
    assert_eq!(r, -138_666_666_666);
    assert_eq!((f.x1, f.y1), (0, 0));
}

#[test]
fn correction_with_a_steady_change_of_acceleration() {
    let (r, f) = setting(100_000_000, -2 * SCALE, 3 * SCALE, 100_000_000, 5 * SCALE);
    assert_eq!(r, 525_358_766_761);
    assert_eq!((f.x1, f.y1), (30 * SCALE, 1_134_142_620));
}

#[test]
fn correction_where_no_steady_change_exists() {
    let (r, f) = setting(500_000_000, 100_000_000, 3 * SCALE, 0, 500_000_000);
    assert_eq!(r, -3_597_431_159_054);
    assert_eq!((f.x1, f.y1), (SCALE, 37_804_754));
}

#[test]
fn correction_from_rest() {
    let (r, _) = setting(500_000_000, 0, 0, 100_000_000, 500_000_000);
    assert_eq!(r, -133_333_333_333);
    let (r, _) = setting(0, 0, 0, 0, 500_000_000);
    assert_eq!(r, 0);
}

#[test]
fn correction_of_a_negative_error() {
    let (r, f) = setting(-200_000_000, SCALE, -2 * SCALE, 400_000_000, 50 * SCALE);
    assert_eq!(r, -1_410_757_317_272);
    assert_eq!(f.y1, -189_023_770);
}

#[test]
fn efforts_of_a_multirotor_from_a_rotation() {
    let mut params = Params::default();
    let mut prev = Params::default();
    params.v_pitch = 200_000_000;
    prev.v_pitch = 200_000_000;
    let mix_prev = CtrlMix { pitch: 100_000_000, roll: 100_000_000, yaw: 100_000_000, throttle: 0 };
    let coeffs = CtrlCoeffs { ttc_per_dtheta: 300_000_000, max_ttc_per_dtheta: 500_000_000 };
    let mut filters = FlightCtrlFilters::new();
    let (mix, power) = rotor_rpms_from_att(
        (500_000_000, 0, 0),
        400_000_000,
        RotationDir::Clockwise,
        &params,
        &prev,
        &mix_prev,
        &coeffs,
        &mut filters,
        10_000_000,
    );
    assert_eq!(mix, CtrlMix { pitch: -138_666_666_666, roll: 0, yaw: 0, throttle: 400_000_000 });
    assert_eq!(power, RotorPower::from_cmds(&mix, RotationDir::Clockwise));
    assert_eq!(
        power,
        RotorPower { front_left: 0, front_right: 0, aft_left: SCALE, aft_right: SCALE }
    );
    assert_eq!(filters, FlightCtrlFilters::new());
}

#[test]
fn efforts_of_a_flying_wing_leave_yaw_alone() {
    let mut params = Params::default();
    let prev = Params::default();
    params.v_roll = 30_000_000;
    let mix_prev = CtrlMix { pitch: 0, roll: 100_000_000, yaw: 100_000_000, throttle: 0 };
    let coeffs = CtrlCoeffs::default_fixed_wing();
    let mut filters = FlightCtrlFilters::new();
    let (mix, posits) = control_posits_from_att(
        (0, 100_000_000, 700_000_000),
        600_000_000,
        &params,
        &prev,
        &mix_prev,
        &coeffs,
        &mut filters,
        10_000_000,
    );
    assert_eq!(mix.yaw, 0);
    assert_eq!(mix.pitch, 0);
    assert_eq!(mix.throttle, 600_000_000);
    assert_eq!(posits, ControlPositions::from_cmds(&mix));
    assert_eq!(filters.yaw, IirInstWrapper::new());
    assert_eq!(filters.roll.x1, 30 * SCALE);
    assert_eq!(filters.pitch.x1, SCALE);
}

#[test]
fn quaternion_products() {
    let a = Quaternion::new(707_106_781, 707_106_781, 0, 0);
    let b = Quaternion::new(707_106_781, 0, 707_106_781, 0);
    assert_eq!(a.mul(b), Quaternion::new(499_999_999, 499_999_999, 499_999_999, 499_999_999));
    assert_eq!(a.inverse(), Quaternion::new(707_106_781, -707_106_781, 0, 0));
    assert_eq!(a.mul(a.inverse()), Quaternion::new(999_999_998, 0, 0, 0));
    let one = Quaternion::default();
    assert_eq!(one.mul(b), b);
    assert_eq!(b.mul(one), b);
}
