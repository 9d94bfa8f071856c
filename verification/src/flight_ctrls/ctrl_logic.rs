//! Bookkeeping for controls that aim at an attitude: what angular
//! acceleration the rotors gave at which speed, and the corrections derived
//! from it.

use vstd::prelude::*;
use crate::fixed::{abs, abs_spec, add_spec, div_spec, mul_spec, sqrt_spec, sub_spec};
use crate::fixed::{fx_add, fx_div, fx_mul, fx_sqrt, fx_sub};
use crate::flight_ctrls::common::{finite_difference, CtrlMix, Params};
use crate::flight_ctrls::flying_wing::{clamped_positions, mixed_positions, ControlPositions};
use crate::flight_ctrls::quad::{clamped_power, mixed_power, RotationDir, RotorPower};
use crate::pid::{filter_advance, filter_output, IirInstWrapper};

verus! {

/// Below this, an angular rate or a time counts as zero.
pub const EPS: i64 = 1_000;

/// No motor turns slower than this, revolutions per minute.
pub const IDLE_RPM: i64 = 100_000_000_000;

/// Angular acceleration logged against rotor speed, in eleven bands of speed.
/// Each entry holds the speed and the acceleration that were logged last in
/// its band.
#[derive(Clone, Copy, Debug, PartialEq, Eq)]
pub struct RpmToAccel {
    pub r_0: (i64, i64),
    pub r_1k: (i64, i64),
    pub r_2k: (i64, i64),
    pub r_3k: (i64, i64),
    pub r_4k: (i64, i64),
    pub r_5k: (i64, i64),
    pub r_6k: (i64, i64),
    pub r_7k: (i64, i64),
    pub r_8k: (i64, i64),
    pub r_9k: (i64, i64),
    pub r_10k: (i64, i64),
}

/// The band that a speed falls in: band `k` reaches up to, and not
/// including, `k + 1` tenths; the last band has no upper end.
pub open spec fn band_of(rpm: i64) -> int {
    if rpm < 100_000_000 {
        0
    } else if rpm < 200_000_000 {
        1
    } else if rpm < 300_000_000 {
        2
    } else if rpm < 400_000_000 {
        3
    } else if rpm < 500_000_000 {
        4
    } else if rpm < 600_000_000 {
        5
    } else if rpm < 700_000_000 {
        6
    } else if rpm < 800_000_000 {
        7
    } else if rpm < 900_000_000 {
        8
    } else if rpm < 1_000_000_000 {
        9
    } else {
        10
    }
}

impl RpmToAccel {
    /// The entry of a band.
    pub open spec fn band(self, k: int) -> (i64, i64) {
        if k == 0 {
            self.r_0
        } else if k == 1 {
            self.r_1k
        } else if k == 2 {
            self.r_2k
        } else if k == 3 {
            self.r_3k
        } else if k == 4 {
            self.r_4k
        } else if k == 5 {
            self.r_5k
        } else if k == 6 {
            self.r_6k
        } else if k == 7 {
            self.r_7k
        } else if k == 8 {
            self.r_8k
        } else if k == 9 {
            self.r_9k
        } else {
            self.r_10k
        }
    }

    /// The log with every entry zero.
    pub open spec fn zeroed() -> RpmToAccel {
        RpmToAccel {
            r_0: (0, 0),
            r_1k: (0, 0),
            r_2k: (0, 0),
            r_3k: (0, 0),
            r_4k: (0, 0),
            r_5k: (0, 0),
            r_6k: (0, 0),
            r_7k: (0, 0),
            r_8k: (0, 0),
            r_9k: (0, 0),
            r_10k: (0, 0),
        }
    }

    /// A log with every entry zero.
    pub fn new() -> (r: Self)
        ensures
            r == RpmToAccel::zeroed(),
    {
        RpmToAccel {
            r_0: (0, 0),
            r_1k: (0, 0),
            r_2k: (0, 0),
            r_3k: (0, 0),
            r_4k: (0, 0),
            r_5k: (0, 0),
            r_6k: (0, 0),
            r_7k: (0, 0),
            r_8k: (0, 0),
            r_9k: (0, 0),
            r_10k: (0, 0),
        }
    }

    /// The angular acceleration to expect at a rotor speed. Nothing is
    /// derived from the log yet: the answer is zero at every speed.
    pub fn rpm_to_angular_accel(&self, _rpm: i64) -> (r: i64)
        ensures
            r == 0,
    {
        0
    }

    /// Log an angular acceleration against a rotor speed: the entry of the
    /// band that the speed falls in is replaced, the others stay.
    pub fn log_val(&mut self, rpm: i64, accel: i64)
        ensures
            final(self).band(band_of(rpm)) == (rpm, accel),
            forall|k: int| 0 <= k <= 10 && k != band_of(rpm) ==> #[trigger] final(self).band(k) == old(self).band(k),
    {
        if rpm < 100_000_000 {
            self.r_0 = (rpm, accel);
        } else if rpm < 200_000_000 {
            self.r_1k = (rpm, accel);
        } else if rpm < 300_000_000 {
            self.r_2k = (rpm, accel);
        } else if rpm < 400_000_000 {
            self.r_3k = (rpm, accel);
        } else if rpm < 500_000_000 {
            self.r_4k = (rpm, accel);
        } else if rpm < 600_000_000 {
            self.r_5k = (rpm, accel);
        } else if rpm < 700_000_000 {
            self.r_6k = (rpm, accel);
        } else if rpm < 800_000_000 {
            self.r_7k = (rpm, accel);
        } else if rpm < 900_000_000 {
            self.r_8k = (rpm, accel);
        } else if rpm < 1_000_000_000 {
            self.r_9k = (rpm, accel);
        } else {
            self.r_10k = (rpm, accel);
        }
    }
}

impl Default for RpmToAccel {
    fn default() -> (r: Self)
        ensures
            r == RpmToAccel::zeroed(),
    {
        RpmToAccel::new()
    }
}

/// The logs of the three angular axes.
#[derive(Clone, Copy, Debug, PartialEq, Eq)]
pub struct PowerMaps {
    pub rpm_to_accel_pitch: RpmToAccel,
    pub rpm_to_accel_roll: RpmToAccel,
    pub rpm_to_accel_yaw: RpmToAccel,
}

impl Default for PowerMaps {
    fn default() -> (r: Self)
        ensures
            r == (PowerMaps {
                rpm_to_accel_pitch: RpmToAccel::zeroed(),
                rpm_to_accel_roll: RpmToAccel::zeroed(),
                rpm_to_accel_yaw: RpmToAccel::zeroed(),
            }),
    {
        PowerMaps {
            rpm_to_accel_pitch: RpmToAccel::new(),
            rpm_to_accel_roll: RpmToAccel::new(),
            rpm_to_accel_yaw: RpmToAccel::new(),
        }
    }
}

/// How fast a correction of attitude is to be made.
#[derive(Clone, Copy, Debug, PartialEq, Eq, Structural)]
pub struct CtrlCoeffs {
    /// Seconds to correct one radian, where no correction with a steady
    /// change of acceleration exists.
    pub ttc_per_dtheta: i64,
    /// Seconds per radian above which a correction counts as too slow.
    pub max_ttc_per_dtheta: i64,
}

impl Default for CtrlCoeffs {
    /// The values for a multirotor.
    fn default() -> (r: Self)
        ensures
            r == (CtrlCoeffs { ttc_per_dtheta: 300_000_000, max_ttc_per_dtheta: 500_000_000 }),
    {
        CtrlCoeffs { ttc_per_dtheta: 300_000_000, max_ttc_per_dtheta: 500_000_000 }
    }
}

impl CtrlCoeffs {
    /// The values for a fixed wing.
    pub fn default_fixed_wing() -> (r: Self)
        ensures
            r == (CtrlCoeffs { ttc_per_dtheta: 500_000_000, max_ttc_per_dtheta: 700_000_000 }),
    {
        CtrlCoeffs { ttc_per_dtheta: 500_000_000, max_ttc_per_dtheta: 700_000_000 }
    }
}

/// The coefficient `c` of a drag that slows a rotation by `c` times its
/// rate, from a measured rate and acceleration and the acceleration that was
/// commanded: `-(measured - commanded) / rate`.
pub open spec fn drag_coeff_spec(omega_meas: i64, omega_dot_meas: i64, omega_dot_commanded: i64) -> int {
    if abs_spec(omega_meas as int) < EPS {
        0
    } else {
        div_spec(
            sub_spec(omega_dot_commanded as int, omega_dot_meas as int),
            omega_meas as int,
        )
    }
}

/// Estimate the drag coefficient of a rotation. At a rate too close to zero
/// to divide by, drag has no effect to measure and the estimate is zero.
pub fn calc_drag_coeff(omega_meas: i64, omega_dot_meas: i64, omega_dot_commanded: i64) -> (r: i64)
    ensures
        r == drag_coeff_spec(omega_meas, omega_dot_meas, omega_dot_commanded),
{
    if abs(omega_meas) < EPS {
        0
    } else {
        fx_div(fx_sub(omega_dot_commanded, omega_dot_meas), omega_meas)
    }
}

/// The time given to a correction of `dtheta`.
pub open spec fn time_to_correction(dtheta: i64, ttc_per_dtheta: i64) -> int {
    mul_spec(ttc_per_dtheta as int, abs_spec(dtheta as int))
}

/// The angular acceleration at the start of a correction of `dtheta` from
/// the rate `omega` that takes the time `ttc` and changes its acceleration
/// steadily: `-(6 dtheta + 4 ttc omega) / ttc^2`.
pub open spec fn omega_dot_spec(dtheta: i64, omega: i64, ttc_per_dtheta: i64) -> int {
    let ttc = time_to_correction(dtheta, ttc_per_dtheta);
    if mul_spec(ttc, ttc) == 0 {
        0
    } else {
        sub_spec(
            0,
            div_spec(
                add_spec(mul_spec(6_000_000_000, dtheta as int), mul_spec(mul_spec(4_000_000_000, ttc), omega as int)),
                mul_spec(ttc, ttc),
            ),
        )
    }
}

/// The angular acceleration with which to start a correction of `dtheta`
/// radians from the rate `omega`, given the time allowed per radian. Where
/// the square of the time comes out as zero there is nothing to divide by,
/// and next to nothing to correct: the answer is zero.
pub fn omega_dot_from_ttc(dtheta: i64, omega: i64, ttc_per_dtheta: i64) -> (r: i64)
    ensures
        r == omega_dot_spec(dtheta, omega, ttc_per_dtheta),
{
    let ttc = fx_mul(ttc_per_dtheta, abs(dtheta));
    let ttc_sq = fx_mul(ttc, ttc);
    if ttc_sq == 0 {
        return 0;
    }
    let num = fx_add(fx_mul(6_000_000_000, dtheta), fx_mul(fx_mul(4_000_000_000, ttc), omega));
    fx_sub(0, fx_div(num, ttc_sq))
}

/// The time that a correction of `dtheta` takes if the angular acceleration
/// changes steadily from what it is now, if there is such a correction.
///
/// Without acceleration the time is `3 dtheta / (2 omega_0)`, and there is
/// none at rest. With acceleration `a` it is a root of a quadratic: with
/// `inner = 4 omega_0^2 - 6 a dtheta`, none if `inner` is negative, else
/// `-(sqrt(inner) + 2 omega_0) / a`, or, if that is negative,
/// `(sqrt(inner) - 2 omega_0) / a`.
pub open spec fn correction_time(dtheta: i64, omega_0: i64, omega_dot_meas: i64) -> Option<int> {
    let two_omega = mul_spec(2_000_000_000, omega_0 as int);
    if abs_spec(omega_dot_meas as int) < EPS {
        if two_omega == 0 {
            None
        } else {
            Some(div_spec(mul_spec(3_000_000_000, dtheta as int), two_omega))
        }
    } else {
        let inner = sub_spec(
            mul_spec(4_000_000_000, mul_spec(omega_0 as int, omega_0 as int)),
            mul_spec(mul_spec(6_000_000_000, omega_dot_meas as int), dtheta as int),
        );
        if inner < 0 {
            None
        } else {
            let root = sqrt_spec(inner);
            let t_a = sub_spec(0, div_spec(add_spec(root, two_omega), omega_dot_meas as int));
            let t_b = div_spec(sub_spec(root, two_omega), omega_dot_meas as int);
            if t_a < 0 {
                Some(t_b)
            } else {
                Some(t_a)
            }
        }
    }
}

/// The cube of a time.
pub open spec fn cubed(t: int) -> int {
    mul_spec(mul_spec(t, t), t)
}

/// The angular acceleration to aim at. Where a correction with a steady
/// change of acceleration exists and is not too slow, it is the measured
/// acceleration plus the change `6 (2 dtheta + ttc omega_0) / ttc^3`;
/// otherwise it is the start of a correction in the time allowed per radian.
pub open spec fn target_acceleration(dtheta: i64, omega_0: i64, omega_dot_meas: i64, coeffs: CtrlCoeffs) -> int {
    match correction_time(dtheta, omega_0, omega_dot_meas) {
        Some(ttc) => if ttc > mul_spec(coeffs.max_ttc_per_dtheta as int, dtheta as int) || cubed(ttc) == 0 {
            omega_dot_spec(dtheta, omega_0, coeffs.ttc_per_dtheta)
        } else {
            add_spec(
                omega_dot_meas as int,
                div_spec(
                    mul_spec(
                        6_000_000_000,
                        add_spec(mul_spec(2_000_000_000, dtheta as int), mul_spec(ttc, omega_0 as int)),
                    ),
                    cubed(ttc),
                ),
            )
        },
        None => omega_dot_spec(dtheta, omega_0, coeffs.ttc_per_dtheta),
    }
}

/// How much angular acceleration the last command bought per unit of
/// command, before filtering: one for one where there was no command.
pub open spec fn effectiveness(omega_dot_meas: i64, ctrl_cmd_prev: i64) -> int {
    if ctrl_cmd_prev == 0 {
        1_000_000_000
    } else {
        div_spec(omega_dot_meas as int, ctrl_cmd_prev as int)
    }
}

/// The command on one axis for the target acceleration, given the filtered
/// effectiveness: the acceleration itself where the effectiveness is zero.
pub open spec fn ctrl_setting(target: int, filtered_effectiveness: int) -> int {
    if filtered_effectiveness == 0 {
        target
    } else {
        div_spec(target, filtered_effectiveness)
    }
}

/// The command on one axis that corrects an attitude error of `dtheta`
/// radians, from the measured rate `omega_0` and acceleration
/// `omega_dot_meas` and the last command. The effectiveness of the last
/// command passes through `filter` before the target acceleration is divided
/// by it.
pub fn find_ctrl_setting(
    dtheta: i64,
    omega_0: i64,
    omega_dot_meas: i64,
    ctrl_cmd_prev: i64,
    coeffs: &CtrlCoeffs,
    filter: &mut IirInstWrapper,
) -> (r: i64)
    ensures
        *final(filter) == filter_advance(
            *old(filter),
            effectiveness(omega_dot_meas, ctrl_cmd_prev) as i64,
            filter_output(*old(filter), effectiveness(omega_dot_meas, ctrl_cmd_prev)) as i64,
        ),
        r == ctrl_setting(
            target_acceleration(dtheta, omega_0, omega_dot_meas, *coeffs),
            filter_output(*old(filter), effectiveness(omega_dot_meas, ctrl_cmd_prev)),
        ),
{
    let two_omega = fx_mul(2_000_000_000, omega_0);
    let t: Option<i64> = if abs(omega_dot_meas) < EPS {
        if two_omega == 0 {
            None
        } else {
            Some(fx_div(fx_mul(3_000_000_000, dtheta), two_omega))
        }
    } else {
        let inner = fx_sub(
            fx_mul(4_000_000_000, fx_mul(omega_0, omega_0)),
            fx_mul(fx_mul(6_000_000_000, omega_dot_meas), dtheta),
        );
        if inner < 0 {
            None
        } else {
            let root = fx_sqrt(inner);
            let t_a = fx_sub(0, fx_div(fx_add(root, two_omega), omega_dot_meas));
            let t_b = fx_div(fx_sub(root, two_omega), omega_dot_meas);
            if t_a < 0 {
                Some(t_b)
            } else {
                Some(t_a)
            }
        }
    };
    let omega_dot_target = match t {
        Some(ttc) => {
            let ttc_cubed = fx_mul(fx_mul(ttc, ttc), ttc);
            if ttc > fx_mul(coeffs.max_ttc_per_dtheta, dtheta) || ttc_cubed == 0 {
                omega_dot_from_ttc(dtheta, omega_0, coeffs.ttc_per_dtheta)
            } else {
                let omega_dot_dot = fx_div(
                    fx_mul(6_000_000_000, fx_add(fx_mul(2_000_000_000, dtheta), fx_mul(ttc, omega_0))),
                    ttc_cubed,
                );
                fx_add(omega_dot_meas, omega_dot_dot)
            }
        },
        None => omega_dot_from_ttc(dtheta, omega_0, coeffs.ttc_per_dtheta),
    };
    let ctrl_effectiveness = if ctrl_cmd_prev == 0 {
        1_000_000_000
    } else {
        fx_div(omega_dot_meas, ctrl_cmd_prev)
    };
    let ctrl_effectiveness = filter.apply(ctrl_effectiveness);
    if ctrl_effectiveness == 0 {
        omega_dot_target
    } else {
        fx_div(omega_dot_target, ctrl_effectiveness)
    }
}

/// The filters of the control effectiveness, one for each angular axis.
#[derive(Clone, Copy, Debug, PartialEq, Eq, Structural)]
pub struct FlightCtrlFilters {
    pub pitch: IirInstWrapper,
    pub roll: IirInstWrapper,
    pub yaw: IirInstWrapper,
}

impl FlightCtrlFilters {
    /// Three filters at rest.
    pub fn new() -> (r: Self)
        ensures
            r == (FlightCtrlFilters {
                pitch: crate::pid::filter_at_rest(),
                roll: crate::pid::filter_at_rest(),
                yaw: crate::pid::filter_at_rest(),
            }),
    {
        FlightCtrlFilters { pitch: IirInstWrapper::new(), roll: IirInstWrapper::new(), yaw: IirInstWrapper::new() }
    }
}

/// The command on one axis and the filter after it, for the rotation `rot`
/// still to be made on that axis.
pub open spec fn axis_setting(
    rot: i64,
    rate: i64,
    rate_prev: i64,
    cmd_prev: i64,
    coeffs: CtrlCoeffs,
    filter: IirInstWrapper,
    dt: i64,
) -> (i64, IirInstWrapper) {
    let accel = finite_difference(rate, rate_prev, dt) as i64;
    let eff = effectiveness(accel, cmd_prev);
    (
        ctrl_setting(target_acceleration(rot, rate, accel, coeffs), filter_output(filter, eff)) as i64,
        filter_advance(filter, eff as i64, filter_output(filter, eff) as i64),
    )
}

/// The efforts on the three angular axes that make the rotation `rot`,
/// given as its pitch, roll and yaw angles, and the filters after them. A
/// flying wing has no yaw control and takes no yaw effort.
pub open spec fn efforts_for(
    rot: (i64, i64, i64),
    throttle: i64,
    with_yaw: bool,
    params: Params,
    params_prev: Params,
    mix_prev: CtrlMix,
    coeffs: CtrlCoeffs,
    filters: FlightCtrlFilters,
    dt: i64,
) -> (CtrlMix, FlightCtrlFilters) {
    let pitch = axis_setting(rot.0, params.v_pitch, params_prev.v_pitch, mix_prev.pitch, coeffs, filters.pitch, dt);
    let roll = axis_setting(rot.1, params.v_roll, params_prev.v_roll, mix_prev.roll, coeffs, filters.roll, dt);
    let yaw = axis_setting(rot.2, params.v_yaw, params_prev.v_yaw, mix_prev.yaw, coeffs, filters.yaw, dt);
    if with_yaw {
        (
            CtrlMix { pitch: pitch.0, roll: roll.0, yaw: yaw.0, throttle },
            FlightCtrlFilters { pitch: pitch.1, roll: roll.1, yaw: yaw.1 },
        )
    } else {
        (
            CtrlMix { pitch: pitch.0, roll: roll.0, yaw: 0, throttle },
            FlightCtrlFilters { pitch: pitch.1, roll: roll.1, yaw: filters.yaw },
        )
    }
}

/// The efforts, and the rotor powers they mix into, that turn a multirotor
/// by the rotation `rot` from its current attitude to the target attitude.
/// The rotation is given by its pitch, roll and yaw angles; the angular
/// accelerations are the change of the rates since the last cycle.
pub fn rotor_rpms_from_att(
    rot: (i64, i64, i64),
    throttle: i64,
    front_left_dir: RotationDir,
    params: &Params,
    params_prev: &Params,
    mix_prev: &CtrlMix,
    coeffs: &CtrlCoeffs,
    filters: &mut FlightCtrlFilters,
    dt: i64,
) -> (r: (CtrlMix, RotorPower))
    requires
        dt > 0,
    ensures
        (r.0, *final(filters)) == efforts_for(
            rot,
            throttle,
            true,
            *params,
            *params_prev,
            *mix_prev,
            *coeffs,
            *old(filters),
            dt,
        ),
        r.1 == clamped_power(mixed_power(r.0, front_left_dir)),
{
    let ang_accel_pitch = fx_div(fx_sub(params.v_pitch, params_prev.v_pitch), dt);
    let ang_accel_roll = fx_div(fx_sub(params.v_roll, params_prev.v_roll), dt);
    let ang_accel_yaw = fx_div(fx_sub(params.v_yaw, params_prev.v_yaw), dt);
    let pitch = find_ctrl_setting(rot.0, params.v_pitch, ang_accel_pitch, mix_prev.pitch, coeffs, &mut filters.pitch);
    let roll = find_ctrl_setting(rot.1, params.v_roll, ang_accel_roll, mix_prev.roll, coeffs, &mut filters.roll);
    let yaw = find_ctrl_setting(rot.2, params.v_yaw, ang_accel_yaw, mix_prev.yaw, coeffs, &mut filters.yaw);
    let mix_new = CtrlMix { pitch, roll, yaw, throttle };
    let power = RotorPower::from_cmds(&mix_new, front_left_dir);
    (mix_new, power)
}

/// The efforts, and the settings of motor and elevons they mix into, that
/// turn a flying wing by the rotation `rot` from its current attitude to the
/// target attitude. Yaw is left to the coupling with roll.
pub fn control_posits_from_att(
    rot: (i64, i64, i64),
    throttle: i64,
    params: &Params,
    params_prev: &Params,
    mix_prev: &CtrlMix,
    coeffs: &CtrlCoeffs,
    filters: &mut FlightCtrlFilters,
    dt: i64,
) -> (r: (CtrlMix, ControlPositions))
    requires
        dt > 0,
    ensures
        (r.0, *final(filters)) == efforts_for(
            rot,
            throttle,
            false,
            *params,
            *params_prev,
            *mix_prev,
            *coeffs,
            *old(filters),
            dt,
        ),
        r.1 == clamped_positions(mixed_positions(r.0.pitch, r.0.roll, r.0.throttle)),
{
    let ang_accel_pitch = fx_div(fx_sub(params.v_pitch, params_prev.v_pitch), dt);
    let ang_accel_roll = fx_div(fx_sub(params.v_roll, params_prev.v_roll), dt);
    let pitch = find_ctrl_setting(rot.0, params.v_pitch, ang_accel_pitch, mix_prev.pitch, coeffs, &mut filters.pitch);
    let roll = find_ctrl_setting(rot.1, params.v_roll, ang_accel_roll, mix_prev.roll, coeffs, &mut filters.roll);
    let mix_new = CtrlMix { pitch, roll, yaw: 0, throttle };
    let posits = ControlPositions::from_cmds(&mix_new);
    (mix_new, posits)
}

} // verus!
