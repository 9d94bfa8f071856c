//! The control loops: the PID primitive shared by every axis with its
//! derivative filter, the gains, and the three tiers built from it: velocity
//! (outer), attitude (middle) and angular rate (inner).

use vstd::prelude::*;
use crate::fixed::{add_spec, sub_spec, mul_spec, div_spec, saturate, trunc_div};
use crate::fixed::{fx_add, fx_sub, fx_mul, fx_div, fx_div_int, SCALE};
use crate::flight_ctrls::quad::{MAX_ROTOR_POWER, RotorMapping, RotorPower, mixed_power, clamped_power, payload_for};
use crate::flight_ctrls::quad;
use crate::flight_ctrls::flying_wing;
use crate::flight_ctrls::flying_wing::{ControlPositions, ServoDuties, ServoWingMapping};
use crate::control_interface::{ChannelData, InputModeSwitch};
use crate::flight_ctrls::common::{AltType, CommandState, CtrlInputs, CtrlMix, InputMap, InputMode, Params, RatesCommanded};
use crate::flight_ctrls::common::{map_stick, map_throttle, substituted};
use crate::autopilot::{AutopilotMode, AutopilotStatus};
use crate::protocols::dshot::DshotPayload;
use crate::safety::ArmStatus;

verus! {

/// Amount by which one in-flight tuning step changes a gain.
pub const PID_CONTROL_ADJ_AMT: i64 = 1_000_000;

/// Seconds between two accepted in-flight tuning steps.
pub const PID_CONTROL_ADJ_TIMEOUT: i64 = 300_000_000;

/// Ceiling on the sum of the proportional and integral terms.
pub const INTEGRATOR_CLAMP_MAX: i64 = 400_000_000;

/// Floor on the sum of the proportional and integral terms.
pub const INTEGRATOR_CLAMP_MIN: i64 = -400_000_000;

/// Factor applied to the derivative gain at full throttle.
pub const TPA_MIN_ATTEN: i64 = 500_000_000;

/// Throttle above which the derivative gain starts to fall.
pub const TPA_BREAKPOINT: i64 = 300_000_000;

/// Cutoff frequency of the derivative low-pass filter.
#[derive(Clone, Copy, Debug, PartialEq, Eq, Structural)]
pub enum LowpassCutoff {
    H500,
    H1k,
    H10k,
    H20k,
}

/// Memory of one control axis: the last measurement and error, and the three
/// terms of the last output.
#[derive(Clone, Copy, Debug, PartialEq, Eq, Structural)]
pub struct PidState {
    /// Last measurement; the derivative is taken on it.
    pub measurement: i64,
    /// Last error, before any gain.
    pub e: i64,
    /// Proportional term.
    pub p: i64,
    /// Integral term.
    pub i: i64,
    /// Derivative term.
    pub d: i64,
}

/// Upper end of the band left to the integral term beside a proportional
/// term `p`: what is missing from `p` to the ceiling, which is negative once
/// `p` itself is above the ceiling.
pub open spec fn integral_limit_max(p: int) -> int {
    saturate(INTEGRATOR_CLAMP_MAX - p)
}

/// Lower end of the band left to the integral term beside a proportional
/// term `p`: what is missing from `p` to the floor, which is positive once
/// `p` itself is below the floor.
pub open spec fn integral_limit_min(p: int) -> int {
    saturate(INTEGRATOR_CLAMP_MIN - p)
}

/// The integral term `i` after the anti-windup clamp beside a proportional
/// term `p`: `i` itself where the sum of the two lies between floor and
/// ceiling, otherwise the nearest value for which it does.
pub open spec fn windup_clamp(i: int, p: int) -> int {
    if i > integral_limit_max(p) {
        integral_limit_max(p)
    } else if i < integral_limit_min(p) {
        integral_limit_min(p)
    } else {
        i
    }
}

/// Sum of the three terms, saturating.
pub open spec fn out_spec(s: PidState) -> int {
    add_spec(add_spec(s.p as int, s.i as int), s.d as int)
}

impl Default for PidState {
    /// The state before the first tick: everything zero.
    fn default() -> (r: Self)
        ensures
            r == (PidState { measurement: 0, e: 0, p: 0, i: 0, d: 0 }),
    {
        PidState { measurement: 0, e: 0, p: 0, i: 0, d: 0 }
    }
}

impl PidState {
    /// Anti-windup: limit the integral term so that its sum with the
    /// proportional term `error_p` lies between `INTEGRATOR_CLAMP_MIN` and
    /// `INTEGRATOR_CLAMP_MAX`. An integral term for which that holds stays;
    /// any other becomes the nearest one for which it holds. Beside a
    /// proportional term that is itself beyond a limit, the integral term
    /// takes the sum back to that limit.
    pub fn anti_windup_clamp(&mut self, error_p: i64)
        ensures
            final(self).i == windup_clamp(old(self).i as int, error_p as int),
            INTEGRATOR_CLAMP_MIN <= error_p + final(self).i <= INTEGRATOR_CLAMP_MAX,
            INTEGRATOR_CLAMP_MIN <= error_p + old(self).i <= INTEGRATOR_CLAMP_MAX ==> final(self).i == old(
                self,
            ).i,
            final(self).measurement == old(self).measurement,
            final(self).e == old(self).e,
            final(self).p == old(self).p,
            final(self).d == old(self).d,
    {
        let lim_max_int: i64 = fx_sub(INTEGRATOR_CLAMP_MAX, error_p);
        let lim_min_int: i64 = fx_sub(INTEGRATOR_CLAMP_MIN, error_p);
        if self.i > lim_max_int {
            self.i = lim_max_int;
        } else if self.i < lim_min_int {
            self.i = lim_min_int;
        }
    }

    /// The controller's output: the sum of the three terms.
    pub fn out(&self) -> (r: i64)
        ensures
            r == out_spec(*self),
    {
        fx_add(fx_add(self.p, self.i), self.d)
    }
}

/// One state per axis of a control tier.
#[derive(Clone, Copy, Debug, PartialEq, Eq, Structural)]
pub struct PidGroup {
    pub pitch: PidState,
    pub roll: PidState,
    pub yaw: PidState,
    pub thrust: PidState,
}

impl Default for PidGroup {
    /// Four controllers before their first tick.
    fn default() -> (r: Self)
        ensures
            r == (PidGroup {
                pitch: PidState { measurement: 0, e: 0, p: 0, i: 0, d: 0 },
                roll: PidState { measurement: 0, e: 0, p: 0, i: 0, d: 0 },
                yaw: PidState { measurement: 0, e: 0, p: 0, i: 0, d: 0 },
                thrust: PidState { measurement: 0, e: 0, p: 0, i: 0, d: 0 },
            }),
    {
        PidGroup {
            pitch: PidState::default(),
            roll: PidState::default(),
            yaw: PidState::default(),
            thrust: PidState::default(),
        }
    }
}

impl PidGroup {
    /// Zero the integral term of every axis and leave the rest.
    pub fn reset_integrator(&mut self)
        ensures
            *final(self) == (PidGroup {
                pitch: PidState { i: 0, ..old(self).pitch },
                roll: PidState { i: 0, ..old(self).roll },
                yaw: PidState { i: 0, ..old(self).yaw },
                thrust: PidState { i: 0, ..old(self).thrust },
            }),
    {
        self.pitch.i = 0;
        self.roll.i = 0;
        self.yaw.i = 0;
        self.thrust.i = 0;
    }
}

/// One second-order filter section in direct form 1, with the state it owns:
/// the last two inputs and the last two outputs.
#[derive(Clone, Copy, Debug, PartialEq, Eq, Structural)]
pub struct IirInstWrapper {
    pub b0: i64,
    pub b1: i64,
    pub b2: i64,
    pub a1: i64,
    pub a2: i64,
    pub x1: i64,
    pub x2: i64,
    pub y1: i64,
    pub y2: i64,
}

/// Feed-forward coefficient of the derivative low-pass filter (twice).
pub const COEFF_D_B: i64 = 37_804_754;

/// Feedback coefficient of the derivative low-pass filter.
pub const COEFF_D_A: i64 = 924_390_492;

/// What the filter `f` answers to the input `x`:
/// `b0 x + b1 x1 + b2 x2 + a1 y1 + a2 y2`.
pub open spec fn filter_output(f: IirInstWrapper, x: int) -> int {
    add_spec(
        add_spec(
            add_spec(
                add_spec(mul_spec(f.b0 as int, x), mul_spec(f.b1 as int, f.x1 as int)),
                mul_spec(f.b2 as int, f.x2 as int),
            ),
            mul_spec(f.a1 as int, f.y1 as int),
        ),
        mul_spec(f.a2 as int, f.y2 as int),
    )
}

/// The filter `f` after it has answered `y` to the input `x`.
pub open spec fn filter_advance(f: IirInstWrapper, x: i64, y: i64) -> IirInstWrapper {
    IirInstWrapper { x1: x, x2: f.x1, y1: y, y2: f.y1, ..f }
}

/// A filter at rest with the low-pass coefficients of the derivative term.
pub open spec fn filter_at_rest() -> IirInstWrapper {
    IirInstWrapper { b0: COEFF_D_B, b1: COEFF_D_B, b2: 0, a1: COEFF_D_A, a2: 0, x1: 0, x2: 0, y1: 0, y2: 0 }
}

impl IirInstWrapper {
    /// A filter at rest with the low-pass coefficients of the derivative term.
    pub fn new() -> (r: Self)
        ensures
            r == filter_at_rest(),
    {
        IirInstWrapper {
            b0: COEFF_D_B,
            b1: COEFF_D_B,
            b2: 0,
            a1: COEFF_D_A,
            a2: 0,
            x1: 0,
            x2: 0,
            y1: 0,
            y2: 0,
        }
    }

    /// Filter one sample.
    pub fn apply(&mut self, x: i64) -> (y: i64)
        ensures
            y == filter_output(*old(self), x as int),
            *final(self) == filter_advance(*old(self), x, y),
    {
        let t0 = fx_mul(self.b0, x);
        let t1 = fx_mul(self.b1, self.x1);
        let t2 = fx_mul(self.b2, self.x2);
        let t3 = fx_mul(self.a1, self.y1);
        let t4 = fx_mul(self.a2, self.y2);
        let y = fx_add(fx_add(fx_add(fx_add(t0, t1), t2), t3), t4);
        self.x2 = self.x1;
        self.x1 = x;
        self.y2 = self.y1;
        self.y1 = y;
        y
    }
}

/// The error of a set point against a measurement.
pub open spec fn error_spec(set_pt: int, measurement: int) -> int {
    sub_spec(set_pt, measurement)
}

/// The integral term before the anti-windup clamp: the trapezoid between the
/// last error and this one, times the gain, added to the last integral term.
pub open spec fn integral_spec(k_i: int, error: int, prev_e: int, prev_i: int, dt: int) -> int {
    add_spec(
        mul_spec(saturate(trunc_div(mul_spec(k_i, add_spec(error, prev_e)), 2)), dt),
        prev_i,
    )
}

/// The derivative term before the filter: the gain times the change of the
/// measurement per second.
pub open spec fn derivative_spec(k_d: int, measurement: int, prev_measurement: int, dt: int) -> int
    recommends
        dt != 0,
{
    div_spec(mul_spec(k_d, sub_spec(measurement, prev_measurement)), dt)
}

/// The state that one tick of the controller leaves, given the derivative term
/// `d` that came out of the filter.
pub open spec fn pid_step(
    set_pt: i64,
    measurement: i64,
    prev: PidState,
    k_p: i64,
    k_i: i64,
    d: i64,
    dt: i64,
) -> PidState {
    let e = error_spec(set_pt as int, measurement as int);
    let p = mul_spec(k_p as int, e);
    PidState {
        measurement,
        e: e as i64,
        p: p as i64,
        i: windup_clamp(integral_spec(k_i as int, e, prev.e as int, prev.i as int, dt as int), p) as i64,
        d,
    }
}

/// What one tick of the controller leaves: the new state, and the filter
/// after it has taken the derivative term.
pub open spec fn pid_tick(
    set_pt: i64,
    measurement: i64,
    prev: PidState,
    k_p: i64,
    k_i: i64,
    k_d: i64,
    filter: IirInstWrapper,
    dt: i64,
) -> (PidState, IirInstWrapper) {
    let raw = derivative_spec(k_d as int, measurement as int, prev.measurement as int, dt as int);
    let d = filter_output(filter, raw) as i64;
    (pid_step(set_pt, measurement, prev, k_p, k_i, d, dt), filter_advance(filter, raw as i64, d))
}

/// One tick of a single-axis controller.
///
/// The error is `set_pt - measurement`; the proportional term is the gain
/// times the error; the integral term grows by the trapezoid between the last
/// error and this one and is then clamped against windup, so that the sum of
/// the proportional and the integral term lies between
/// `INTEGRATOR_CLAMP_MIN` and `INTEGRATOR_CLAMP_MAX` on every tick; the
/// derivative is taken on the measurement, not on the error, and passes
/// through `filter`.
pub fn calc_pid_error(
    set_pt: i64,
    measurement: i64,
    prev_pid: &PidState,
    k_p: i64,
    k_i: i64,
    k_d: i64,
    filter: &mut IirInstWrapper,
    dt: i64,
) -> (r: PidState)
    requires
        dt > 0,
    ensures
        r.d == filter_output(
            *old(filter),
            derivative_spec(k_d as int, measurement as int, prev_pid.measurement as int, dt as int),
        ),
        *final(filter) == filter_advance(
            *old(filter),
            derivative_spec(k_d as int, measurement as int, prev_pid.measurement as int, dt as int) as i64,
            r.d,
        ),
        r == pid_step(set_pt, measurement, *prev_pid, k_p, k_i, r.d, dt),
        (r, *final(filter)) == pid_tick(set_pt, measurement, *prev_pid, k_p, k_i, k_d, *old(filter), dt),
        INTEGRATOR_CLAMP_MIN <= r.p + r.i <= INTEGRATOR_CLAMP_MAX,
{
    let error = fx_sub(set_pt, measurement);
    let error_p = fx_mul(k_p, error);
    let error_i = fx_add(
        fx_mul(fx_div_int(fx_mul(k_i, fx_add(error, prev_pid.e)), 2), dt),
        prev_pid.i,
    );
    let error_d_prefilt = fx_div(fx_mul(k_d, fx_sub(measurement, prev_pid.measurement)), dt);
    let error_d = filter.apply(error_d_prefilt);
    let mut result = PidState { measurement, e: error, p: error_p, i: error_i, d: error_d };
    result.anti_windup_clamp(error_p);
    result
}

/// Beside any proportional term, the clamped integral term keeps the sum of
/// the two between floor and ceiling.
pub proof fn lemma_integrator_bound(i: i64, p: i64)
    ensures
        INTEGRATOR_CLAMP_MIN <= p + windup_clamp(i as int, p as int) <= INTEGRATOR_CLAMP_MAX,
        i64::MIN <= windup_clamp(i as int, p as int) <= i64::MAX,
{
}

/// The clamp changes only an integral term that breaks the bound, and moves
/// it no further than needed: a term that keeps the sum between floor and
/// ceiling stays, one that carries it above ends with the sum at the
/// ceiling, one that carries it below ends with the sum at the floor.
pub proof fn lemma_integrator_clamp_is_nearest(i: i64, p: i64)
    ensures
        INTEGRATOR_CLAMP_MIN <= p + i <= INTEGRATOR_CLAMP_MAX ==> windup_clamp(i as int, p as int) == i,
        p + i > INTEGRATOR_CLAMP_MAX ==> p + windup_clamp(i as int, p as int) == INTEGRATOR_CLAMP_MAX,
        p + i < INTEGRATOR_CLAMP_MIN ==> p + windup_clamp(i as int, p as int) == INTEGRATOR_CLAMP_MIN,
{
}

/// Seconds between two ticks of the attitude and velocity tiers.
pub const DT_ATTITUDE: i64 = 625_000;

/// Stick deflection above which the pilot counts as steering.
pub const LOITER_STICK_EPS: i64 = 10_000_000;

/// Distance from the origin, metres, within which a loiter position is taken.
pub const LOITER_POSITION_EPS: i64 = 10_000_000;

/// Gains and filter choices of the pitch axis, or of the roll axis, for the
/// three tiers.
#[derive(Clone, Copy, Debug, PartialEq, Eq, Structural)]
pub struct CtrlCoeffsPR {
    pub k_p_rate: i64,
    pub k_i_rate: i64,
    pub k_d_rate: i64,
    pub k_p_attitude: i64,
    pub k_i_attitude: i64,
    pub k_d_attitude: i64,
    pub k_p_velocity: i64,
    pub k_i_velocity: i64,
    pub pid_deriv_lowpass_cutoff_rate: LowpassCutoff,
    pub pid_deriv_lowpass_cutoff_attitude: LowpassCutoff,
}

impl Default for CtrlCoeffsPR {
    /// The gains of a multirotor.
    fn default() -> (r: Self)
        ensures
            r == multirotor_gains(),
    {
        CtrlCoeffsPR {
            k_p_rate: 100_000_000,
            k_i_rate: 500_000_000,
            k_d_rate: 3_000_000,
            k_p_attitude: 47_000_000_000,
            k_i_attitude: 84_000_000_000,
            k_d_attitude: 34_000_000_000,
            k_p_velocity: 100_000_000,
            k_i_velocity: 0,
            pid_deriv_lowpass_cutoff_rate: LowpassCutoff::H1k,
            pid_deriv_lowpass_cutoff_attitude: LowpassCutoff::H1k,
        }
    }
}

impl CtrlCoeffsPR {
    /// The gains of a flying wing, which has no attitude tier.
    pub fn default_flying_wing() -> (r: Self)
        ensures
            r == flying_wing_gains(),
    {
        CtrlCoeffsPR {
            k_p_rate: 60_000_000,
            k_i_rate: 0,
            k_d_rate: 0,
            k_p_attitude: 0,
            k_i_attitude: 0,
            k_d_attitude: 0,
            k_p_velocity: 100_000_000,
            k_i_velocity: 0,
            pid_deriv_lowpass_cutoff_rate: LowpassCutoff::H1k,
            pid_deriv_lowpass_cutoff_attitude: LowpassCutoff::H1k,
        }
    }
}

/// Gains and filter choice of the yaw axis, or of the thrust axis.
#[derive(Clone, Copy, Debug, PartialEq, Eq, Structural)]
pub struct CtrlCoeffsYT {
    pub k_p_rate: i64,
    pub k_i_rate: i64,
    pub k_d_rate: i64,
    pub k_p_attitude: i64,
    pub k_i_attitude: i64,
    pub k_s_attitude: i64,
    pub pid_deriv_lowpass_cutoff: LowpassCutoff,
}

impl Default for CtrlCoeffsYT {
    fn default() -> (r: Self)
        ensures
            r == yaw_thrust_gains(),
    {
        CtrlCoeffsYT {
            k_p_rate: 300_000_000,
            k_i_rate: 0,
            k_d_rate: 0,
            k_p_attitude: 100_000_000,
            k_i_attitude: 0,
            k_s_attitude: 0,
            pid_deriv_lowpass_cutoff: LowpassCutoff::H1k,
        }
    }
}

/// The gains of all four axes.
#[derive(Clone, Copy, Debug, PartialEq, Eq, Structural)]
pub struct CtrlCoeffGroup {
    pub pitch: CtrlCoeffsPR,
    pub roll: CtrlCoeffsPR,
    pub yaw: CtrlCoeffsYT,
    pub thrust: CtrlCoeffsYT,
}

/// The gains of the pitch axis, and of the roll axis, of a multirotor.
pub open spec fn multirotor_gains() -> CtrlCoeffsPR {
    CtrlCoeffsPR {
        k_p_rate: 100_000_000,
        k_i_rate: 500_000_000,
        k_d_rate: 3_000_000,
        k_p_attitude: 47_000_000_000,
        k_i_attitude: 84_000_000_000,
        k_d_attitude: 34_000_000_000,
        k_p_velocity: 100_000_000,
        k_i_velocity: 0,
        pid_deriv_lowpass_cutoff_rate: LowpassCutoff::H1k,
        pid_deriv_lowpass_cutoff_attitude: LowpassCutoff::H1k,
    }
}

/// The gains of the pitch axis, and of the roll axis, of a flying wing.
pub open spec fn flying_wing_gains() -> CtrlCoeffsPR {
    CtrlCoeffsPR {
        k_p_rate: 60_000_000,
        k_i_rate: 0,
        k_d_rate: 0,
        k_p_attitude: 0,
        k_i_attitude: 0,
        k_d_attitude: 0,
        k_p_velocity: 100_000_000,
        k_i_velocity: 0,
        pid_deriv_lowpass_cutoff_rate: LowpassCutoff::H1k,
        pid_deriv_lowpass_cutoff_attitude: LowpassCutoff::H1k,
    }
}

/// The gains of the yaw axis, and of the thrust axis.
pub open spec fn yaw_thrust_gains() -> CtrlCoeffsYT {
    CtrlCoeffsYT {
        k_p_rate: 300_000_000,
        k_i_rate: 0,
        k_d_rate: 0,
        k_p_attitude: 100_000_000,
        k_i_attitude: 0,
        k_s_attitude: 0,
        pid_deriv_lowpass_cutoff: LowpassCutoff::H1k,
    }
}

impl Default for CtrlCoeffGroup {
    /// The gains of a multirotor.
    fn default() -> (r: Self)
        ensures
            r == (CtrlCoeffGroup {
                pitch: multirotor_gains(),
                roll: multirotor_gains(),
                yaw: yaw_thrust_gains(),
                thrust: yaw_thrust_gains(),
            }),
    {
        CtrlCoeffGroup {
            pitch: CtrlCoeffsPR::default(),
            roll: CtrlCoeffsPR::default(),
            yaw: CtrlCoeffsYT::default(),
            thrust: CtrlCoeffsYT::default(),
        }
    }
}

impl CtrlCoeffGroup {
    /// The gains of a flying wing.
    pub fn default_flying_wing() -> (r: Self)
        ensures
            r == (CtrlCoeffGroup {
                pitch: flying_wing_gains(),
                roll: flying_wing_gains(),
                yaw: yaw_thrust_gains(),
                thrust: yaw_thrust_gains(),
            }),
    {
        CtrlCoeffGroup {
            pitch: CtrlCoeffsPR::default_flying_wing(),
            roll: CtrlCoeffsPR::default_flying_wing(),
            yaw: CtrlCoeffsYT::default(),
            thrust: CtrlCoeffsYT::default(),
        }
    }
}

/// The derivative filters, one for each axis of the attitude and rate tiers
/// and one for thrust. Each owns its state.
#[derive(Clone, Copy, Debug, PartialEq, Eq, Structural)]
pub struct PidDerivFilters {
    pub roll_attitude: IirInstWrapper,
    pub pitch_attitude: IirInstWrapper,
    pub yaw_attitude: IirInstWrapper,
    pub roll_rate: IirInstWrapper,
    pub pitch_rate: IirInstWrapper,
    pub yaw_rate: IirInstWrapper,
    pub thrust: IirInstWrapper,
}

impl PidDerivFilters {
    /// Seven filters at rest.
    pub open spec fn at_rest() -> PidDerivFilters {
        PidDerivFilters {
            roll_attitude: filter_at_rest(),
            pitch_attitude: filter_at_rest(),
            yaw_attitude: filter_at_rest(),
            roll_rate: filter_at_rest(),
            pitch_rate: filter_at_rest(),
            yaw_rate: filter_at_rest(),
            thrust: filter_at_rest(),
        }
    }

    /// Seven filters at rest.
    pub fn new() -> (r: Self)
        ensures
            r == PidDerivFilters::at_rest(),
    {
        PidDerivFilters {
            roll_attitude: IirInstWrapper::new(),
            pitch_attitude: IirInstWrapper::new(),
            yaw_attitude: IirInstWrapper::new(),
            roll_rate: IirInstWrapper::new(),
            pitch_rate: IirInstWrapper::new(),
            yaw_rate: IirInstWrapper::new(),
            thrust: IirInstWrapper::new(),
        }
    }
}

impl Default for PidDerivFilters {
    fn default() -> (r: Self)
        ensures
            r == PidDerivFilters::at_rest(),
    {
        PidDerivFilters::new()
    }
}

/// Throttle PID attenuation: the factor on the derivative gain of the rate
/// tier. It is 1 up to `TPA_BREAKPOINT`, falls in a straight line from there
/// to `TPA_MIN_ATTEN` at `MAX_ROTOR_POWER`, and stays there.
pub open spec fn tpa_spec(throttle: int) -> int {
    if throttle <= TPA_BREAKPOINT {
        SCALE as int
    } else if throttle >= MAX_ROTOR_POWER {
        TPA_MIN_ATTEN as int
    } else {
        SCALE - ((SCALE - TPA_MIN_ATTEN) * (throttle - TPA_BREAKPOINT)) / (MAX_ROTOR_POWER
            - TPA_BREAKPOINT) as int
    }
}

/// The factor by which the derivative gain of the rate tier is multiplied at
/// a throttle setting.
pub fn tpa_adjustment(throttle: i64) -> (r: i64)
    ensures
        r == tpa_spec(throttle as int),
        TPA_MIN_ATTEN <= r <= SCALE,
{
    if throttle <= TPA_BREAKPOINT {
        SCALE
    } else if throttle >= MAX_ROTOR_POWER {
        TPA_MIN_ATTEN
    } else {
        SCALE - ((SCALE - TPA_MIN_ATTEN) * (throttle - TPA_BREAKPOINT)) / (MAX_ROTOR_POWER
            - TPA_BREAKPOINT)
    }
}

/// The attenuation never rises with the throttle, is 1 at and below the
/// breakpoint, and never falls below its floor.
pub proof fn lemma_tpa_monotonic(t1: int, t2: int)
    requires
        t1 <= t2,
    ensures
        tpa_spec(t1) >= tpa_spec(t2),
        t1 <= TPA_BREAKPOINT ==> tpa_spec(t1) == SCALE,
        t2 >= MAX_ROTOR_POWER ==> tpa_spec(t2) == TPA_MIN_ATTEN,
        TPA_MIN_ATTEN <= tpa_spec(t1) <= SCALE,
{
}

/// The input mode for a position of the mode switch: command mode whenever
/// an autopilot behaviour acts, else what the switch says.
pub fn select_input_mode(switch: InputModeSwitch, autopilot_mode: AutopilotMode) -> (r: InputMode)
    ensures
        r == (if autopilot_mode != AutopilotMode::Manual {
            InputMode::Command
        } else if switch == InputModeSwitch::Acro {
            InputMode::Acro
        } else {
            InputMode::Attitude
        }),
{
    if autopilot_mode != AutopilotMode::Manual {
        InputMode::Command
    } else if switch == InputModeSwitch::Acro {
        InputMode::Acro
    } else {
        InputMode::Attitude
    }
}

/// Whether the attitude tier runs in an input mode.
pub open spec fn attitude_tier_active(mode: InputMode) -> bool {
    mode != InputMode::Acro
}

/// Whether the velocity tier runs in an input mode.
pub open spec fn velocity_tier_active(mode: InputMode) -> bool {
    mode == InputMode::Command
}

/// A group with the integral term of every axis zeroed.
pub open spec fn integrators_reset(g: PidGroup) -> PidGroup {
    PidGroup {
        pitch: PidState { i: 0, ..g.pitch },
        roll: PidState { i: 0, ..g.roll },
        yaw: PidState { i: 0, ..g.yaw },
        thrust: PidState { i: 0, ..g.thrust },
    }
}

/// Change the input mode. A tier that did not run in the old mode and runs in
/// the new one starts with its integral terms at zero: what they held is
/// stale. A tier that keeps running keeps them.
pub fn set_input_mode(
    new_mode: InputMode,
    input_mode: &mut InputMode,
    pid_attitude: &mut PidGroup,
    pid_velocity: &mut PidGroup,
)
    ensures
        *final(input_mode) == new_mode,
        *final(pid_attitude) == (if attitude_tier_active(new_mode) && !attitude_tier_active(
            *old(input_mode),
        ) {
            integrators_reset(*old(pid_attitude))
        } else {
            *old(pid_attitude)
        }),
        *final(pid_velocity) == (if velocity_tier_active(new_mode) && !velocity_tier_active(
            *old(input_mode),
        ) {
            integrators_reset(*old(pid_velocity))
        } else {
            *old(pid_velocity)
        }),
{
    let was_acro = *input_mode == InputMode::Acro;
    let was_command = *input_mode == InputMode::Command;
    if new_mode != InputMode::Acro && was_acro {
        pid_attitude.reset_integrator();
    }
    if new_mode == InputMode::Command && !was_command {
        pid_velocity.reset_integrator();
    }
    *input_mode = new_mode;
}

/// The vertical distance to the altitude that altitude hold holds, if it can
/// be measured: above ground only while the range sensor answers.
pub open spec fn hold_distance(alt_hold: Option<(AltType, i64)>, params: Params) -> Option<i64> {
    match alt_hold {
        Some((AltType::Msl, alt)) => Some(sub_spec(alt as int, params.baro_alt_msl as int) as i64),
        Some((AltType::Agl, alt)) => match params.tof_alt {
            Some(h) => Some(sub_spec(alt as int, h as int) as i64),
            None => None,
        },
        None => None,
    }
}

/// The set points of the velocity tier for one tick.
pub open spec fn velocity_set_points(
    params: Params,
    input_map: InputMap,
    velocities_commanded: CtrlInputs,
    input_mode: InputMode,
    autopilot_status: AutopilotStatus,
    max_speed_ver: i64,
) -> CtrlInputs {
    if autopilot_status.recover.is_some() {
        CtrlInputs {
            pitch: map_stick(0, input_map.pitch_angle) as i64,
            roll: map_stick(0, input_map.roll_angle) as i64,
            yaw: map_stick(0, input_map.yaw_rate) as i64,
            thrust: quad::enroute_speed_ver_spec(
                sub_spec(autopilot_status.recover.unwrap() as int, params.baro_alt_msl as int) as i64,
                max_speed_ver,
            ) as i64,
        }
    } else if input_mode == InputMode::Command && autopilot_status.land.is_some()
        && params.tof_alt.is_some() {
        CtrlInputs {
            pitch: 0,
            roll: 0,
            yaw: 0,
            thrust: sub_spec(0, quad::landing_speed_spec(params.tof_alt.unwrap(), max_speed_ver)) as i64,
        }
    } else if input_mode == InputMode::Command && autopilot_status.takeoff && params.tof_alt.is_some() {
        CtrlInputs {
            pitch: 0,
            roll: 0,
            yaw: 0,
            thrust: quad::takeoff_speed_spec(params.tof_alt.unwrap(), max_speed_ver) as i64,
        }
    } else {
        match hold_distance(autopilot_status.alt_hold, params) {
            Some(dist) => CtrlInputs {
                thrust: quad::enroute_speed_ver_spec(dist, max_speed_ver) as i64,
                ..velocities_commanded
            },
            None => velocities_commanded,
        }
    }
}

/// What the velocity tier remembers after one tick. While the pilot steers no
/// position is held; near the origin the current position is taken as the
/// one to hold, unless one is held already.
pub open spec fn loiter_after(params: Params, ch_data: ChannelData, commands: CommandState) -> CommandState {
    let released = if ch_data.pitch > LOITER_STICK_EPS || ch_data.roll > LOITER_STICK_EPS {
        CommandState { loiter_set: false, ..commands }
    } else {
        commands
    };
    if params.s_x < LOITER_POSITION_EPS && params.s_y < LOITER_POSITION_EPS && !released.loiter_set {
        CommandState { x: params.s_x, y: params.s_y, loiter_set: true, ..released }
    } else {
        released
    }
}

/// What the velocity tier measures on the two horizontal axes, as (x, y): the
/// held position near the origin, the velocity elsewhere.
pub open spec fn horizontal_measurement(params: Params, commands_after: CommandState) -> (i64, i64) {
    if params.s_x < LOITER_POSITION_EPS && params.s_y < LOITER_POSITION_EPS {
        (commands_after.x, commands_after.y)
    } else {
        (params.v_x, params.v_y)
    }
}

/// The outputs of the four controllers of a group.
pub open spec fn outputs(g: PidGroup) -> CtrlInputs {
    CtrlInputs {
        pitch: out_spec(g.pitch) as i64,
        roll: out_spec(g.roll) as i64,
        yaw: out_spec(g.yaw) as i64,
        thrust: out_spec(g.thrust) as i64,
    }
}

/// The states of the velocity tier after one tick with the set points `sp`.
pub open spec fn velocity_pid_after(
    params: Params,
    sp: CtrlInputs,
    measured: (i64, i64),
    pid: PidGroup,
    coeffs: CtrlCoeffGroup,
) -> PidGroup {
    PidGroup {
        pitch: pid_tick(
            sp.pitch,
            measured.1,
            pid.pitch,
            coeffs.pitch.k_p_velocity,
            coeffs.pitch.k_i_velocity,
            0,
            filter_at_rest(),
            DT_ATTITUDE,
        ).0,
        roll: pid_tick(
            sp.roll,
            measured.0,
            pid.roll,
            coeffs.roll.k_p_velocity,
            coeffs.roll.k_i_velocity,
            0,
            filter_at_rest(),
            DT_ATTITUDE,
        ).0,
        yaw: pid_tick(sp.yaw, params.s_yaw_heading, pid.yaw, 0, 0, 0, filter_at_rest(), DT_ATTITUDE).0,
        thrust: pid_tick(sp.thrust, params.v_z, pid.thrust, 0, 0, 0, filter_at_rest(), DT_ATTITUDE).0,
    }
}

/// One tick of the velocity tier, the outer one: from commanded velocities
/// (or a position to hold) to a commanded attitude.
///
/// Recovery commands a level attitude and a climb or descent toward its
/// altitude; in command mode landing and take-off command their vertical
/// speeds, as far as the range sensor answers; otherwise altitude hold
/// replaces the commanded vertical speed. The four controllers then run on
/// these set points, without a derivative term, and their outputs become the
/// commanded attitude.
pub fn run_velocity(
    params: &Params,
    ch_data: &ChannelData,
    input_map: &InputMap,
    velocities_commanded: &mut CtrlInputs,
    attitude_commanded: &mut CtrlInputs,
    pid: &mut PidGroup,
    input_mode: &InputMode,
    autopilot_status: &AutopilotStatus,
    max_speed_ver: i64,
    commands: &mut CommandState,
    coeffs: &CtrlCoeffGroup,
)
    ensures
        *final(velocities_commanded) == velocity_set_points(
            *params,
            *input_map,
            *old(velocities_commanded),
            *input_mode,
            *autopilot_status,
            max_speed_ver,
        ),
        *final(commands) == loiter_after(*params, *ch_data, *old(commands)),
        *final(pid) == velocity_pid_after(
            *params,
            *final(velocities_commanded),
            horizontal_measurement(*params, *final(commands)),
            *old(pid),
            *coeffs,
        ),
        *final(attitude_commanded) == outputs(*final(pid)),
{
    let mut sp = *velocities_commanded;
    let mut handled = false;
    match autopilot_status.recover {
        Some(alt_msl_commanded) => {
            let dist_v = fx_sub(alt_msl_commanded, params.baro_alt_msl);
            sp =
            CtrlInputs {
                pitch: input_map.calc_pitch_angle(0),
                roll: input_map.calc_roll_angle(0),
                yaw: input_map.calc_yaw_rate(0),
                thrust: quad::enroute_speed_ver(dist_v, max_speed_ver),
            };
            handled = true;
        },
        None => {},
    }
    if !handled && *input_mode == InputMode::Command {
        match params.tof_alt {
            Some(height) => {
                if autopilot_status.land.is_some() {
                    sp =
                    CtrlInputs {
                        pitch: 0,
                        roll: 0,
                        yaw: 0,
                        thrust: fx_sub(0, quad::landing_speed(height, max_speed_ver)),
                    };
                    handled = true;
                } else if autopilot_status.takeoff {
                    sp =
                    CtrlInputs {
                        pitch: 0,
                        roll: 0,
                        yaw: 0,
                        thrust: quad::takeoff_speed(height, max_speed_ver),
                    };
                    handled = true;
                }
            },
            None => {},
        }
    }
    if !handled {
        match autopilot_status.alt_hold {
            Some((alt_type, alt_commanded)) => {
                match alt_type {
                    AltType::Msl => {
                        let dist = fx_sub(alt_commanded, params.baro_alt_msl);
                        sp.thrust = quad::enroute_speed_ver(dist, max_speed_ver);
                    },
                    AltType::Agl => {
                        match params.tof_alt {
                            Some(h) => {
                                let dist = fx_sub(alt_commanded, h);
                                sp.thrust = quad::enroute_speed_ver(dist, max_speed_ver);
                            },
                            None => {},
                        }
                    },
                }
            },
            None => {},
        }
    }
    let mut param_x = params.v_x;
    let mut param_y = params.v_y;
    if ch_data.pitch > LOITER_STICK_EPS || ch_data.roll > LOITER_STICK_EPS {
        commands.loiter_set = false;
    }
    if params.s_x < LOITER_POSITION_EPS && params.s_y < LOITER_POSITION_EPS {
        if !commands.loiter_set {
            commands.x = params.s_x;
            commands.y = params.s_y;
            commands.loiter_set = true;
        }
        param_x = commands.x;
        param_y = commands.y;
    }
    let prev = *pid;
    let mut f_pitch = IirInstWrapper::new();
    let mut f_roll = IirInstWrapper::new();
    let mut f_yaw = IirInstWrapper::new();
    let mut f_thrust = IirInstWrapper::new();
    pid.pitch =
    calc_pid_error(
        sp.pitch,
        param_y,
        &prev.pitch,
        coeffs.pitch.k_p_velocity,
        coeffs.pitch.k_i_velocity,
        0,
        &mut f_pitch,
        DT_ATTITUDE,
    );
    pid.roll =
    calc_pid_error(
        sp.roll,
        param_x,
        &prev.roll,
        coeffs.roll.k_p_velocity,
        coeffs.roll.k_i_velocity,
        0,
        &mut f_roll,
        DT_ATTITUDE,
    );
    pid.yaw = calc_pid_error(sp.yaw, params.s_yaw_heading, &prev.yaw, 0, 0, 0, &mut f_yaw, DT_ATTITUDE);
    pid.thrust = calc_pid_error(sp.thrust, params.v_z, &prev.thrust, 0, 0, 0, &mut f_thrust, DT_ATTITUDE);
    *velocities_commanded = sp;
    *attitude_commanded =
    CtrlInputs {
        pitch: pid.pitch.out(),
        roll: pid.roll.out(),
        yaw: pid.yaw.out(),
        thrust: pid.thrust.out(),
    };
}

/// The set points of the attitude tier for one tick: from the sticks in
/// attitude mode, from the tier above otherwise; and on each axis that the
/// autopilot commands, the autopilot's.
pub open spec fn attitude_set_points(
    ch_data: ChannelData,
    input_map: InputMap,
    attitudes_commanded: CtrlInputs,
    input_mode: InputMode,
    ap: RatesCommanded,
) -> CtrlInputs {
    let base = if input_mode == InputMode::Attitude {
        CtrlInputs {
            pitch: map_stick(ch_data.pitch, input_map.pitch_angle) as i64,
            roll: map_stick(ch_data.roll, input_map.roll_angle) as i64,
            yaw: map_stick(ch_data.yaw, input_map.yaw_rate) as i64,
            thrust: ch_data.throttle,
        }
    } else {
        attitudes_commanded
    };
    CtrlInputs {
        pitch: substituted(base.pitch, ap.pitch),
        roll: substituted(base.roll, ap.roll),
        yaw: substituted(base.yaw, ap.yaw),
        thrust: substituted(base.thrust, ap.thrust),
    }
}

/// The states and filters of the attitude tier after one tick with the set
/// points `sp`.
pub open spec fn attitude_pid_after(
    params: Params,
    sp: CtrlInputs,
    pid: PidGroup,
    filters: PidDerivFilters,
    coeffs: CtrlCoeffGroup,
) -> (PidGroup, PidDerivFilters) {
    let pitch = pid_tick(
        sp.pitch,
        params.s_pitch,
        pid.pitch,
        coeffs.pitch.k_p_attitude,
        coeffs.pitch.k_i_attitude,
        coeffs.pitch.k_d_attitude,
        filters.pitch_attitude,
        DT_ATTITUDE,
    );
    let roll = pid_tick(
        sp.roll,
        params.s_roll,
        pid.roll,
        coeffs.roll.k_p_attitude,
        coeffs.roll.k_i_attitude,
        coeffs.roll.k_d_attitude,
        filters.roll_attitude,
        DT_ATTITUDE,
    );
    let yaw = pid_tick(
        sp.yaw,
        params.s_yaw_heading,
        pid.yaw,
        coeffs.yaw.k_p_attitude,
        coeffs.yaw.k_i_attitude,
        coeffs.yaw.k_s_attitude,
        filters.yaw_attitude,
        DT_ATTITUDE,
    );
    let thrust = pid_tick(
        sp.thrust,
        params.baro_alt_msl,
        pid.thrust,
        coeffs.thrust.k_p_attitude,
        coeffs.thrust.k_i_attitude,
        coeffs.thrust.k_s_attitude,
        filters.thrust,
        DT_ATTITUDE,
    );
    (
        PidGroup { pitch: pitch.0, roll: roll.0, yaw: yaw.0, thrust: thrust.0 },
        PidDerivFilters {
            pitch_attitude: pitch.1,
            roll_attitude: roll.1,
            yaw_attitude: yaw.1,
            thrust: thrust.1,
            ..filters
        },
    )
}

/// One tick of the attitude tier, the middle one: from a commanded attitude
/// to commanded angular rates. In attitude mode the commanded attitude comes
/// from the sticks; the autopilot's set points `ap` replace it axis by axis.
pub fn run_attitude_quad(
    params: &Params,
    ch_data: &ChannelData,
    input_map: &InputMap,
    attitudes_commanded: &mut CtrlInputs,
    rates_commanded: &mut CtrlInputs,
    pid: &mut PidGroup,
    filters: &mut PidDerivFilters,
    input_mode: &InputMode,
    ap: &RatesCommanded,
    coeffs: &CtrlCoeffGroup,
)
    ensures
        *final(attitudes_commanded) == attitude_set_points(
            *ch_data,
            *input_map,
            *old(attitudes_commanded),
            *input_mode,
            *ap,
        ),
        (*final(pid), *final(filters)) == attitude_pid_after(
            *params,
            *final(attitudes_commanded),
            *old(pid),
            *old(filters),
            *coeffs,
        ),
        *final(rates_commanded) == outputs(*final(pid)),
{
    let base = match input_mode {
        InputMode::Attitude => CtrlInputs {
            pitch: input_map.calc_pitch_angle(ch_data.pitch),
            roll: input_map.calc_roll_angle(ch_data.roll),
            yaw: input_map.calc_yaw_rate(ch_data.yaw),
            thrust: ch_data.throttle,
        },
        _ => *attitudes_commanded,
    };
    let sp = ap.substitute_into(&base);
    let prev = *pid;
    pid.pitch =
    calc_pid_error(
        sp.pitch,
        params.s_pitch,
        &prev.pitch,
        coeffs.pitch.k_p_attitude,
        coeffs.pitch.k_i_attitude,
        coeffs.pitch.k_d_attitude,
        &mut filters.pitch_attitude,
        DT_ATTITUDE,
    );
    pid.roll =
    calc_pid_error(
        sp.roll,
        params.s_roll,
        &prev.roll,
        coeffs.roll.k_p_attitude,
        coeffs.roll.k_i_attitude,
        coeffs.roll.k_d_attitude,
        &mut filters.roll_attitude,
        DT_ATTITUDE,
    );
    pid.yaw =
    calc_pid_error(
        sp.yaw,
        params.s_yaw_heading,
        &prev.yaw,
        coeffs.yaw.k_p_attitude,
        coeffs.yaw.k_i_attitude,
        coeffs.yaw.k_s_attitude,
        &mut filters.yaw_attitude,
        DT_ATTITUDE,
    );
    pid.thrust =
    calc_pid_error(
        sp.thrust,
        params.baro_alt_msl,
        &prev.thrust,
        coeffs.thrust.k_p_attitude,
        coeffs.thrust.k_i_attitude,
        coeffs.thrust.k_s_attitude,
        &mut filters.thrust,
        DT_ATTITUDE,
    );
    *attitudes_commanded = sp;
    *rates_commanded =
    CtrlInputs {
        pitch: pid.pitch.out(),
        roll: pid.roll.out(),
        yaw: pid.yaw.out(),
        thrust: pid.thrust.out(),
    };
}

/// The attitude that the attitude tier is handed from above: the outputs of
/// the velocity tier where that tier runs, else what was commanded before.
pub open spec fn attitude_from_above(
    input_mode: InputMode,
    attitudes_commanded: CtrlInputs,
    pid_velocity: PidGroup,
) -> CtrlInputs {
    if velocity_tier_active(input_mode) {
        outputs(pid_velocity)
    } else {
        attitudes_commanded
    }
}

/// One tick of the two outer tiers, each only where the input mode has it
/// run. The velocity tier runs in command mode; the attitude tier runs
/// outside acro mode, and only on a multirotor. A tier that does not run
/// leaves its controllers, its filters and what it commands as they are;
/// what the velocity tier commands is handed to the attitude tier.
pub fn run_outer_tiers(
    params: &Params,
    ch_data: &ChannelData,
    input_map: &InputMap,
    velocities_commanded: &mut CtrlInputs,
    attitudes_commanded: &mut CtrlInputs,
    rates_commanded: &mut CtrlInputs,
    pid_velocity: &mut PidGroup,
    pid_attitude: &mut PidGroup,
    filters: &mut PidDerivFilters,
    input_mode: InputMode,
    multirotor: bool,
    autopilot_status: &AutopilotStatus,
    ap: &RatesCommanded,
    max_speed_ver: i64,
    commands: &mut CommandState,
    coeffs: &CtrlCoeffGroup,
)
    ensures
        !velocity_tier_active(input_mode) ==> {
            &&& *final(pid_velocity) == *old(pid_velocity)
            &&& *final(velocities_commanded) == *old(velocities_commanded)
            &&& *final(commands) == *old(commands)
        },
        velocity_tier_active(input_mode) ==> {
            &&& *final(velocities_commanded) == velocity_set_points(
                *params,
                *input_map,
                *old(velocities_commanded),
                input_mode,
                *autopilot_status,
                max_speed_ver,
            )
            &&& *final(commands) == loiter_after(*params, *ch_data, *old(commands))
            &&& *final(pid_velocity) == velocity_pid_after(
                *params,
                *final(velocities_commanded),
                horizontal_measurement(*params, *final(commands)),
                *old(pid_velocity),
                *coeffs,
            )
        },
        !(attitude_tier_active(input_mode) && multirotor) ==> {
            &&& *final(pid_attitude) == *old(pid_attitude)
            &&& *final(filters) == *old(filters)
            &&& *final(rates_commanded) == *old(rates_commanded)
            &&& *final(attitudes_commanded) == attitude_from_above(
                input_mode,
                *old(attitudes_commanded),
                *final(pid_velocity),
            )
        },
        attitude_tier_active(input_mode) && multirotor ==> {
            &&& *final(attitudes_commanded) == attitude_set_points(
                *ch_data,
                *input_map,
                attitude_from_above(input_mode, *old(attitudes_commanded), *final(pid_velocity)),
                input_mode,
                *ap,
            )
            &&& (*final(pid_attitude), *final(filters)) == attitude_pid_after(
                *params,
                *final(attitudes_commanded),
                *old(pid_attitude),
                *old(filters),
                *coeffs,
            )
            &&& *final(rates_commanded) == outputs(*final(pid_attitude))
        },
{
    if input_mode == InputMode::Command {
        run_velocity(
            params,
            ch_data,
            input_map,
            velocities_commanded,
            attitudes_commanded,
            pid_velocity,
            &input_mode,
            autopilot_status,
            max_speed_ver,
            commands,
            coeffs,
        );
    }
    if input_mode != InputMode::Acro && multirotor {
        run_attitude_quad(
            params,
            ch_data,
            input_map,
            attitudes_commanded,
            rates_commanded,
            pid_attitude,
            filters,
            &input_mode,
            ap,
            coeffs,
        );
    }
}

/// The set points of the rate tier for one tick: from the sticks in acro
/// mode, from the tier above otherwise; and on each axis that the autopilot
/// commands, the autopilot's.
pub open spec fn rate_set_points(
    ch_data: ChannelData,
    input_map: InputMap,
    rates_commanded: CtrlInputs,
    input_mode: InputMode,
    ap: RatesCommanded,
) -> CtrlInputs {
    let base = if input_mode == InputMode::Acro {
        CtrlInputs {
            pitch: map_stick(ch_data.pitch, input_map.pitch_rate) as i64,
            roll: map_stick(ch_data.roll, input_map.roll_rate) as i64,
            yaw: map_stick(ch_data.yaw, input_map.yaw_rate) as i64,
            thrust: map_throttle(ch_data.throttle, input_map.throttle_clamped) as i64,
        }
    } else {
        rates_commanded
    };
    CtrlInputs {
        pitch: substituted(base.pitch, ap.pitch),
        roll: substituted(base.roll, ap.roll),
        yaw: substituted(base.yaw, ap.yaw),
        thrust: substituted(base.thrust, ap.thrust),
    }
}

/// The states and filters of the rate tier after one tick with the set points
/// `sp`, with the derivative gains multiplied by `d_scale`. The thrust axis
/// has no controller in this tier.
pub open spec fn rate_pid_after(
    params: Params,
    sp: CtrlInputs,
    pid: PidGroup,
    filters: PidDerivFilters,
    coeffs: CtrlCoeffGroup,
    d_scale: i64,
    dt: i64,
) -> (PidGroup, PidDerivFilters) {
    let pitch = pid_tick(
        sp.pitch,
        params.v_pitch,
        pid.pitch,
        coeffs.pitch.k_p_rate,
        coeffs.pitch.k_i_rate,
        mul_spec(coeffs.pitch.k_d_rate as int, d_scale as int) as i64,
        filters.pitch_rate,
        dt,
    );
    let roll = pid_tick(
        sp.roll,
        params.v_roll,
        pid.roll,
        coeffs.roll.k_p_rate,
        coeffs.roll.k_i_rate,
        mul_spec(coeffs.roll.k_d_rate as int, d_scale as int) as i64,
        filters.roll_rate,
        dt,
    );
    let yaw = pid_tick(
        sp.yaw,
        params.v_yaw,
        pid.yaw,
        coeffs.yaw.k_p_rate,
        coeffs.yaw.k_i_rate,
        mul_spec(coeffs.yaw.k_d_rate as int, d_scale as int) as i64,
        filters.yaw_rate,
        dt,
    );
    (
        PidGroup { pitch: pitch.0, roll: roll.0, yaw: yaw.0, thrust: pid.thrust },
        PidDerivFilters { pitch_rate: pitch.1, roll_rate: roll.1, yaw_rate: yaw.1, ..filters },
    )
}

/// The effort that the rate tier hands to the mixer.
pub open spec fn mix_of(pid: PidGroup, throttle: i64) -> CtrlMix {
    CtrlMix {
        pitch: out_spec(pid.pitch) as i64,
        roll: out_spec(pid.roll) as i64,
        yaw: out_spec(pid.yaw) as i64,
        throttle,
    }
}

/// One tick of the rate tier of a multirotor, the inner one: from commanded
/// angular rates to rotor powers and the frames that command them.
///
/// In acro mode the commanded rates come from the sticks; the autopilot's set
/// points `ap` replace them axis by axis. The derivative gains are attenuated
/// by the throttle. The outputs of the three controllers and the commanded
/// thrust are mixed into rotor powers, each limited on its own, and written
/// as frames; unless the motors are armed the frames command a stop.
pub fn run_rate_quad(
    params: &Params,
    input_mode: InputMode,
    ap: &RatesCommanded,
    ch_data: &ChannelData,
    rates_commanded: &mut CtrlInputs,
    pid: &mut PidGroup,
    filters: &mut PidDerivFilters,
    current_pwr: &mut RotorPower,
    rotor_mapping: &RotorMapping,
    payload: &mut DshotPayload,
    coeffs: &CtrlCoeffGroup,
    input_map: &InputMap,
    arm_status: ArmStatus,
    dt: i64,
)
    requires
        dt > 0,
    ensures
        *final(rates_commanded) == rate_set_points(
            *ch_data,
            *input_map,
            *old(rates_commanded),
            input_mode,
            *ap,
        ),
        (*final(pid), *final(filters)) == rate_pid_after(
            *params,
            *final(rates_commanded),
            *old(pid),
            *old(filters),
            *coeffs,
            tpa_spec(final(rates_commanded).thrust as int) as i64,
            dt,
        ),
        *final(current_pwr) == clamped_power(
            mixed_power(
                mix_of(*final(pid), final(rates_commanded).thrust),
                rotor_mapping.frontleft_aftright_dir,
            ),
        ),
        final(payload).esc_telem == old(payload).esc_telem,
        final(payload).buf@ == payload_for(*final(current_pwr), *rotor_mapping, arm_status, *old(payload)),
{
    let base = match input_mode {
        InputMode::Acro => CtrlInputs {
            pitch: input_map.calc_pitch_rate(ch_data.pitch),
            roll: input_map.calc_roll_rate(ch_data.roll),
            yaw: input_map.calc_yaw_rate(ch_data.yaw),
            thrust: input_map.calc_manual_throttle(ch_data.throttle),
        },
        _ => *rates_commanded,
    };
    let sp = ap.substitute_into(&base);
    let throttle = sp.thrust;
    let tpa_scaler = tpa_adjustment(throttle);
    let prev = *pid;
    pid.pitch =
    calc_pid_error(
        sp.pitch,
        params.v_pitch,
        &prev.pitch,
        coeffs.pitch.k_p_rate,
        coeffs.pitch.k_i_rate,
        fx_mul(coeffs.pitch.k_d_rate, tpa_scaler),
        &mut filters.pitch_rate,
        dt,
    );
    pid.roll =
    calc_pid_error(
        sp.roll,
        params.v_roll,
        &prev.roll,
        coeffs.roll.k_p_rate,
        coeffs.roll.k_i_rate,
        fx_mul(coeffs.roll.k_d_rate, tpa_scaler),
        &mut filters.roll_rate,
        dt,
    );
    pid.yaw =
    calc_pid_error(
        sp.yaw,
        params.v_yaw,
        &prev.yaw,
        coeffs.yaw.k_p_rate,
        coeffs.yaw.k_i_rate,
        fx_mul(coeffs.yaw.k_d_rate, tpa_scaler),
        &mut filters.yaw_rate,
        dt,
    );
    let pitch = pid.pitch.out();
    let roll = pid.roll.out();
    let yaw = pid.yaw.out();
    *rates_commanded = sp;
    quad::apply_controls(pitch, roll, yaw, throttle, current_pwr, rotor_mapping, payload, arm_status);
}

/// One tick of the rate tier of a flying wing: from commanded angular rates
/// to the settings of motor and elevons, the frame that commands the motor,
/// and the duty values of the servos. There is no attenuation by throttle and
/// no use for the yaw controller's output, since there is no yaw control.
pub fn run_rate_fixed_wing(
    params: &Params,
    input_mode: InputMode,
    ap: &RatesCommanded,
    ch_data: &ChannelData,
    rates_commanded: &mut CtrlInputs,
    pid: &mut PidGroup,
    filters: &mut PidDerivFilters,
    control_posits: &mut ControlPositions,
    mapping: &ServoWingMapping,
    payload: &mut DshotPayload,
    coeffs: &CtrlCoeffGroup,
    input_map: &InputMap,
    arm_status: ArmStatus,
    dt: i64,
) -> (servos: ServoDuties)
    requires
        dt > 0,
    ensures
        *final(rates_commanded) == rate_set_points(
            *ch_data,
            *input_map,
            *old(rates_commanded),
            input_mode,
            *ap,
        ),
        (*final(pid), *final(filters)) == rate_pid_after(
            *params,
            *final(rates_commanded),
            *old(pid),
            *old(filters),
            *coeffs,
            SCALE,
            dt,
        ),
        *final(control_posits) == flying_wing::clamped_positions(
            flying_wing::mixed_positions(
                out_spec(final(pid).pitch) as i64,
                out_spec(final(pid).roll) as i64,
                final(rates_commanded).thrust,
            ),
        ),
        final(payload).esc_telem == old(payload).esc_telem,
        final(payload).buf@ == flying_wing::wing_payload(
            *final(control_posits),
            arm_status,
            *old(payload),
        ),
        servos == flying_wing::wing_duties(*final(control_posits), arm_status, *mapping),
{
    let base = match input_mode {
        InputMode::Acro => CtrlInputs {
            pitch: input_map.calc_pitch_rate(ch_data.pitch),
            roll: input_map.calc_roll_rate(ch_data.roll),
            yaw: input_map.calc_yaw_rate(ch_data.yaw),
            thrust: input_map.calc_manual_throttle(ch_data.throttle),
        },
        _ => *rates_commanded,
    };
    let sp = ap.substitute_into(&base);
    let prev = *pid;
    pid.pitch =
    calc_pid_error(
        sp.pitch,
        params.v_pitch,
        &prev.pitch,
        coeffs.pitch.k_p_rate,
        coeffs.pitch.k_i_rate,
        fx_mul(coeffs.pitch.k_d_rate, SCALE),
        &mut filters.pitch_rate,
        dt,
    );
    pid.roll =
    calc_pid_error(
        sp.roll,
        params.v_roll,
        &prev.roll,
        coeffs.roll.k_p_rate,
        coeffs.roll.k_i_rate,
        fx_mul(coeffs.roll.k_d_rate, SCALE),
        &mut filters.roll_rate,
        dt,
    );
    pid.yaw =
    calc_pid_error(
        sp.yaw,
        params.v_yaw,
        &prev.yaw,
        coeffs.yaw.k_p_rate,
        coeffs.yaw.k_i_rate,
        fx_mul(coeffs.yaw.k_d_rate, SCALE),
        &mut filters.yaw_rate,
        dt,
    );
    let pitch = pid.pitch.out();
    let roll = pid.roll.out();
    *rates_commanded = sp;
    flying_wing::apply_controls(pitch, roll, sp.thrust, control_posits, mapping, payload, arm_status)
}

/// One tick's inputs to a controller: set point, measurement, and seconds
/// since the tick before.
pub struct PidInput {
    pub set_pt: i64,
    pub measurement: i64,
    pub dt: i64,
}

/// The state of a controller and its filter after a run of ticks with fixed
/// gains.
pub open spec fn pid_run(
    start: (PidState, IirInstWrapper),
    inputs: Seq<PidInput>,
    k_p: i64,
    k_i: i64,
    k_d: i64,
) -> (PidState, IirInstWrapper)
    decreases inputs.len(),
{
    if inputs.len() == 0 {
        start
    } else {
        let before = pid_run(start, inputs.drop_last(), k_p, k_i, k_d);
        pid_tick(
            inputs.last().set_pt,
            inputs.last().measurement,
            before.0,
            k_p,
            k_i,
            k_d,
            before.1,
            inputs.last().dt,
        )
    }
}

/// The integrator cannot wind up: after any run of at least one tick, from
/// any state, with any gains and any inputs, the sum of the proportional
/// and the integral term lies between floor and ceiling.
pub proof fn lemma_integrator_bound_over_runs(
    start: (PidState, IirInstWrapper),
    inputs: Seq<PidInput>,
    k_p: i64,
    k_i: i64,
    k_d: i64,
)
    requires
        inputs.len() > 0,
    ensures
        ({
            let s = pid_run(start, inputs, k_p, k_i, k_d).0;
            INTEGRATOR_CLAMP_MIN <= s.p + s.i <= INTEGRATOR_CLAMP_MAX
        }),
{
    let before = pid_run(start, inputs.drop_last(), k_p, k_i, k_d);
    let last = inputs.last();
    let e = error_spec(last.set_pt as int, last.measurement as int);
    let p = mul_spec(k_p as int, e);
    let raw = integral_spec(k_i as int, e, before.0.e as int, before.0.i as int, last.dt as int);
    lemma_integrator_bound(raw as i64, p as i64);
}

/// A controller with only a proportional gain, whose integral term is zero
/// and whose filter is at rest, puts out the gain times the error, as long
/// as that lies between floor and ceiling, and leaves the integral term at
/// zero and the filter at rest: it does so on every tick.
pub proof fn lemma_proportional_only(
    set_pt: i64,
    measurement: i64,
    prev: PidState,
    k_p: i64,
    filter: IirInstWrapper,
    dt: i64,
)
    requires
        dt > 0,
        prev.i == 0,
        filter.x1 == 0 && filter.x2 == 0 && filter.y1 == 0 && filter.y2 == 0,
    ensures
        ({
            let (s, f) = pid_tick(set_pt, measurement, prev, k_p, 0, 0, filter, dt);
            &&& s.p == mul_spec(k_p as int, sub_spec(set_pt as int, measurement as int))
            &&& s.i == windup_clamp(0, s.p as int)
            &&& INTEGRATOR_CLAMP_MIN <= s.p <= INTEGRATOR_CLAMP_MAX ==> s.i == 0 && out_spec(s) == s.p
            &&& s.d == 0
            &&& f.x1 == 0 && f.x2 == 0 && f.y1 == 0 && f.y2 == 0
        }),
{
    let e = error_spec(set_pt as int, measurement as int);
    let sum = add_spec(e, prev.e as int);
    assert(0 * sum == 0);
    assert(mul_spec(0, sum) == 0);
    assert(0 * (dt as int) == 0);
    let dm = sub_spec(measurement as int, prev.measurement as int);
    assert(0 * dm == 0);
    assert(mul_spec(0, dm) == 0);
    assert(0 * (SCALE as int) == 0);
    assert(div_spec(0, dt as int) == 0);
    assert(forall|c: int| #[trigger] (c * 0) == 0);
    assert(forall|c: int| #[trigger] mul_spec(c, 0) == 0);
}

} // verus!
