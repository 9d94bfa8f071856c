//! Autopilot behaviours: the set points that they substitute for the pilot's.

use vstd::prelude::*;
use crate::fixed::{clamp, clamp_spec, fx_mul, fx_sub, mul_spec, sub_spec};
use crate::flight_ctrls::common::{AltType, InputMap, Location, LocationType, OptionalSensorStatus, Params, RatesCommanded, map_stick};
use crate::pid::{calc_pid_error, out_spec, pid_tick, CtrlCoeffGroup, PidDerivFilters, PidGroup, DT_ATTITUDE};

verus! {

/// Metres of altitude and of track by which a fixed wing may miss an orbit
/// and still count as established on it.
pub const ORBIT_START_LATERAL_TOLERANCE: i64 = 10_000_000_000;

/// Radians of heading by which a fixed wing may miss an orbit's track.
pub const ORBIT_START_HEADING_TOLERANCE: i64 = 400_000_000;

/// Radius of an orbit for which none is given, metres.
pub const ORBIT_DEFAULT_RADIUS: i64 = 20_000_000_000;

/// Ground speed on an orbit for which none is given, metres per second.
pub const ORBIT_DEFAULT_GROUNDSPEED: i64 = 10_000_000_000;

/// Largest bank that any autopilot behaviour commands: a sixth of a turn.
pub const MAX_BANK: i64 = 1_047_197_551;

/// Radians of bank commanded per radian of heading error.
pub const ROLL_PER_HEADING: i64 = 2_000_000_000;

/// Radians of heading by which a fixed wing may miss the landing heading
/// when it starts its descent.
pub const GLIDESLOPE_START_HEADING_TOLERANCE: i64 = 250_000_000;

/// Radians by which a fixed wing may be off the glide slope when it starts
/// its descent.
pub const GLIDESLOPE_START_LATERAL_TOLERANCE: i64 = 300_000_000;

/// The shape of an orbit.
#[derive(Clone, Copy, Debug, PartialEq, Eq, Structural)]
pub enum OrbitShape {
    Circular,
    Racetrack,
}

impl Default for OrbitShape {
    fn default() -> (r: Self)
        ensures
            r == OrbitShape::Circular,
    {
        OrbitShape::Circular
    }
}

/// The sense of an orbit, seen from above.
#[derive(Clone, Copy, Debug, PartialEq, Eq, Structural)]
pub enum OrbitDirection {
    Clockwise,
    CounterClockwise,
}

impl Default for OrbitDirection {
    fn default() -> (r: Self)
        ensures
            r == OrbitDirection::Clockwise,
    {
        OrbitDirection::Clockwise
    }
}

/// An orbit of a fixed wing around a point on the ground.
#[derive(Clone, Copy, Debug, PartialEq, Eq, Structural)]
pub struct Orbit {
    pub shape: OrbitShape,
    /// Radians.
    pub center_lat: i64,
    /// Radians.
    pub center_lon: i64,
    /// Metres.
    pub radius: i64,
    /// Metres per second.
    pub ground_speed: i64,
    pub direction: OrbitDirection,
}

/// How to land: a multirotor descends vertically from an altitude at a
/// speed; a fixed wing flies a glide slope on a heading and flares.
#[derive(Clone, Copy, Debug, PartialEq, Eq, Structural)]
pub struct LandingCfg {
    /// Multirotor: altitude at which the descent starts, metres above mean sea level.
    pub descent_starting_alt_msl: i64,
    /// Multirotor: speed of the descent, metres per second.
    pub descent_speed: i64,
    /// Where to touch down.
    pub touchdown_point: Location,
    /// Fixed wing: heading of the approach, radians.
    pub heading: i64,
    /// Fixed wing: glide slope, radians down from level.
    pub glideslope: i64,
    /// Fixed wing: ground speed of the approach, metres per second.
    pub ground_speed: i64,
    /// Fixed wing: angle of attack of the approach, radians.
    pub angle_of_attack: i64,
    /// Fixed wing: altitude above ground at which the flare starts, metres.
    pub flare_alt_agl: i64,
    /// Fixed wing: metres to fly on the approach heading before the descent.
    pub min_ground_track: i64,
}

/// The autopilot behaviours that are switched on. They are independent
/// switches; where several are on, the one of highest precedence acts.
#[derive(Clone, Copy, Debug, PartialEq, Eq)]
pub struct AutopilotStatus {
    /// Hold an altitude of the given kind.
    pub alt_hold: Option<(AltType, i64)>,
    /// Hold a heading.
    pub hdg_hold: Option<i64>,
    /// Turn the nose into the direction of travel. Multirotor only.
    pub yaw_assist: bool,
    /// Bank into the direction of travel. Multirotor only.
    pub roll_assist: bool,
    /// Follow a flight path given by its pitch and heading.
    pub velocity_vector: Option<(i64, i64)>,
    /// Fly straight to a point.
    pub direct_to_point: Option<Location>,
    /// Fly a stored sequence of points.
    pub sequence: bool,
    /// Hold a height above the terrain ahead.
    pub terrain_following: Option<i64>,
    /// Take off.
    pub takeoff: bool,
    /// Land.
    pub land: Option<LandingCfg>,
    /// Recover to level flight at this altitude above mean sea level.
    pub recover: Option<i64>,
    /// Hold a position and altitude. Multirotor only.
    pub loiter: Option<Location>,
    /// Orbit a point. Fixed wing only.
    pub orbit: Option<Orbit>,
}

/// The behaviour that acts on the horizontal axes in one cycle.
#[derive(Clone, Copy, Debug, PartialEq, Eq, Structural)]
pub enum AutopilotMode {
    /// Recover to level flight and a safe altitude.
    Recover,
    /// Land.
    Land,
    /// Fly straight to a point.
    DirectToPoint,
    /// Hold a position, or orbit a point.
    Loiter,
    /// Take off.
    Takeoff,
    /// No behaviour acts; the pilot flies.
    Manual,
}

/// What the navigation solution says of the point that the acting behaviour
/// flies to.
#[derive(Clone, Copy, Debug, PartialEq, Eq, Structural)]
pub struct NavSolution {
    /// Great-circle bearing to the point, radians.
    pub bearing: i64,
    /// Distance to the point, metres.
    pub distance: i64,
    /// Angle of the straight line to the point above level, radians.
    pub climb_angle: i64,
}

/// The set points that the autopilot substitutes in one cycle, at the
/// attitude tier and at the rate tier.
#[derive(Clone, Copy, Debug, PartialEq, Eq, Structural)]
pub struct ApCommands {
    pub attitude: RatesCommanded,
    pub rates: RatesCommanded,
}

/// The bank that turns the aircraft onto a heading: proportional to the
/// heading error, and never more than `MAX_BANK` either way.
pub open spec fn bank_for(target_heading: i64, heading: i64) -> i64 {
    clamp_spec(
        mul_spec(sub_spec(target_heading as int, heading as int), ROLL_PER_HEADING as int),
        -MAX_BANK,
        MAX_BANK as int,
    ) as i64
}

/// The bank that turns the aircraft from `heading` onto `target_heading`.
pub fn bank_toward(target_heading: i64, heading: i64) -> (r: i64)
    ensures
        r == bank_for(target_heading, heading),
        -MAX_BANK <= r <= MAX_BANK,
{
    clamp(fx_mul(fx_sub(target_heading, heading), ROLL_PER_HEADING), -MAX_BANK, MAX_BANK)
}

impl AutopilotStatus {
    /// The autopilot with no behaviour switched on.
    pub open spec fn idle() -> AutopilotStatus {
        AutopilotStatus {
            alt_hold: None,
            hdg_hold: None,
            yaw_assist: false,
            roll_assist: false,
            velocity_vector: None,
            direct_to_point: None,
            sequence: false,
            terrain_following: None,
            takeoff: false,
            land: None,
            recover: None,
            loiter: None,
            orbit: None,
        }
    }

    /// No behaviour switched on.
    pub fn new() -> (r: Self)
        ensures
            r == AutopilotStatus::idle(),
    {
        AutopilotStatus {
            alt_hold: None,
            hdg_hold: None,
            yaw_assist: false,
            roll_assist: false,
            velocity_vector: None,
            direct_to_point: None,
            sequence: false,
            terrain_following: None,
            takeoff: false,
            land: None,
            recover: None,
            loiter: None,
            orbit: None,
        }
    }

    /// The behaviour that acts, by precedence: recovery, then landing, then
    /// direct-to-point, then loiter or orbit, then take-off. A behaviour that
    /// needs a position fix is passed over while there is none.
    pub open spec fn mode_spec(self, sensors: OptionalSensorStatus) -> AutopilotMode {
        if self.recover.is_some() {
            AutopilotMode::Recover
        } else if self.land.is_some() && sensors.gps_connected {
            AutopilotMode::Land
        } else if self.direct_to_point.is_some() && sensors.gps_connected {
            AutopilotMode::DirectToPoint
        } else if (self.loiter.is_some() || self.orbit.is_some()) && sensors.gps_connected {
            AutopilotMode::Loiter
        } else if self.takeoff {
            AutopilotMode::Takeoff
        } else {
            AutopilotMode::Manual
        }
    }

    /// Whether the aircraft heads for the point of direct-to-point in this
    /// cycle: when that behaviour acts, and during recovery if a point is
    /// set and there is a position fix.
    pub open spec fn heads_for_point(self, sensors: OptionalSensorStatus) -> bool {
        self.mode_spec(sensors) == AutopilotMode::DirectToPoint || (self.mode_spec(sensors)
            == AutopilotMode::Recover && self.direct_to_point.is_some() && sensors.gps_connected)
    }

    /// The behaviour that acts in this cycle.
    pub fn mode(&self, sensors: &OptionalSensorStatus) -> (r: AutopilotMode)
        ensures
            r == self.mode_spec(*sensors),
    {
        if self.recover.is_some() {
            AutopilotMode::Recover
        } else if self.land.is_some() && sensors.gps_connected {
            AutopilotMode::Land
        } else if self.direct_to_point.is_some() && sensors.gps_connected {
            AutopilotMode::DirectToPoint
        } else if (self.loiter.is_some() || self.orbit.is_some()) && sensors.gps_connected {
            AutopilotMode::Loiter
        } else if self.takeoff {
            AutopilotMode::Takeoff
        } else {
            AutopilotMode::Manual
        }
    }

    /// The point that the navigation solution is to be worked out for: the
    /// touch-down point while landing, the point to hold or the centre of
    /// the orbit while loitering, else the point of direct-to-point, if there
    /// is one.
    pub open spec fn nav_target_spec(self, sensors: OptionalSensorStatus, alt_msl: i64) -> Option<Location> {
        let mode = self.mode_spec(sensors);
        if mode == AutopilotMode::Land {
            Some(self.land.unwrap().touchdown_point)
        } else if mode == AutopilotMode::Loiter {
            if self.loiter.is_some() {
                self.loiter
            } else {
                Some(
                    Location {
                        type_: LocationType::LatLon,
                        x: self.orbit.unwrap().center_lat,
                        y: self.orbit.unwrap().center_lon,
                        z: alt_msl,
                    },
                )
            }
        } else {
            self.direct_to_point
        }
    }

    /// The point to work the navigation solution out for in this cycle. The
    /// centre of an orbit is taken at the aircraft's own altitude `alt_msl`.
    pub fn nav_target(&self, sensors: &OptionalSensorStatus, alt_msl: i64) -> (r: Option<Location>)
        ensures
            r == self.nav_target_spec(*sensors, alt_msl),
    {
        let mode = self.mode(sensors);
        if mode == AutopilotMode::Land {
            match self.land {
                Some(cfg) => Some(cfg.touchdown_point),
                None => None,
            }
        } else if mode == AutopilotMode::Loiter {
            match self.loiter {
                Some(pt) => Some(pt),
                None => match self.orbit {
                    Some(orbit) => Some(
                        Location { type_: LocationType::LatLon, x: orbit.center_lat, y: orbit.center_lon, z: alt_msl },
                    ),
                    None => None,
                },
            }
        } else {
            self.direct_to_point
        }
    }

    /// The altitude to hold and the altitude measured against it, if an
    /// altitude is held in this cycle. Recovery holds its own altitude above
    /// mean sea level. Otherwise altitude hold acts unless the aircraft takes
    /// off or lands (or, where `yields_to_point` says so, flies to a point);
    /// above ground it needs the range sensor, and does not act without it.
    pub open spec fn altitude_target_spec(
        self,
        params: Params,
        sensors: OptionalSensorStatus,
        yields_to_point: bool,
    ) -> Option<(i64, i64)> {
        let mode = self.mode_spec(sensors);
        if mode == AutopilotMode::Recover {
            Some((self.recover.unwrap(), params.baro_alt_msl))
        } else if mode == AutopilotMode::Takeoff || mode == AutopilotMode::Land || (yields_to_point
            && mode == AutopilotMode::DirectToPoint) {
            None
        } else {
            match self.alt_hold {
                Some((AltType::Msl, alt)) => Some((alt, params.baro_alt_msl)),
                Some((AltType::Agl, alt)) => if sensors.tof_connected && params.tof_alt.is_some() {
                    Some((alt, params.tof_alt.unwrap()))
                } else {
                    None
                },
                None => None,
            }
        }
    }

    /// The altitude to hold and the altitude measured against it.
    pub fn altitude_target(
        &self,
        params: &Params,
        sensors: &OptionalSensorStatus,
        yields_to_point: bool,
    ) -> (r: Option<(i64, i64)>)
        ensures
            r == self.altitude_target_spec(*params, *sensors, yields_to_point),
    {
        let mode = self.mode(sensors);
        if mode == AutopilotMode::Recover {
            match self.recover {
                Some(alt) => Some((alt, params.baro_alt_msl)),
                None => None,
            }
        } else if mode == AutopilotMode::Takeoff || mode == AutopilotMode::Land || (yields_to_point
            && mode == AutopilotMode::DirectToPoint) {
            None
        } else {
            match self.alt_hold {
                Some((AltType::Msl, alt)) => Some((alt, params.baro_alt_msl)),
                Some((AltType::Agl, alt)) => {
                    if sensors.tof_connected {
                        match params.tof_alt {
                            Some(h) => Some((alt, h)),
                            None => None,
                        }
                    } else {
                        None
                    }
                },
                None => None,
            }
        }
    }

    /// What a multirotor's autopilot substitutes, given the output of the
    /// altitude controller where an altitude is held.
    pub open spec fn quad_commands(
        self,
        input_map: InputMap,
        sensors: OptionalSensorStatus,
        nav: NavSolution,
        thrust: Option<i64>,
    ) -> ApCommands {
        let mode = self.mode_spec(sensors);
        let level = mode == AutopilotMode::Recover || mode == AutopilotMode::Land || mode
            == AutopilotMode::Takeoff;
        ApCommands {
            attitude: RatesCommanded {
                pitch: if level {
                    Some(map_stick(0, input_map.pitch_angle) as i64)
                } else {
                    None
                },
                roll: if level {
                    Some(map_stick(0, input_map.roll_angle) as i64)
                } else {
                    None
                },
                yaw: if self.heads_for_point(sensors) {
                    Some(nav.bearing)
                } else {
                    None
                },
                thrust: None,
            },
            rates: RatesCommanded { pitch: None, roll: None, yaw: None, thrust },
        }
    }

    /// The autopilot of a multirotor: the set points it substitutes in this
    /// cycle. Recovery, landing and take-off command a level attitude;
    /// direct-to-point commands the bearing to the point as heading, and so
    /// does recovery once a point is set and there is a position fix. Where an
    /// altitude is held, the error between it and the measured altitude
    /// passes through the thrust controller of `pid`, whose output becomes
    /// the thrust set point of the rate tier; otherwise `pid` and `filters`
    /// are left as they are.
    pub fn apply(
        &self,
        params: &Params,
        pid: &mut PidGroup,
        filters: &mut PidDerivFilters,
        coeffs: &CtrlCoeffGroup,
        input_map: &InputMap,
        optional_sensors: &OptionalSensorStatus,
        nav: &NavSolution,
    ) -> (r: ApCommands)
        ensures
            final(pid).pitch == old(pid).pitch,
            final(pid).roll == old(pid).roll,
            final(pid).yaw == old(pid).yaw,
            *final(filters) == (PidDerivFilters { thrust: final(filters).thrust, ..*old(filters) }),
            match self.altitude_target_spec(*params, *optional_sensors, false) {
                Some((target, measured)) => {
                    &&& (final(pid).thrust, final(filters).thrust) == pid_tick(
                        target,
                        measured,
                        old(pid).thrust,
                        coeffs.thrust.k_p_attitude,
                        coeffs.thrust.k_i_attitude,
                        coeffs.thrust.k_s_attitude,
                        old(filters).thrust,
                        DT_ATTITUDE,
                    )
                    &&& r == self.quad_commands(
                        *input_map,
                        *optional_sensors,
                        *nav,
                        Some(out_spec(final(pid).thrust) as i64),
                    )
                },
                None => {
                    &&& final(pid).thrust == old(pid).thrust
                    &&& final(filters).thrust == old(filters).thrust
                    &&& r == self.quad_commands(*input_map, *optional_sensors, *nav, None)
                },
            },
    {
        let mode = self.mode(optional_sensors);
        let mut attitude = RatesCommanded::default();
        let mut rates = RatesCommanded::default();
        match mode {
            AutopilotMode::Recover => {
                attitude.pitch = Some(input_map.calc_pitch_angle(0));
                attitude.roll = Some(input_map.calc_roll_angle(0));
                if self.direct_to_point.is_some() && optional_sensors.gps_connected {
                    attitude.yaw = Some(nav.bearing);
                }
            },
            AutopilotMode::Land | AutopilotMode::Takeoff => {
                attitude.pitch = Some(input_map.calc_pitch_angle(0));
                attitude.roll = Some(input_map.calc_roll_angle(0));
            },
            AutopilotMode::DirectToPoint => {
                attitude.yaw = Some(nav.bearing);
            },
            AutopilotMode::Loiter => {},
            AutopilotMode::Manual => {},
        }
        match self.altitude_target(params, optional_sensors, false) {
            Some((target, measured)) => {
                let prev = pid.thrust;
                pid.thrust = calc_pid_error(
                    target,
                    measured,
                    &prev,
                    coeffs.thrust.k_p_attitude,
                    coeffs.thrust.k_i_attitude,
                    coeffs.thrust.k_s_attitude,
                    &mut filters.thrust,
                    DT_ATTITUDE,
                );
                rates.thrust = Some(pid.thrust.out());
            },
            None => {},
        }
        ApCommands { attitude, rates }
    }

    /// What a fixed wing's autopilot substitutes, given the output of the
    /// altitude controller where an altitude is held.
    pub open spec fn fixed_wing_commands(
        self,
        params: Params,
        sensors: OptionalSensorStatus,
        nav: NavSolution,
        pitch: Option<i64>,
    ) -> ApCommands {
        let mode = self.mode_spec(sensors);
        ApCommands {
            attitude: RatesCommanded {
                pitch: if pitch.is_some() {
                    pitch
                } else if mode == AutopilotMode::Land {
                    Some(sub_spec(0, self.land.unwrap().glideslope as int) as i64)
                } else if mode == AutopilotMode::DirectToPoint {
                    Some(clamp_spec(nav.climb_angle as int, -MAX_BANK, MAX_BANK as int) as i64)
                } else {
                    None
                },
                roll: if mode == AutopilotMode::Recover && !self.heads_for_point(sensors) {
                    Some(0i64)
                } else if mode == AutopilotMode::Land {
                    Some(bank_for(self.land.unwrap().heading, params.s_yaw_heading))
                } else if self.heads_for_point(sensors) || mode == AutopilotMode::Loiter {
                    Some(bank_for(nav.bearing, params.s_yaw_heading))
                } else {
                    None
                },
                yaw: None,
                thrust: None,
            },
            rates: RatesCommanded { pitch: None, roll: None, yaw: None, thrust: None },
        }
    }

    /// The autopilot of a fixed wing: the set points it substitutes in this
    /// cycle. Recovery commands wings level, or, once a point is set and
    /// there is a position fix, a bank toward it; landing flies the glide slope
    /// on the landing heading; direct-to-point and orbit bank toward the
    /// bearing of the point, and direct-to-point pitches along the straight
    /// line to it, within `MAX_BANK`. Where an altitude is held, the error
    /// between it and the measured altitude passes through the pitch
    /// controller of `pid_attitude`, whose output becomes the pitch set
    /// point; otherwise `pid_attitude` and `filters` are left as they are.
    pub fn apply_fixed_wing(
        &self,
        params: &Params,
        pid_attitude: &mut PidGroup,
        filters: &mut PidDerivFilters,
        coeffs: &CtrlCoeffGroup,
        optional_sensors: &OptionalSensorStatus,
        nav: &NavSolution,
    ) -> (r: ApCommands)
        ensures
            final(pid_attitude).thrust == old(pid_attitude).thrust,
            final(pid_attitude).roll == old(pid_attitude).roll,
            final(pid_attitude).yaw == old(pid_attitude).yaw,
            *final(filters) == (PidDerivFilters {
                pitch_attitude: final(filters).pitch_attitude,
                ..*old(filters)
            }),
            match self.altitude_target_spec(*params, *optional_sensors, true) {
                Some((target, measured)) => {
                    &&& (final(pid_attitude).pitch, final(filters).pitch_attitude) == pid_tick(
                        target,
                        measured,
                        old(pid_attitude).pitch,
                        coeffs.pitch.k_p_attitude,
                        coeffs.pitch.k_i_attitude,
                        coeffs.pitch.k_d_attitude,
                        old(filters).pitch_attitude,
                        DT_ATTITUDE,
                    )
                    &&& r == self.fixed_wing_commands(
                        *params,
                        *optional_sensors,
                        *nav,
                        Some(out_spec(final(pid_attitude).pitch) as i64),
                    )
                },
                None => {
                    &&& final(pid_attitude).pitch == old(pid_attitude).pitch
                    &&& final(filters).pitch_attitude == old(filters).pitch_attitude
                    &&& r == self.fixed_wing_commands(*params, *optional_sensors, *nav, None)
                },
            },
    {
        let mode = self.mode(optional_sensors);
        let mut attitude = RatesCommanded::default();
        match mode {
            AutopilotMode::Recover => {
                if self.direct_to_point.is_some() && optional_sensors.gps_connected {
                    attitude.roll = Some(bank_toward(nav.bearing, params.s_yaw_heading));
                } else {
                    attitude.roll = Some(0);
                }
            },
            AutopilotMode::Land => {
                match self.land {
                    Some(ldg_cfg) => {
                        attitude.pitch = Some(fx_sub(0, ldg_cfg.glideslope));
                        attitude.roll = Some(bank_toward(ldg_cfg.heading, params.s_yaw_heading));
                    },
                    None => {},
                }
            },
            AutopilotMode::DirectToPoint => {
                attitude.pitch = Some(clamp(nav.climb_angle, -MAX_BANK, MAX_BANK));
                attitude.roll = Some(bank_toward(nav.bearing, params.s_yaw_heading));
            },
            AutopilotMode::Loiter => {
                attitude.roll = Some(bank_toward(nav.bearing, params.s_yaw_heading));
            },
            AutopilotMode::Takeoff => {},
            AutopilotMode::Manual => {},
        }
        match self.altitude_target(params, optional_sensors, true) {
            Some((target, measured)) => {
                let prev = pid_attitude.pitch;
                pid_attitude.pitch = calc_pid_error(
                    target,
                    measured,
                    &prev,
                    coeffs.pitch.k_p_attitude,
                    coeffs.pitch.k_i_attitude,
                    coeffs.pitch.k_d_attitude,
                    &mut filters.pitch_attitude,
                    DT_ATTITUDE,
                );
                attitude.pitch = Some(pid_attitude.pitch.out());
            },
            None => {},
        }
        ApCommands { attitude, rates: RatesCommanded::default() }
    }
}

impl Default for AutopilotStatus {
    fn default() -> (r: Self)
        ensures
            r == AutopilotStatus::idle(),
    {
        AutopilotStatus::new()
    }
}

/// Recovery overrides every other behaviour: while it is switched on it is
/// the behaviour that acts, whatever else is switched on and whatever the
/// sensors say, and it holds its own altitude.
pub proof fn lemma_recovery_overrides(a: AutopilotStatus, params: Params, sensors: OptionalSensorStatus)
    requires
        a.recover.is_some(),
    ensures
        a.mode_spec(sensors) == AutopilotMode::Recover,
        a.altitude_target_spec(params, sensors, false) == Some((a.recover.unwrap(), params.baro_alt_msl)),
        a.altitude_target_spec(params, sensors, true) == Some((a.recover.unwrap(), params.baro_alt_msl)),
{
}

/// Switching a behaviour of lower precedence on or off does not change which
/// behaviour acts while one of higher precedence does.
pub proof fn lemma_precedence(a: AutopilotStatus, b: AutopilotStatus, sensors: OptionalSensorStatus)
    requires
        a.recover == b.recover,
        a.land == b.land,
    ensures
        a.mode_spec(sensors) == AutopilotMode::Land ==> b.mode_spec(sensors) == AutopilotMode::Land,
        a.direct_to_point == b.direct_to_point && a.mode_spec(sensors) == AutopilotMode::DirectToPoint
            ==> b.mode_spec(sensors) == AutopilotMode::DirectToPoint,
{
}

/// Without a position fix no behaviour that needs one acts.
pub proof fn lemma_no_fix_no_navigation(a: AutopilotStatus, sensors: OptionalSensorStatus)
    requires
        !sensors.gps_connected,
    ensures
        a.mode_spec(sensors) != AutopilotMode::Land,
        a.mode_spec(sensors) != AutopilotMode::DirectToPoint,
        a.mode_spec(sensors) != AutopilotMode::Loiter,
{
}

} // verus!
