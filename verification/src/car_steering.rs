//! The rear-wheel-drive bicycle-model vehicle: configuration, derived
//! constants, per-tick control input, and the mutable vehicle state advanced
//! by [`CarSteering::update`]. All quantities are fixed-point `i64` values
//! with six decimal places (metres, metres per second, radians, newtons, and
//! kilograms in micro-units).

use vstd::prelude::*;

use crate::fixed::{
    clamp, clamp_s, fdiv, fdiv_s, fmul, fmul_s, lemma_fmul_frac_bound, lemma_fmul_nonneg, mag,
    mag_fp, norm2, sat_add, sat_add_s, sat_s, sat_sub, sat_sub_s, sgn, sgn_s, sqrt_s, FP, FP_SAT,
};
use crate::trig::{atan2_fp, atan2_s, cos_fp, cos_s, sin_fp, sin_s, wrap, wrap_s, PI_FP};
use crate::vec_math::Vec2;

verus! {

/// Steering inputs below this magnitude count as released.
pub const STEER_EPS_FP: i64 = 1_000;

/// Speed at which steering authority has fully vanished: 250 m/s.
pub const STEER_VMAX_FP: i64 = 250_000_000;

/// Below this speed, with no throttle, the car is stopped outright: 0.5 m/s.
pub const LOW_SPEED_FP: i64 = 500_000;

/// Largest admissible configuration entry, so derived values stay in range.
pub const CFG_MAX: i64 = 1_000_000_000_000;

/// Physical and tuning constants of one vehicle, fixed for its lifetime.
#[derive(Clone, Copy, PartialEq, Eq, Structural, Debug)]
pub struct SteeringCfg {
    /// Gravitational acceleration (m/s^2).
    pub gravity: i64,
    /// Vehicle mass (kg).
    pub mass: i64,
    /// Multiplied by the mass to obtain the rotational inertia.
    pub inertia_scale: i64,
    /// Centre to side of chassis (m).
    pub half_width: i64,
    /// Centre of gravity to front of chassis (m).
    pub cg_to_front: i64,
    /// Centre of gravity to rear of chassis (m).
    pub cg_to_rear: i64,
    /// Centre of gravity to front axle (m).
    pub cg_to_front_axle: i64,
    /// Centre of gravity to rear axle (m).
    pub cg_to_rear_axle: i64,
    /// Height of the centre of gravity (m).
    pub cg_height: i64,
    /// Wheel radius including the tire (m).
    pub wheel_radius: i64,
    /// Wheel width (m), used for rendering only.
    pub wheel_width: i64,
    /// Peak tire grip, as a multiple of the axle load.
    pub tire_grip: i64,
    /// Fraction of the grip that remains when a wheel is locked, in (0, 1].
    pub lock_grip: i64,
    /// Peak engine force (N).
    pub engine_force: i64,
    /// Peak brake force (N).
    pub brake_force: i64,
    /// Peak hand-brake force (N).
    pub ebrake_force: i64,
    /// How much weight shifts between the axles under acceleration.
    pub weight_transfer: i64,
    /// Maximum front-wheel steering angle (rad).
    pub max_steer: i64,
    /// Front cornering stiffness.
    pub corner_stiffness_front: i64,
    /// Rear cornering stiffness.
    pub corner_stiffness_rear: i64,
    /// Air resistance coefficient (force per speed squared).
    pub air_resist: i64,
    /// Rolling resistance coefficient (force per speed).
    pub roll_resist: i64,
}

impl SteeringCfg {
    /// The stock rear-wheel-drive tuning.
    pub open spec fn def_steering_s() -> SteeringCfg {
        SteeringCfg {
            gravity: 9_810_000i64,
            mass: 1_200_000_000i64,
            inertia_scale: 1_000_000i64,
            half_width: 800_000i64,
            cg_to_front: 2_000_000i64,
            cg_to_rear: 2_000_000i64,
            cg_to_front_axle: 1_250_000i64,
            cg_to_rear_axle: 1_250_000i64,
            cg_height: 550_000i64,
            wheel_radius: 300_000i64,
            wheel_width: 200_000i64,
            tire_grip: 2_000_000i64,
            lock_grip: 700_000i64,
            engine_force: 8_000_000_000i64,
            brake_force: 12_000_000_000i64,
            ebrake_force: 4_800_000_000i64,
            weight_transfer: 200_000i64,
            max_steer: 600_000i64,
            corner_stiffness_front: 5_000_000i64,
            corner_stiffness_rear: 5_200_000i64,
            air_resist: 2_500_000i64,
            roll_resist: 8_000_000i64,
        }
    }

    /// The stock rear-wheel-drive tuning; it passes validation.
    pub fn def_steering() -> (r: SteeringCfg)
        ensures
            r == SteeringCfg::def_steering_s(),
            r.wf(),
    {
        SteeringCfg {
            gravity: 9_810_000,
            mass: 1_200_000_000,
            inertia_scale: 1_000_000,
            half_width: 800_000,
            cg_to_front: 2_000_000,
            cg_to_rear: 2_000_000,
            cg_to_front_axle: 1_250_000,
            cg_to_rear_axle: 1_250_000,
            cg_height: 550_000,
            wheel_radius: 300_000,
            wheel_width: 200_000,
            tire_grip: 2_000_000,
            lock_grip: 700_000,
            engine_force: 8_000_000_000,
            brake_force: 12_000_000_000,
            ebrake_force: 4_800_000_000,
            weight_transfer: 200_000,
            max_steer: 600_000,
            corner_stiffness_front: 5_000_000,
            corner_stiffness_rear: 5_200_000,
            air_resist: 2_500_000,
            roll_resist: 8_000_000,
        }
    }

    /// Every physical entry is strictly positive and small enough that the
    /// derived constants stay representable; the lock-grip entry is a
    /// fraction of one.
    pub open spec fn wf(self) -> bool {
        &&& 0 < self.gravity <= CFG_MAX
        &&& 0 < self.mass <= CFG_MAX
        &&& 0 < self.inertia_scale <= CFG_MAX
        &&& 0 < self.half_width <= CFG_MAX
        &&& 0 < self.cg_to_front <= CFG_MAX
        &&& 0 < self.cg_to_rear <= CFG_MAX
        &&& 0 < self.cg_to_front_axle <= CFG_MAX
        &&& 0 < self.cg_to_rear_axle <= CFG_MAX
        &&& 0 < self.cg_height <= CFG_MAX
        &&& 0 < self.wheel_radius <= CFG_MAX
        &&& 0 < self.wheel_width <= CFG_MAX
        &&& 0 < self.tire_grip <= CFG_MAX
        &&& 0 < self.lock_grip <= FP
        &&& 0 < self.engine_force <= CFG_MAX
        &&& 0 < self.brake_force <= CFG_MAX
        &&& 0 < self.ebrake_force <= CFG_MAX
        &&& 0 < self.weight_transfer <= CFG_MAX
        &&& 0 < self.max_steer <= CFG_MAX
        &&& 0 < self.corner_stiffness_front <= CFG_MAX
        &&& 0 < self.corner_stiffness_rear <= CFG_MAX
        &&& 0 < self.air_resist <= CFG_MAX
        &&& 0 < self.roll_resist <= CFG_MAX
    }

    /// Whether all entries pass the construction-time validation.
    pub fn validate(&self) -> (r: bool)
        ensures
            r == self.wf(),
    {
        0 < self.gravity && self.gravity <= CFG_MAX && 0 < self.mass && self.mass <= CFG_MAX && 0
            < self.inertia_scale && self.inertia_scale <= CFG_MAX && 0 < self.half_width
            && self.half_width <= CFG_MAX && 0 < self.cg_to_front && self.cg_to_front <= CFG_MAX
            && 0 < self.cg_to_rear && self.cg_to_rear <= CFG_MAX && 0 < self.cg_to_front_axle
            && self.cg_to_front_axle <= CFG_MAX && 0 < self.cg_to_rear_axle
            && self.cg_to_rear_axle <= CFG_MAX && 0 < self.cg_height && self.cg_height <= CFG_MAX
            && 0 < self.wheel_radius && self.wheel_radius <= CFG_MAX && 0 < self.wheel_width
            && self.wheel_width <= CFG_MAX && 0 < self.tire_grip && self.tire_grip <= CFG_MAX && 0
            < self.lock_grip && self.lock_grip <= FP && 0 < self.engine_force && self.engine_force
            <= CFG_MAX && 0 < self.brake_force && self.brake_force <= CFG_MAX && 0
            < self.ebrake_force && self.ebrake_force <= CFG_MAX && 0 < self.weight_transfer
            && self.weight_transfer <= CFG_MAX && 0 < self.max_steer && self.max_steer <= CFG_MAX
            && 0 < self.corner_stiffness_front && self.corner_stiffness_front <= CFG_MAX && 0
            < self.corner_stiffness_rear && self.corner_stiffness_rear <= CFG_MAX && 0
            < self.air_resist && self.air_resist <= CFG_MAX && 0 < self.roll_resist
            && self.roll_resist <= CFG_MAX
    }
}

/// The commands asserted for the current tick; consumed and reset to neutral
/// by every `update`.
#[derive(Clone, Copy, PartialEq, Eq, Structural, Debug)]
pub struct CarInputState {
    /// Steer toward the left this tick.
    pub left: bool,
    /// Steer toward the right this tick.
    pub right: bool,
    /// Full throttle this tick.
    pub throttle: bool,
    /// Full brake this tick.
    pub brake: bool,
    /// Hand brake this tick.
    pub ebrake: bool,
}

impl CarInputState {
    /// The neutral input: nothing asserted.
    pub open spec fn neutral_s() -> CarInputState {
        CarInputState { left: false, right: false, throttle: false, brake: false, ebrake: false }
    }

    /// The neutral input: nothing asserted.
    pub fn neutral() -> (r: CarInputState)
        ensures
            r == CarInputState::neutral_s(),
    {
        CarInputState { left: false, right: false, throttle: false, brake: false, ebrake: false }
    }
}

impl Default for CarInputState {
    /// The default input is the neutral one.
    fn default() -> (r: CarInputState)
        ensures
            r == CarInputState::neutral_s(),
    {
        CarInputState::neutral()
    }
}

/// Constants computed once from the configuration when a vehicle is created.
#[derive(Clone, Copy, PartialEq, Eq, Structural, Debug)]
pub struct CarConfigComputed {
    /// Rotational inertia: mass times the inertia scale.
    pub inertia: i64,
    /// Distance between the axles.
    pub wheel_base: i64,
    /// Fraction of the weight on the front axle at rest.
    pub axle_weight_ratio_front: i64,
    /// Fraction of the weight on the rear axle at rest.
    pub axle_weight_ratio_rear: i64,
}

impl CarConfigComputed {
    /// The derived constants as a function of the configuration. The two
    /// axle-weight ratios sum to exactly one by construction.
    pub open spec fn from_config_s(cfg: SteeringCfg) -> CarConfigComputed {
        let wb = cfg.cg_to_front_axle + cfg.cg_to_rear_axle;
        let rf = fdiv_s(cfg.cg_to_rear_axle as int, wb);
        CarConfigComputed {
            inertia: fmul_s(cfg.mass as int, cfg.inertia_scale as int) as i64,
            wheel_base: wb as i64,
            axle_weight_ratio_front: rf as i64,
            axle_weight_ratio_rear: (FP - rf) as i64,
        }
    }

    /// Compute the derived constants from a validated configuration.
    pub fn from_config(cfg: &SteeringCfg) -> (r: CarConfigComputed)
        requires
            cfg.wf(),
        ensures
            r == CarConfigComputed::from_config_s(*cfg),
            0 <= r.axle_weight_ratio_front <= FP,
            r.axle_weight_ratio_front + r.axle_weight_ratio_rear == FP,
            0 < r.wheel_base,
    {
        let wb: i64 = cfg.cg_to_front_axle + cfg.cg_to_rear_axle;
        let rf: i64 = fdiv(cfg.cg_to_rear_axle, wb);
        proof {
            lemma_ratio_front_range(cfg.cg_to_rear_axle as int, wb as int);
        }
        CarConfigComputed {
            inertia: fmul(cfg.mass, cfg.inertia_scale),
            wheel_base: wb,
            axle_weight_ratio_front: rf,
            axle_weight_ratio_rear: FP - rf,
        }
    }
}

/// The front ratio a / wb, scaled by FP, lies in [0, FP] when 0 < a <= wb.
pub(crate) proof fn lemma_ratio_front_range(a: int, wb: int)
    requires
        0 < a <= wb,
    ensures
        0 <= fdiv_s(a, wb) <= FP,
{
    assert(a * (FP as int) == a * 1000000);
    assert(0 <= a * 1000000);
    assert(a * 1000000 <= wb * 1000000) by (nonlinear_arith)
        requires
            a <= wb,
    ;
    vstd::arithmetic::div_mod::lemma_div_pos_is_pos(a * 1000000, wb);
    vstd::arithmetic::div_mod::lemma_div_is_ordered(a * 1000000, wb * 1000000, wb);
    vstd::arithmetic::div_mod::lemma_div_by_multiple(1000000, wb);
    assert(wb * 1000000 == 1000000 * wb) by (nonlinear_arith);
}

/// The whole state of one simulated vehicle: the bicycle model's pose and
/// rates, together with the configuration it was built from and the commands
/// asserted for the coming tick.
#[derive(Clone, Copy, PartialEq, Eq, Structural, Debug)]
pub struct CarSteering {
    /// The configuration the vehicle was built from.
    pub cfg: SteeringCfg,
    /// The commands asserted since the last tick.
    pub input: CarInputState,
    /// Constants derived from the configuration at construction.
    pub comp: CarConfigComputed,
    /// Angle the car points at (rad).
    pub heading: i64,
    /// World-frame position (m).
    pub position: Vec2,
    /// World-frame velocity (m/s).
    pub velocity: Vec2,
    /// Car-frame velocity: x forward, y sideways (m/s).
    pub velocity_c: Vec2,
    /// World-frame acceleration (m/s^2).
    pub accel: Vec2,
    /// Car-frame acceleration (m/s^2).
    pub accel_c: Vec2,
    /// Speed: the magnitude of the velocity (m/s).
    pub abs_vel: i64,
    /// Angular velocity (rad/s).
    pub yaw_rate: i64,
    /// Smoothed steering input, always in [-FP, FP].
    pub steer: i64,
    /// Actual front-wheel steer angle (rad).
    pub steer_angle: i64,
}

/// The raw steering target of one tick: right minus left.
pub open spec fn steer_target_s(input: CarInputState) -> int {
    (if input.right {
        FP as int
    } else {
        0
    }) - (if input.left {
        FP as int
    } else {
        0
    })
}

/// First-order steering smoothing: move toward an asserted target at two per
/// second, clamped to [-FP, FP]; otherwise decay toward zero at one per
/// second without overshooting.
pub open spec fn smooth_steer_s(steer: int, target: int, dt: int) -> int {
    if mag(target) > STEER_EPS_FP {
        clamp_s(sat_add_s(steer, fmul_s(target, sat_add_s(dt, dt))), -(FP as int), FP as int)
    } else if steer > 0 {
        if steer - dt > 0 {
            steer - dt
        } else {
            0
        }
    } else if steer < 0 {
        if steer + dt < 0 {
            steer + dt
        } else {
            0
        }
    } else {
        0
    }
}

/// Speed-sensitive attenuation: steering authority vanishes linearly as the
/// speed approaches STEER_VMAX_FP.
pub open spec fn safe_steer_s(steer: int, abs_vel: int) -> int {
    let v = if abs_vel < STEER_VMAX_FP {
        abs_vel
    } else {
        STEER_VMAX_FP as int
    };
    fmul_s(steer, (FP as int) - fdiv_s(v, STEER_VMAX_FP as int))
}

/// World-frame velocity rotated into the car frame: forward component.
pub open spec fn velocity_local_x_s(car: CarSteering) -> int {
    sat_add_s(
        fmul_s(cos_s(car.heading as int), car.velocity.x as int),
        fmul_s(sin_s(car.heading as int), car.velocity.y as int),
    )
}

/// World-frame velocity rotated into the car frame: sideways component.
pub open spec fn velocity_local_y_s(car: CarSteering) -> int {
    sat_sub_s(
        fmul_s(cos_s(car.heading as int), car.velocity.y as int),
        fmul_s(sin_s(car.heading as int), car.velocity.x as int),
    )
}

/// Longitudinal weight shift between the axles, from the forward
/// acceleration of the previous tick.
pub open spec fn weight_shift_s(cfg: SteeringCfg, comp: CarConfigComputed, accel_cx: int) -> int {
    fdiv_s(
        fmul_s(fmul_s(cfg.weight_transfer as int, accel_cx), cfg.cg_height as int),
        comp.wheel_base as int,
    )
}

/// Front slip angle of the bicycle model, including the steer correction.
pub open spec fn slip_angle_front_s(
    cfg: SteeringCfg,
    vcx: int,
    vcy: int,
    yaw_rate: int,
    steer_angle: int,
) -> int {
    sat_sub_s(
        atan2_s(sat_add_s(vcy, fmul_s(cfg.cg_to_front_axle as int, yaw_rate)), mag(vcx)),
        fmul_s(sgn_s(vcx), steer_angle),
    )
}

/// Rear slip angle of the bicycle model.
pub open spec fn slip_angle_rear_s(cfg: SteeringCfg, vcx: int, vcy: int, yaw_rate: int) -> int {
    atan2_s(sat_sub_s(vcy, fmul_s(cfg.cg_to_rear_axle as int, yaw_rate)), mag(vcx))
}

/// The rear grip ceiling: reduced to the lock-grip fraction while the hand
/// brake is asserted.
pub open spec fn rear_grip_s(cfg: SteeringCfg, ebrake: bool) -> int {
    if ebrake {
        fmul_s(cfg.tire_grip as int, cfg.lock_grip as int)
    } else {
        cfg.tire_grip as int
    }
}

/// Lateral tire force: linear in the slip angle, clamped to the grip
/// ceiling, scaled by the axle load.
pub open spec fn lateral_force_s(stiffness: int, slip: int, grip: int, load: int) -> int {
    fmul_s(clamp_s(-fmul_s(stiffness, slip), -grip, grip), load)
}

/// Resistance along one car axis: linear rolling plus quadratic air drag,
/// always opposing the motion.
pub open spec fn drag_force_s(roll_resist: int, air_resist: int, v: int) -> int {
    -sat_add_s(fmul_s(roll_resist, v), fmul_s(fmul_s(air_resist, v), mag(v)))
}

/// Brake plus hand-brake force, capped at the brake force.
pub open spec fn brake_total_s(cfg: SteeringCfg, input: CarInputState) -> int {
    let b = sat_add_s(
        if input.brake {
            cfg.brake_force as int
        } else {
            0
        },
        if input.ebrake {
            cfg.ebrake_force as int
        } else {
            0
        },
    );
    if b < cfg.brake_force {
        b
    } else {
        cfg.brake_force as int
    }
}

/// One tick of the integrator: the successor state of `car` after `dt`
/// fixed-point seconds. `update` returns exactly this value.
pub open spec fn step_s(car: CarSteering, dt: int) -> CarSteering {
    let cfg = car.cfg;
    let comp = car.comp;
    let steer1 = smooth_steer_s(car.steer as int, steer_target_s(car.input), dt);
    let steer2 = safe_steer_s(steer1, car.abs_vel as int);
    let steer_angle = fmul_s(cfg.max_steer as int, steer2);
    let sn = sin_s(car.heading as int);
    let cs = cos_s(car.heading as int);
    let vcx = velocity_local_x_s(car);
    let vcy = velocity_local_y_s(car);
    let shift = weight_shift_s(cfg, comp, car.accel_c.x as int);
    let axle_weight_front = fmul_s(
        cfg.mass as int,
        sat_sub_s(fmul_s(comp.axle_weight_ratio_front as int, cfg.gravity as int), shift),
    );
    let axle_weight_rear = fmul_s(
        cfg.mass as int,
        sat_add_s(fmul_s(comp.axle_weight_ratio_rear as int, cfg.gravity as int), shift),
    );
    let slip_front = slip_angle_front_s(cfg, vcx, vcy, car.yaw_rate as int, steer_angle);
    let slip_rear = slip_angle_rear_s(cfg, vcx, vcy, car.yaw_rate as int);
    let friction_front = lateral_force_s(
        cfg.corner_stiffness_front as int,
        slip_front,
        cfg.tire_grip as int,
        axle_weight_front,
    );
    let friction_rear = lateral_force_s(
        cfg.corner_stiffness_rear as int,
        slip_rear,
        rear_grip_s(cfg, car.input.ebrake),
        axle_weight_rear,
    );
    let throttle = if car.input.throttle {
        cfg.engine_force as int
    } else {
        0
    };
    let traction_x = sat_sub_s(throttle, fmul_s(brake_total_s(cfg, car.input), sgn_s(vcx)));
    let drag_x = drag_force_s(cfg.roll_resist as int, cfg.air_resist as int, vcx);
    let drag_y = drag_force_s(cfg.roll_resist as int, cfg.air_resist as int, vcy);
    let total_fx = sat_add_s(drag_x, traction_x);
    let total_fy = sat_add_s(sat_add_s(drag_y, fmul_s(cos_s(steer_angle), friction_front)), friction_rear);
    let acx = fdiv_s(total_fx, cfg.mass as int);
    let acy = fdiv_s(total_fy, cfg.mass as int);
    let awx = sat_sub_s(fmul_s(cs, acx), fmul_s(sn, acy));
    let awy = sat_add_s(fmul_s(sn, acx), fmul_s(cs, acy));
    let vx = sat_add_s(car.velocity.x as int, fmul_s(awx, dt));
    let vy = sat_add_s(car.velocity.y as int, fmul_s(awy, dt));
    let speed = sat_s(sqrt_s(vx * vx + vy * vy));
    let torque = sat_sub_s(
        fmul_s(friction_front, cfg.cg_to_front_axle as int),
        fmul_s(friction_rear, cfg.cg_to_rear_axle as int),
    );
    let stopped = speed < LOW_SPEED_FP && !car.input.throttle;
    let vx1 = if stopped {
        0
    } else {
        vx
    };
    let vy1 = if stopped {
        0
    } else {
        vy
    };
    let speed1 = if stopped {
        0
    } else {
        speed
    };
    let torque1 = if stopped {
        0
    } else {
        torque
    };
    let yaw0 = if stopped {
        0
    } else {
        car.yaw_rate as int
    };
    let yaw1 = sat_add_s(yaw0, fmul_s(fdiv_s(torque1, comp.inertia as int), dt));
    let heading1 = wrap_s(sat_add_s(car.heading as int, fmul_s(yaw1, dt)));
    let px = sat_add_s(car.position.x as int, fmul_s(vx1, dt));
    let py = sat_add_s(car.position.y as int, fmul_s(vy1, dt));
    CarSteering {
        input: CarInputState::neutral_s(),
        heading: heading1 as i64,
        position: Vec2 { x: px as i64, y: py as i64 },
        velocity: Vec2 { x: vx1 as i64, y: vy1 as i64 },
        velocity_c: Vec2 { x: vcx as i64, y: vcy as i64 },
        accel: Vec2 { x: awx as i64, y: awy as i64 },
        accel_c: Vec2 { x: acx as i64, y: acy as i64 },
        abs_vel: speed1 as i64,
        yaw_rate: yaw1 as i64,
        steer: steer2 as i64,
        steer_angle: steer_angle as i64,
        ..car
    }
}

impl CarSteering {
    /// A vehicle is well formed when its configuration passed validation, its
    /// derived constants come from that configuration, its smoothed steer is
    /// clamped, its heading is wrapped, its speed is a magnitude, and every
    /// state entry is away from the one unrepresentable minimum value.
    pub open spec fn wf(self) -> bool {
        &&& self.cfg.wf()
        &&& self.comp == CarConfigComputed::from_config_s(self.cfg)
        &&& -(FP as int) <= self.steer <= FP
        &&& -(PI_FP as int) <= self.heading <= PI_FP
        &&& 0 <= self.abs_vel
        &&& self.position.in_range()
        &&& self.velocity.in_range()
        &&& self.velocity_c.in_range()
        &&& self.accel.in_range()
        &&& self.accel_c.in_range()
        &&& -(FP_SAT as int) <= self.yaw_rate
        &&& -(FP_SAT as int) <= self.steer_angle
    }

    /// The state a new vehicle starts from: at rest at `position`, pointed
    /// along the wrapped `heading`.
    pub open spec fn initial_s(cfg: SteeringCfg, position: Vec2, heading: int) -> CarSteering {
        CarSteering {
            cfg,
            input: CarInputState::neutral_s(),
            comp: CarConfigComputed::from_config_s(cfg),
            heading: wrap_s(heading) as i64,
            position,
            velocity: Vec2::zero_s(),
            velocity_c: Vec2::zero_s(),
            accel: Vec2::zero_s(),
            accel_c: Vec2::zero_s(),
            abs_vel: 0,
            yaw_rate: 0,
            steer: 0,
            steer_angle: 0,
        }
    }

    /// Build a vehicle at rest, rejecting a configuration with a
    /// non-positive or oversized entry and a position outside the
    /// representable range.
    pub fn new(cfg: SteeringCfg, position: Vec2, heading: i64) -> (r: Option<CarSteering>)
        ensures
            r.is_some() <==> cfg.wf() && position.in_range(),
            r.is_some() ==> r.unwrap() == CarSteering::initial_s(cfg, position, heading as int)
                && r.unwrap().wf(),
    {
        if !cfg.validate() {
            return None;
        }
        if position.x < -FP_SAT || position.y < -FP_SAT {
            return None;
        }
        let comp = CarConfigComputed::from_config(&cfg);
        Some(
            CarSteering {
                cfg,
                input: CarInputState::neutral(),
                comp,
                heading: wrap(heading),
                position,
                velocity: Vec2::zero(),
                velocity_c: Vec2::zero(),
                accel: Vec2::zero(),
                accel_c: Vec2::zero(),
                abs_vel: 0,
                yaw_rate: 0,
                steer: 0,
                steer_angle: 0,
            },
        )
    }

    fn apply_smooth_steer(&self, steer_input: i64, dt: i64) -> (r: i64)
        requires
            -(FP as int) <= self.steer <= FP,
            -(FP_SAT as int) <= steer_input,
            0 <= dt,
        ensures
            r as int == smooth_steer_s(self.steer as int, steer_input as int, dt as int),
            -(FP as int) <= r <= FP,
    {
        let m: i64 = mag_fp(steer_input);
        if m > STEER_EPS_FP {
            clamp(sat_add(self.steer, fmul(steer_input, sat_add(dt, dt))), -FP, FP)
        } else if self.steer > 0 {
            let d: i64 = self.steer - dt;
            if d > 0 {
                d
            } else {
                0
            }
        } else if self.steer < 0 {
            let d: i64 = self.steer + dt;
            if d < 0 {
                d
            } else {
                0
            }
        } else {
            0
        }
    }

    fn apply_safe_steer(&self, steer_input: i64) -> (r: i64)
        requires
            0 <= self.abs_vel,
            -(FP as int) <= steer_input <= FP,
        ensures
            r as int == safe_steer_s(steer_input as int, self.abs_vel as int),
            -(FP as int) <= r <= FP,
    {
        let v: i64 = if self.abs_vel < STEER_VMAX_FP {
            self.abs_vel
        } else {
            STEER_VMAX_FP
        };
        let frac: i64 = fdiv(v, STEER_VMAX_FP);
        proof {
            if v > 0 {
                lemma_ratio_front_range(v as int, 250000000);
            }
            lemma_fmul_frac_bound(steer_input as int, (FP as int) - frac);
        }
        fmul(steer_input, FP - frac)
    }

    /// Advance the simulation by `dt` fixed-point seconds, consuming the
    /// asserted commands and resetting them to neutral.
    #[verifier::rlimit(100)]
    pub fn update(&mut self, dt: i64)
        requires
            old(self).wf(),
            0 <= dt,
        ensures
            *final(self) == step_s(*old(self), dt as int),
            final(self).wf(),
    {
        let cfg = self.cfg;
        let comp = self.comp;
        let target: i64 = (if self.input.right {
            FP
        } else {
            0
        }) - (if self.input.left {
            FP
        } else {
            0
        });
        let steer1: i64 = self.apply_smooth_steer(target, dt);
        let steer2: i64 = self.apply_safe_steer(steer1);
        let steer_angle: i64 = fmul(cfg.max_steer, steer2);
        let sn: i64 = sin_fp(self.heading);
        let cs: i64 = cos_fp(self.heading);
        let vcx: i64 = sat_add(fmul(cs, self.velocity.x), fmul(sn, self.velocity.y));
        let vcy: i64 = sat_sub(fmul(cs, self.velocity.y), fmul(sn, self.velocity.x));
        let shift: i64 = fdiv(
            fmul(fmul(cfg.weight_transfer, self.accel_c.x), cfg.cg_height),
            comp.wheel_base,
        );
        let axle_weight_front: i64 = fmul(
            cfg.mass,
            sat_sub(fmul(comp.axle_weight_ratio_front, cfg.gravity), shift),
        );
        let axle_weight_rear: i64 = fmul(
            cfg.mass,
            sat_add(fmul(comp.axle_weight_ratio_rear, cfg.gravity), shift),
        );
        let lat_front: i64 = sat_add(vcy, fmul(cfg.cg_to_front_axle, self.yaw_rate));
        let lat_rear: i64 = sat_sub(vcy, fmul(cfg.cg_to_rear_axle, self.yaw_rate));
        let mvcx: i64 = mag_fp(vcx);
        let slip_front: i64 = sat_sub(atan2_fp(lat_front, mvcx), fmul(sgn(vcx), steer_angle));
        let slip_rear: i64 = atan2_fp(lat_rear, mvcx);
        let tire_grip_rear: i64 = if self.input.ebrake {
            fmul(cfg.tire_grip, cfg.lock_grip)
        } else {
            cfg.tire_grip
        };
        proof {
            lemma_fmul_nonneg(cfg.tire_grip as int, cfg.lock_grip as int);
        }
        let friction_front: i64 = fmul(
            clamp(-fmul(cfg.corner_stiffness_front, slip_front), -cfg.tire_grip, cfg.tire_grip),
            axle_weight_front,
        );
        let friction_rear: i64 = fmul(
            clamp(-fmul(cfg.corner_stiffness_rear, slip_rear), -tire_grip_rear, tire_grip_rear),
            axle_weight_rear,
        );
        let brake_sum: i64 = sat_add(
            if self.input.brake {
                cfg.brake_force
            } else {
                0
            },
            if self.input.ebrake {
                cfg.ebrake_force
            } else {
                0
            },
        );
        let brake_total: i64 = if brake_sum < cfg.brake_force {
            brake_sum
        } else {
            cfg.brake_force
        };
        let throttle: i64 = if self.input.throttle {
            cfg.engine_force
        } else {
            0
        };
        let traction_x: i64 = sat_sub(throttle, fmul(brake_total, sgn(vcx)));
        let drag_x: i64 = -sat_add(
            fmul(cfg.roll_resist, vcx),
            fmul(fmul(cfg.air_resist, vcx), mag_fp(vcx)),
        );
        let drag_y: i64 = -sat_add(
            fmul(cfg.roll_resist, vcy),
            fmul(fmul(cfg.air_resist, vcy), mag_fp(vcy)),
        );
        let total_fx: i64 = sat_add(drag_x, traction_x);
        let total_fy: i64 = sat_add(sat_add(drag_y, fmul(cos_fp(steer_angle), friction_front)), friction_rear);
        let acx: i64 = fdiv(total_fx, cfg.mass);
        let acy: i64 = fdiv(total_fy, cfg.mass);
        let awx: i64 = sat_sub(fmul(cs, acx), fmul(sn, acy));
        let awy: i64 = sat_add(fmul(sn, acx), fmul(cs, acy));
        let vx: i64 = sat_add(self.velocity.x, fmul(awx, dt));
        let vy: i64 = sat_add(self.velocity.y, fmul(awy, dt));
        let speed: i64 = norm2(vx, vy);
        let torque: i64 = sat_sub(
            fmul(friction_front, cfg.cg_to_front_axle),
            fmul(friction_rear, cfg.cg_to_rear_axle),
        );
        let stopped: bool = speed < LOW_SPEED_FP && !self.input.throttle;
        let vx1: i64 = if stopped {
            0
        } else {
            vx
        };
        let vy1: i64 = if stopped {
            0
        } else {
            vy
        };
        let speed1: i64 = if stopped {
            0
        } else {
            speed
        };
        let torque1: i64 = if stopped {
            0
        } else {
            torque
        };
        let yaw0: i64 = if stopped {
            0
        } else {
            self.yaw_rate
        };
        let yaw1: i64 = sat_add(yaw0, fmul(fdiv(torque1, comp.inertia), dt));
        let heading1: i64 = wrap(sat_add(self.heading, fmul(yaw1, dt)));
        let px: i64 = sat_add(self.position.x, fmul(vx1, dt));
        let py: i64 = sat_add(self.position.y, fmul(vy1, dt));
        let result = CarSteering {
            cfg,
            input: CarInputState::neutral(),
            comp,
            heading: heading1,
            position: Vec2 { x: px, y: py },
            velocity: Vec2 { x: vx1, y: vy1 },
            velocity_c: Vec2 { x: vcx, y: vcy },
            accel: Vec2 { x: awx, y: awy },
            accel_c: Vec2 { x: acx, y: acy },
            abs_vel: speed1,
            yaw_rate: yaw1,
            steer: steer2,
            steer_angle,
        };
        assert(result == step_s(*old(self), dt as int));
        *self = result;
    }

    /// Assert full throttle for the coming tick.
    pub fn accelerate(&mut self)
        ensures
            *final(self) == (CarSteering {
                input: CarInputState { throttle: true, ..old(self).input },
                ..*old(self)
            }),
    {
        self.input.throttle = true;
    }

    /// Assert the brake for the coming tick.
    pub fn brake(&mut self)
        ensures
            *final(self) == (CarSteering {
                input: CarInputState { brake: true, ..old(self).input },
                ..*old(self)
            }),
    {
        self.input.brake = true;
    }

    /// Assert the hand brake for the coming tick.
    pub fn ebrake(&mut self)
        ensures
            *final(self) == (CarSteering {
                input: CarInputState { ebrake: true, ..old(self).input },
                ..*old(self)
            }),
    {
        self.input.ebrake = true;
    }

    /// Assert a left steer for the coming tick.
    pub fn steer_left(&mut self)
        ensures
            *final(self) == (CarSteering {
                input: CarInputState { left: true, ..old(self).input },
                ..*old(self)
            }),
    {
        self.input.left = true;
    }

    /// Assert a right steer for the coming tick.
    pub fn steer_right(&mut self)
        ensures
            *final(self) == (CarSteering {
                input: CarInputState { right: true, ..old(self).input },
                ..*old(self)
            }),
    {
        self.input.right = true;
    }

    /// World-frame position (m).
    pub fn get_position(&self) -> (r: Vec2)
        ensures
            r == self.position,
    {
        self.position
    }

    /// Heading (rad).
    pub fn get_rotation(&self) -> (r: i64)
        ensures
            r == self.heading,
    {
        self.heading
    }

    /// Front-wheel steer angle (rad).
    pub fn get_steer_angle(&self) -> (r: i64)
        ensures
            r == self.steer_angle,
    {
        self.steer_angle
    }

    /// The rear slip angle the next tick would see, from the current state.
    pub fn rear_slip(&self) -> (r: i64)
        ensures
            r as int == slip_angle_rear_s(
                self.cfg,
                velocity_local_x_s(*self),
                velocity_local_y_s(*self),
                self.yaw_rate as int,
            ),
    {
        let sn: i64 = sin_fp(self.heading);
        let cs: i64 = cos_fp(self.heading);
        let vcx: i64 = sat_add(fmul(cs, self.velocity.x), fmul(sn, self.velocity.y));
        let vcy: i64 = sat_sub(fmul(cs, self.velocity.y), fmul(sn, self.velocity.x));
        let lat_rear: i64 = sat_sub(vcy, fmul(self.cfg.cg_to_rear_axle, self.yaw_rate));
        atan2_fp(lat_rear, mag_fp(vcx))
    }
}

} // verus!
