//! Laws of the integrator, proved once and for all over the spec-level step
//! function that `CarSteering::update` returns exactly.

use vstd::prelude::*;

use crate::car_steering::{
    brake_total_s, drag_force_s, lateral_force_s, rear_grip_s, safe_steer_s, slip_angle_front_s,
    slip_angle_rear_s, smooth_steer_s, steer_target_s, step_s, velocity_local_x_s,
    velocity_local_y_s, weight_shift_s, CarConfigComputed, CarInputState, CarSteering,
    SteeringCfg, LOW_SPEED_FP, STEER_VMAX_FP,
};
use crate::fixed::{
    clamp_s, fdiv_s, fmul_s, lemma_clamp_odd, lemma_fdiv_odd_l, lemma_fdiv_zero_num,
    lemma_fmul_frac_bound, lemma_fmul_frac_le, lemma_fmul_mag_mono, lemma_fmul_neg_neg,
    lemma_fmul_nonneg, lemma_fmul_odd_l, lemma_fmul_odd_r, lemma_sqrt_exists, lemma_sqrt_s_is,
    mag, sat_add_s, sat_s, sat_sub_s, sgn_s, sqrt_s, FP,
};
use crate::trig::{
    cos_s, lemma_atan2_odd, lemma_cos_even, lemma_sin_odd, lemma_wrap_in_range, lemma_wrap_odd,
    sin_s, wrap_s,
};
use crate::vec_math::Vec2;

verus! {

/// A vehicle at rest: no velocity, no yaw, no residual steer, and no command
/// asserted for the coming tick.
pub open spec fn at_rest(car: CarSteering) -> bool {
    &&& car.velocity == Vec2::zero_s()
    &&& car.yaw_rate == 0
    &&& car.steer == 0
    &&& car.input == CarInputState::neutral_s()
}

proof fn lemma_lateral_force_zero_slip(stiffness: int, grip: int, load: int)
    requires
        0 <= grip,
    ensures
        lateral_force_s(stiffness, 0, grip, load) == 0,
{
    assert(fmul_s(stiffness, 0) == 0);
    assert(clamp_s(0, -grip, grip) == 0);
    assert(fmul_s(0, load) == 0);
}

/// The derived constants of a validated configuration are sound: the wheel
/// base is positive and the two axle-weight ratios are nonnegative and sum
/// to exactly one.
pub proof fn lemma_derived_constants_sound(cfg: SteeringCfg)
    requires
        cfg.wf(),
    ensures
        0 < CarConfigComputed::from_config_s(cfg).wheel_base,
        0 <= CarConfigComputed::from_config_s(cfg).axle_weight_ratio_front <= FP,
        0 <= CarConfigComputed::from_config_s(cfg).axle_weight_ratio_rear <= FP,
        CarConfigComputed::from_config_s(cfg).axle_weight_ratio_front
            + CarConfigComputed::from_config_s(cfg).axle_weight_ratio_rear == FP,
{
    crate::car_steering::lemma_ratio_front_range(
        cfg.cg_to_rear_axle as int,
        cfg.cg_to_front_axle + cfg.cg_to_rear_axle,
    );
}

/// Bit-identical states and time steps give bit-identical successor states:
/// the step function is a function of its arguments and of nothing else.
pub proof fn lemma_update_deterministic(a: CarSteering, b: CarSteering, dt_a: int, dt_b: int)
    requires
        a == b,
        dt_a == dt_b,
    ensures
        step_s(a, dt_a) == step_s(b, dt_b),
{
}

/// From rest with no control input, a step of any length leaves the position,
/// the heading and the (zero) velocity unchanged, and the car at rest again;
/// so a whole sequence of such steps moves nothing.
pub proof fn lemma_rest_invariance(car: CarSteering, dt: int)
    requires
        car.wf(),
        at_rest(car),
    ensures
        step_s(car, dt) == (CarSteering {
            input: CarInputState::neutral_s(),
            velocity: Vec2::zero_s(),
            velocity_c: Vec2::zero_s(),
            accel: Vec2::zero_s(),
            accel_c: Vec2::zero_s(),
            abs_vel: 0,
            yaw_rate: 0,
            steer: 0,
            steer_angle: 0,
            ..car
        }),
        step_s(car, dt).position == car.position,
        step_s(car, dt).heading == car.heading,
        at_rest(step_s(car, dt)),
{
    let cfg = car.cfg;
    lemma_fmul_nonneg(cfg.tire_grip as int, cfg.lock_grip as int);
    lemma_fdiv_zero_num(cfg.mass as int);
    lemma_fdiv_zero_num(car.comp.inertia as int);
    lemma_sqrt_s_is(0, 0);
    lemma_wrap_in_range(car.heading as int);
    assert(steer_target_s(car.input) == 0);
    let steer2 = safe_steer_s(smooth_steer_s(car.steer as int, 0, dt), car.abs_vel as int);
    assert(smooth_steer_s(car.steer as int, 0, dt) == 0);
    assert(steer2 == 0);
    let steer_angle = fmul_s(cfg.max_steer as int, 0);
    assert(steer_angle == 0);
    let sn = sin_s(car.heading as int);
    let cs = cos_s(car.heading as int);
    assert(velocity_local_x_s(car) == 0);
    assert(velocity_local_y_s(car) == 0);
    assert(slip_angle_front_s(cfg, 0, 0, 0, 0) == 0);
    assert(slip_angle_rear_s(cfg, 0, 0, 0) == 0);
    assert(0 <= rear_grip_s(cfg, car.input.ebrake));
    assert(lateral_force_s(cfg.corner_stiffness_front as int, 0, cfg.tire_grip as int, 0) == 0);
    assert(clamp_s(-fmul_s(cfg.corner_stiffness_front as int, 0), -(cfg.tire_grip as int), cfg.tire_grip as int) == 0);
    let shift = weight_shift_s(cfg, car.comp, car.accel_c.x as int);
    let load_f = fmul_s(
        cfg.mass as int,
        sat_sub_s(fmul_s(car.comp.axle_weight_ratio_front as int, cfg.gravity as int), shift),
    );
    let load_r = fmul_s(
        cfg.mass as int,
        sat_add_s(fmul_s(car.comp.axle_weight_ratio_rear as int, cfg.gravity as int), shift),
    );
    lemma_lateral_force_zero_slip(cfg.corner_stiffness_front as int, cfg.tire_grip as int, load_f);
    lemma_lateral_force_zero_slip(
        cfg.corner_stiffness_rear as int,
        rear_grip_s(cfg, car.input.ebrake),
        load_r,
    );
    assert(brake_total_s(cfg, car.input) == 0);
    assert(sat_sub_s(0, fmul_s(0, sgn_s(0))) == 0);
    assert(drag_force_s(cfg.roll_resist as int, cfg.air_resist as int, 0) == 0);
    assert(fmul_s(cos_s(0), 0) == 0);
    assert(fdiv_s(sat_add_s(sat_add_s(0, 0), 0), cfg.mass as int) == 0);
    assert(sat_sub_s(fmul_s(cs, 0), fmul_s(sn, 0)) == 0);
    assert(sat_add_s(fmul_s(sn, 0), fmul_s(cs, 0)) == 0);
    assert(fmul_s(0, dt) == 0);
    assert(sat_add_s(car.velocity.x as int, 0) == 0);
    assert(sat_s(sqrt_s(0)) == 0);
    assert(sat_sub_s(fmul_s(0, cfg.cg_to_front_axle as int), fmul_s(0, cfg.cg_to_rear_axle as int))
        == 0);
    assert(sat_add_s(0, fmul_s(fdiv_s(0, car.comp.inertia as int), dt)) == 0);
    assert(wrap_s(sat_add_s(car.heading as int, 0)) == car.heading as int);
    assert(sat_add_s(car.position.x as int, 0) == car.position.x as int);
    assert(sat_add_s(car.position.y as int, 0) == car.position.y as int);
}

/// The smoothed steer value stays within [-FP, FP] across every tick, for
/// any command sequence and any nonnegative time step.
pub proof fn lemma_steer_clamped(car: CarSteering, dt: int)
    requires
        -(FP as int) <= car.steer <= FP,
        0 <= car.abs_vel,
        0 <= dt,
    ensures
        -(FP as int) <= step_s(car, dt).steer <= FP,
{
    let steer1 = smooth_steer_s(car.steer as int, steer_target_s(car.input), dt);
    assert(-(FP as int) <= steer1 <= FP);
    let v: int = if car.abs_vel < STEER_VMAX_FP {
        car.abs_vel as int
    } else {
        STEER_VMAX_FP as int
    };
    let frac = fdiv_s(v, STEER_VMAX_FP as int);
    if v == 0 {
        lemma_fdiv_zero_num(STEER_VMAX_FP as int);
    } else {
        crate::car_steering::lemma_ratio_front_range(v, STEER_VMAX_FP as int);
    }
    lemma_fmul_frac_bound(steer1, (FP as int) - frac);
}

/// Whenever a tick with no throttle ends below the low-speed threshold, that
/// tick has stopped the car outright: the velocity, the speed and the yaw
/// rate of the successor state are exactly zero.
pub proof fn lemma_low_speed_clamp(car: CarSteering, dt: int)
    requires
        !car.input.throttle,
        step_s(car, dt).abs_vel < LOW_SPEED_FP,
    ensures
        step_s(car, dt).velocity == Vec2::zero_s(),
        step_s(car, dt).abs_vel == 0,
        step_s(car, dt).yaw_rate == 0,
{
    lemma_fdiv_zero_num(car.comp.inertia as int);
}

/// The opposite of a representable value, as an i64.
pub open spec fn neg64(x: i64) -> i64 {
    (-(x as int)) as i64
}

/// The same commands with left and right exchanged.
pub open spec fn mirror_input_s(input: CarInputState) -> CarInputState {
    CarInputState { left: input.right, right: input.left, ..input }
}

/// The vehicle state reflected across the world x axis: the lateral
/// components, the heading, the yaw rate and the steering change sign, the
/// longitudinal components and the speed stay.
pub open spec fn mirror_s(car: CarSteering) -> CarSteering {
    CarSteering {
        input: mirror_input_s(car.input),
        heading: neg64(car.heading),
        position: Vec2 { x: car.position.x, y: neg64(car.position.y) },
        velocity: Vec2 { x: car.velocity.x, y: neg64(car.velocity.y) },
        velocity_c: Vec2 { x: car.velocity_c.x, y: neg64(car.velocity_c.y) },
        accel: Vec2 { x: car.accel.x, y: neg64(car.accel.y) },
        accel_c: Vec2 { x: car.accel_c.x, y: neg64(car.accel_c.y) },
        yaw_rate: neg64(car.yaw_rate),
        steer: neg64(car.steer),
        steer_angle: neg64(car.steer_angle),
        ..car
    }
}

/// Mirror symmetry: stepping the reflected state under the exchanged
/// commands gives exactly the reflection of the stepped state. Swapping
/// every left steer for a right steer across a whole history therefore
/// mirrors the trajectory across the longitudinal axis.
#[verifier::rlimit(100)]
pub proof fn lemma_mirror_step(car: CarSteering, dt: int)
    requires
        car.wf(),
    ensures
        step_s(mirror_s(car), dt) == mirror_s(step_s(car, dt)),
{
    let cfg = car.cfg;
    let m = mirror_s(car);
    assert(m.steer as int == -(car.steer as int));
    assert(m.heading as int == -(car.heading as int));
    assert(m.velocity.y as int == -(car.velocity.y as int));
    assert(m.yaw_rate as int == -(car.yaw_rate as int));
    // steering smoothing, attenuation, and the steer angle flip sign
    let target = steer_target_s(car.input);
    assert(steer_target_s(m.input) == -target);
    let sdt = sat_add_s(dt, dt);
    lemma_fmul_odd_l(target, sdt);
    lemma_clamp_odd(sat_add_s(car.steer as int, fmul_s(target, sdt)), FP as int);
    let steer1 = smooth_steer_s(car.steer as int, target, dt);
    assert(smooth_steer_s(m.steer as int, -target, dt) == -steer1);
    let v: int = if car.abs_vel < STEER_VMAX_FP {
        car.abs_vel as int
    } else {
        STEER_VMAX_FP as int
    };
    let frac = (FP as int) - fdiv_s(v, STEER_VMAX_FP as int);
    lemma_fmul_odd_l(steer1, frac);
    let steer2 = safe_steer_s(steer1, car.abs_vel as int);
    assert(safe_steer_s(-steer1, m.abs_vel as int) == -steer2);
    lemma_fmul_odd_r(cfg.max_steer as int, steer2);
    let sa = fmul_s(cfg.max_steer as int, steer2);
    assert(fmul_s(cfg.max_steer as int, -steer2) == -sa);
    // the local frame: forward velocity is kept, lateral velocity flips
    lemma_sin_odd(car.heading as int);
    lemma_cos_even(car.heading as int);
    let sn = sin_s(car.heading as int);
    let cs = cos_s(car.heading as int);
    lemma_fmul_neg_neg(sn, car.velocity.y as int);
    let vcx = velocity_local_x_s(car);
    assert(velocity_local_x_s(m) == vcx);
    lemma_fmul_odd_r(cs, car.velocity.y as int);
    lemma_fmul_odd_l(sn, car.velocity.x as int);
    let vcy = velocity_local_y_s(car);
    assert(velocity_local_y_s(m) == -vcy);
    // axle loads are unchanged
    let shift = weight_shift_s(cfg, car.comp, car.accel_c.x as int);
    assert(weight_shift_s(cfg, m.comp, m.accel_c.x as int) == shift);
    let load_f = fmul_s(
        cfg.mass as int,
        sat_sub_s(fmul_s(car.comp.axle_weight_ratio_front as int, cfg.gravity as int), shift),
    );
    let load_r = fmul_s(
        cfg.mass as int,
        sat_add_s(fmul_s(car.comp.axle_weight_ratio_rear as int, cfg.gravity as int), shift),
    );
    // slip angles flip sign
    lemma_fmul_odd_r(cfg.cg_to_front_axle as int, car.yaw_rate as int);
    lemma_atan2_odd(
        sat_add_s(vcy, fmul_s(cfg.cg_to_front_axle as int, car.yaw_rate as int)),
        mag(vcx),
    );
    lemma_fmul_odd_r(sgn_s(vcx), sa);
    let slip_f = slip_angle_front_s(cfg, vcx, vcy, car.yaw_rate as int, sa);
    assert(slip_angle_front_s(cfg, vcx, -vcy, -(car.yaw_rate as int), -sa) == -slip_f);
    lemma_fmul_odd_r(cfg.cg_to_rear_axle as int, car.yaw_rate as int);
    lemma_atan2_odd(
        sat_sub_s(vcy, fmul_s(cfg.cg_to_rear_axle as int, car.yaw_rate as int)),
        mag(vcx),
    );
    let slip_r = slip_angle_rear_s(cfg, vcx, vcy, car.yaw_rate as int);
    assert(slip_angle_rear_s(cfg, vcx, -vcy, -(car.yaw_rate as int)) == -slip_r);
    // lateral forces flip sign
    let stiff_f = cfg.corner_stiffness_front as int;
    let stiff_r = cfg.corner_stiffness_rear as int;
    let g_f = cfg.tire_grip as int;
    let g_r = rear_grip_s(cfg, car.input.ebrake);
    lemma_fmul_nonneg(cfg.tire_grip as int, cfg.lock_grip as int);
    lemma_fmul_odd_r(stiff_f, slip_f);
    lemma_clamp_odd(-fmul_s(stiff_f, slip_f), g_f);
    lemma_fmul_odd_l(clamp_s(-fmul_s(stiff_f, slip_f), -g_f, g_f), load_f);
    let fff = lateral_force_s(stiff_f, slip_f, g_f, load_f);
    assert(lateral_force_s(stiff_f, -slip_f, g_f, load_f) == -fff);
    lemma_fmul_odd_r(stiff_r, slip_r);
    lemma_clamp_odd(-fmul_s(stiff_r, slip_r), g_r);
    lemma_fmul_odd_l(clamp_s(-fmul_s(stiff_r, slip_r), -g_r, g_r), load_r);
    let ffr = lateral_force_s(stiff_r, slip_r, g_r, load_r);
    assert(lateral_force_s(stiff_r, -slip_r, g_r, load_r) == -ffr);
    // the longitudinal force is unchanged, the lateral drag flips
    assert(brake_total_s(cfg, m.input) == brake_total_s(cfg, car.input));
    let roll = cfg.roll_resist as int;
    let air = cfg.air_resist as int;
    let drag_y = drag_force_s(roll, air, vcy);
    assert(drag_force_s(roll, air, -vcy) == -drag_y) by {
        lemma_fmul_odd_r(roll, vcy);
        lemma_fmul_odd_r(air, vcy);
        lemma_fmul_odd_l(fmul_s(air, vcy), mag(vcy));
    }
    lemma_cos_even(sa);
    lemma_fmul_odd_r(cos_s(sa), fff);
    let tfy = sat_add_s(sat_add_s(drag_y, fmul_s(cos_s(sa), fff)), ffr);
    assert(sat_add_s(sat_add_s(-drag_y, fmul_s(cos_s(-sa), -fff)), -ffr) == -tfy);
    // acceleration and velocity: x kept, y flipped
    lemma_fdiv_odd_l(tfy, cfg.mass as int);
    let acy = fdiv_s(tfy, cfg.mass as int);
    let drag_x = drag_force_s(roll, air, vcx);
    let traction_x = sat_sub_s(
        if car.input.throttle {
            cfg.engine_force as int
        } else {
            0
        },
        fmul_s(brake_total_s(cfg, car.input), sgn_s(vcx)),
    );
    let acx = fdiv_s(sat_add_s(drag_x, traction_x), cfg.mass as int);
    lemma_fmul_neg_neg(sn, acy);
    lemma_fmul_odd_l(sn, acx);
    lemma_fmul_odd_r(cs, acy);
    let awx = sat_sub_s(fmul_s(cs, acx), fmul_s(sn, acy));
    let awy = sat_add_s(fmul_s(sn, acx), fmul_s(cs, acy));
    assert(sat_sub_s(fmul_s(cs, acx), fmul_s(-sn, -acy)) == awx);
    assert(sat_add_s(fmul_s(-sn, acx), fmul_s(cs, -acy)) == -awy);
    lemma_fmul_odd_l(awy, dt);
    let vx = sat_add_s(car.velocity.x as int, fmul_s(awx, dt));
    let vy = sat_add_s(car.velocity.y as int, fmul_s(awy, dt));
    assert(sat_add_s(m.velocity.y as int, fmul_s(-awy, dt)) == -vy);
    assert((-vy) * (-vy) == vy * vy) by (nonlinear_arith);
    // the speed, the stop test, and the longitudinal results are unchanged;
    // the torque, yaw rate, heading and lateral position flip
    lemma_fmul_odd_l(fff, cfg.cg_to_front_axle as int);
    lemma_fmul_odd_l(ffr, cfg.cg_to_rear_axle as int);
    let torque = sat_sub_s(
        fmul_s(fff, cfg.cg_to_front_axle as int),
        fmul_s(ffr, cfg.cg_to_rear_axle as int),
    );
    assert(sat_sub_s(fmul_s(-fff, cfg.cg_to_front_axle as int), fmul_s(-ffr, cfg.cg_to_rear_axle as int))
        == -torque);
    let speed = sat_s(sqrt_s(vx * vx + vy * vy));
    let stopped = speed < LOW_SPEED_FP && !car.input.throttle;
    let torque1: int = if stopped {
        0
    } else {
        torque
    };
    let yaw0: int = if stopped {
        0
    } else {
        car.yaw_rate as int
    };
    lemma_fdiv_odd_l(torque1, car.comp.inertia as int);
    lemma_fmul_odd_l(fdiv_s(torque1, car.comp.inertia as int), dt);
    let yaw1 = sat_add_s(yaw0, fmul_s(fdiv_s(torque1, car.comp.inertia as int), dt));
    assert(sat_add_s(-yaw0, fmul_s(fdiv_s(-torque1, car.comp.inertia as int), dt)) == -yaw1);
    lemma_fmul_odd_l(yaw1, dt);
    let pre_heading = sat_add_s(car.heading as int, fmul_s(yaw1, dt));
    assert(sat_add_s(m.heading as int, fmul_s(-yaw1, dt)) == -pre_heading);
    lemma_wrap_odd(pre_heading);
    let vy1: int = if stopped {
        0
    } else {
        vy
    };
    lemma_fmul_odd_l(vy1, dt);
    assert(sat_add_s(m.position.y as int, fmul_s(-vy1, dt)) == -sat_add_s(
        car.position.y as int,
        fmul_s(vy1, dt),
    ));
    assert(step_s(m, dt) == mirror_s(step_s(car, dt)));
}

/// Asserting the hand brake lowers the rear grip ceiling, and with it the
/// magnitude of the rear lateral tire force, whatever the slip angle and the
/// axle load of the tick; the slip angles themselves do not depend on the
/// asserted commands.
pub proof fn lemma_ebrake_loosens_rear(cfg: SteeringCfg, slip: int, load: int)
    requires
        cfg.wf(),
    ensures
        0 <= rear_grip_s(cfg, true) <= rear_grip_s(cfg, false),
        mag(
            lateral_force_s(
                cfg.corner_stiffness_rear as int,
                slip,
                rear_grip_s(cfg, true),
                load,
            ),
        ) <= mag(
            lateral_force_s(
                cfg.corner_stiffness_rear as int,
                slip,
                rear_grip_s(cfg, false),
                load,
            ),
        ),
{
    lemma_fmul_frac_le(cfg.tire_grip as int, cfg.lock_grip as int);
    let g1 = rear_grip_s(cfg, false);
    let g2 = rear_grip_s(cfg, true);
    let x = -fmul_s(cfg.corner_stiffness_rear as int, slip);
    assert(mag(clamp_s(x, -g2, g2)) <= mag(clamp_s(x, -g1, g1)));
    lemma_fmul_mag_mono(clamp_s(x, -g2, g2), clamp_s(x, -g1, g1), load);
}

/// The car with the given commands asserted for the coming tick.
pub open spec fn with_input(car: CarSteering, input: CarInputState) -> CarSteering {
    CarSteering { input, ..car }
}

/// Run a whole script: each entry asserts its commands and steps by its time.
pub open spec fn run_s(car: CarSteering, script: Seq<(CarInputState, int)>) -> CarSteering
    decreases script.len(),
{
    if script.len() == 0 {
        car
    } else {
        run_s(step_s(with_input(car, script[0].0), script[0].1), script.skip(1))
    }
}

/// A step of nonnegative length from a well-formed state is well formed, for
/// any commands: the integrator keeps every state invariant.
pub proof fn lemma_step_preserves_wf(car: CarSteering, dt: int)
    requires
        car.wf(),
        0 <= dt,
    ensures
        step_s(car, dt).wf(),
{
    lemma_steer_clamped(car, dt);
    assert forall|a: int, b: int| 0 <= sat_s(#[trigger] sqrt_s(a * a + b * b)) by {
        assert(0 <= a * a + b * b) by (nonlinear_arith);
        lemma_sqrt_exists(a * a + b * b);
    }
}

proof fn lemma_step_speed_nonneg(car: CarSteering, dt: int)
    ensures
        0 <= step_s(car, dt).abs_vel,
{
    assert forall|a: int, b: int| 0 <= sat_s(#[trigger] sqrt_s(a * a + b * b)) by {
        assert(0 <= a * a + b * b) by (nonlinear_arith);
        lemma_sqrt_exists(a * a + b * b);
    }
}

/// Rest invariance over whole histories: from rest, any script of neutral
/// inputs, whatever its time steps, leaves position, heading and the zero
/// velocity untouched.
pub proof fn lemma_rest_sequence(car: CarSteering, script: Seq<(CarInputState, int)>)
    requires
        car.wf(),
        at_rest(car),
        forall|i: int|
            0 <= i < script.len() ==> (#[trigger] script[i]).0 == CarInputState::neutral_s(),
    ensures
        run_s(car, script).position == car.position,
        run_s(car, script).heading == car.heading,
        run_s(car, script).velocity == Vec2::zero_s(),
    decreases script.len(),
{
    if script.len() > 0 {
        let car1 = with_input(car, script[0].0);
        assert(car1 == car);
        lemma_rest_invariance(car, script[0].1);
        let car2 = step_s(car, script[0].1);
        assert(car2.wf());
        lemma_rest_sequence(car2, script.skip(1));
    }
}

/// The steer clamp over whole histories: whatever commands a script asserts,
/// the smoothed steer value is within [-FP, FP] at every tick boundary.
pub proof fn lemma_steer_clamped_sequence(car: CarSteering, script: Seq<(CarInputState, int)>)
    requires
        -(FP as int) <= car.steer <= FP,
        0 <= car.abs_vel,
        forall|i: int| 0 <= i < script.len() ==> (#[trigger] script[i]).1 >= 0,
    ensures
        -(FP as int) <= run_s(car, script).steer <= FP,
    decreases script.len(),
{
    if script.len() > 0 {
        let car1 = with_input(car, script[0].0);
        lemma_steer_clamped(car1, script[0].1);
        lemma_step_speed_nonneg(car1, script[0].1);
        lemma_steer_clamped_sequence(step_s(car1, script[0].1), script.skip(1));
    }
}

/// A script with every left steer exchanged for a right steer.
pub open spec fn mirror_script_s(script: Seq<(CarInputState, int)>) -> Seq<(CarInputState, int)> {
    script.map_values(|p: (CarInputState, int)| (mirror_input_s(p.0), p.1))
}

/// Mirror symmetry over whole histories: running the mirrored script from
/// the mirrored state gives exactly the mirror of running the unmirrored
/// script, so the two trajectories are reflections of one another.
pub proof fn lemma_mirror_sequence(car: CarSteering, script: Seq<(CarInputState, int)>)
    requires
        car.wf(),
        forall|i: int| 0 <= i < script.len() ==> (#[trigger] script[i]).1 >= 0,
    ensures
        run_s(mirror_s(car), mirror_script_s(script)) == mirror_s(run_s(car, script)),
    decreases script.len(),
{
    if script.len() == 0 {
        assert(mirror_script_s(script).len() == 0);
    } else {
        let i0 = script[0].0;
        let dt0 = script[0].1;
        let car1 = with_input(car, i0);
        assert(car1.wf());
        lemma_mirror_step(car1, dt0);
        assert(with_input(mirror_s(car), mirror_input_s(i0)) == mirror_s(car1));
        lemma_step_preserves_wf(car1, dt0);
        lemma_mirror_sequence(step_s(car1, dt0), script.skip(1));
        assert(mirror_script_s(script)[0] == (mirror_input_s(i0), dt0));
        assert(mirror_script_s(script).skip(1) =~= mirror_script_s(script.skip(1)));
    }
}

} // verus!
