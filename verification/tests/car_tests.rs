use car_sim::car_steering::{CarInputState, CarSteering, SteeringCfg};
use car_sim::fixed::FP;
use car_sim::input_state::InputState;
use car_sim::trig::HALF_PI_FP;
use car_sim::vec_math::Vec2;

fn stock_car() -> CarSteering {
    CarSteering::new(SteeringCfg::def_steering(), Vec2 { x: -40_000_000, y: 40_000_000 }, -HALF_PI_FP).unwrap()
}

const DT_120: i64 = 8_333;

const DT_60: i64 = 16_667;

#[test]
fn new_rejects_degenerate_config() {
    let mut cfg = SteeringCfg::def_steering();
    cfg.mass = 0;
    assert!(CarSteering::new(cfg, Vec2 { x: 0, y: 0 }, 0).is_none());
    let mut cfg2 = SteeringCfg::def_steering();
    cfg2.cg_to_front_axle = -1;
    assert!(CarSteering::new(cfg2, Vec2 { x: 0, y: 0 }, 0).is_none());
    let mut cfg3 = SteeringCfg::def_steering();
    cfg3.lock_grip = 2_000_000;
    assert!(CarSteering::new(cfg3, Vec2 { x: 0, y: 0 }, 0).is_none());
    assert!(CarSteering::new(SteeringCfg::def_steering(), Vec2 { x: 0, y: 0 }, 0).is_some());
}

#[test]
fn stock_tuning_values() {
    let cfg = SteeringCfg::def_steering();
    assert_eq!(cfg.gravity, 9_810_000);
    assert_eq!(cfg.mass, 1_200_000_000);
    assert_eq!(cfg.tire_grip, 2_000_000);
    assert_eq!(cfg.lock_grip, 700_000);
    assert_eq!(cfg.engine_force, 8_000_000_000);
    assert_eq!(cfg.brake_force, 12_000_000_000);
    assert_eq!(cfg.max_steer, 600_000);
    assert_eq!(cfg.corner_stiffness_rear, 5_200_000);
}

#[test]
fn derived_constants_from_config() {
    let car = stock_car();
    assert_eq!(car.comp.wheel_base, 2_500_000);
    assert_eq!(car.comp.inertia, 1_200_000_000);
    assert_eq!(car.comp.axle_weight_ratio_front, 500_000);
    assert_eq!(car.comp.axle_weight_ratio_rear, 500_000);
    assert_eq!(
        car.comp.axle_weight_ratio_front + car.comp.axle_weight_ratio_rear,
        FP
    );
}

#[test]
fn accessors_report_the_state() {
    let car = stock_car();
    assert_eq!(car.get_position(), Vec2 { x: -40_000_000, y: 40_000_000 });
    assert_eq!(car.get_rotation(), -HALF_PI_FP);
    assert_eq!(car.get_steer_angle(), 0);
}

#[test]
fn rest_invariance_across_dt_sequences() {
    let mut car = stock_car();
    let start = car;
    let dts: [i64; 6] = [0, 1, DT_120, DT_60, 100_000, 1_000_000];
    for i in 0..dts.len() {
        car.update(dts[i]);
        assert_eq!(car.get_position(), start.get_position());
        assert_eq!(car.get_rotation(), start.get_rotation());
        assert_eq!(car.velocity, Vec2 { x: 0, y: 0 });
        assert_eq!(car.abs_vel, 0);
        assert_eq!(car.yaw_rate, 0);
    }
}

#[test]
fn braking_at_rest_moves_nothing() {
    let mut car = stock_car();
    let start = car.get_position();
    for _ in 0..5 {
        car.brake();
        car.ebrake();
        car.update(DT_60);
    }
    assert_eq!(car.get_position(), start);
    assert_eq!(car.velocity, Vec2 { x: 0, y: 0 });
}

#[test]
fn low_speed_clamp_stops_the_car_exactly() {
    let mut car = stock_car();
    car.accelerate();
    car.update(DT_120);
    // one 1/120 s tick of full throttle leaves the car well under 0.5 m/s
    assert!(car.abs_vel > 0);
    assert!(car.abs_vel < 500_000);
    car.update(DT_120);
    assert_eq!(car.velocity, Vec2 { x: 0, y: 0 });
    assert_eq!(car.abs_vel, 0);
    assert_eq!(car.yaw_rate, 0);
}

#[test]
fn update_consumes_the_input() {
    let mut car = stock_car();
    car.accelerate();
    car.brake();
    car.steer_left();
    car.update(DT_60);
    assert_eq!(car.input, CarInputState::neutral());
}

#[test]
fn terminal_velocity_under_sustained_throttle() {
    let mut car = CarSteering::new(SteeringCfg::def_steering(), Vec2 { x: 0, y: 0 }, 0).unwrap();
    for _ in 0..6000 {
        car.accelerate();
        car.update(DT_60);
    }
    // engineForce = rollResist * v + airResist * v^2 at v ~ 54.99 m/s
    let predicted: i64 = 54_991_000;
    assert!(
        (car.abs_vel - predicted).abs() < 300_000,
        "terminal speed = {}",
        car.abs_vel
    );
    // a further tick no longer changes the speed noticeably
    let before: i64 = car.abs_vel;
    car.accelerate();
    car.update(DT_60);
    assert!((car.abs_vel - before).abs() < 10_000);
}

#[test]
fn steer_stays_clamped_under_held_keys() {
    let mut car = stock_car();
    for _ in 0..20 {
        car.steer_left();
        car.update(1_000_000);
        assert!(-FP <= car.steer && car.steer <= FP);
    }
    for _ in 0..20 {
        car.steer_right();
        car.update(5_000_000);
        assert!(-FP <= car.steer && car.steer <= FP);
    }
}

#[test]
fn mirrored_histories_mirror_the_trajectory() {
    let cfg = SteeringCfg::def_steering();
    let mut left_car = CarSteering::new(cfg, Vec2 { x: 0, y: 0 }, 0).unwrap();
    let mut right_car = CarSteering::new(cfg, Vec2 { x: 0, y: 0 }, 0).unwrap();
    for tick in 0..240 {
        left_car.accelerate();
        right_car.accelerate();
        if tick >= 60 {
            left_car.steer_left();
            right_car.steer_right();
        }
        left_car.update(DT_60);
        right_car.update(DT_60);
        assert_eq!(left_car.position.x, right_car.position.x);
        assert_eq!(left_car.position.y, -right_car.position.y);
        assert_eq!(left_car.heading, -right_car.heading);
        assert_eq!(left_car.yaw_rate, -right_car.yaw_rate);
        assert_eq!(left_car.steer, -right_car.steer);
        assert_eq!(left_car.abs_vel, right_car.abs_vel);
    }
}

#[test]
fn ebrake_loosens_the_rear() {
    let cfg = SteeringCfg::def_steering();
    let mut plain = CarSteering::new(cfg, Vec2 { x: 0, y: 0 }, 0).unwrap();
    let mut locked = CarSteering::new(cfg, Vec2 { x: 0, y: 0 }, 0).unwrap();
    let mut plain_total: i128 = 0;
    let mut locked_total: i128 = 0;
    for tick in 0..300 {
        plain.accelerate();
        locked.accelerate();
        if tick >= 60 {
            plain.steer_left();
            locked.steer_left();
            locked.ebrake();
        }
        plain.update(DT_60);
        locked.update(DT_60);
        plain_total += plain.rear_slip().abs() as i128;
        locked_total += locked.rear_slip().abs() as i128;
    }
    assert!(
        locked_total >= plain_total,
        "rear slip with ebrake {} vs without {}",
        locked_total,
        plain_total
    );
}

#[test]
fn updates_are_deterministic() {
    let mut a = stock_car();
    let mut b = stock_car();
    for tick in 0..120 {
        a.accelerate();
        b.accelerate();
        if tick % 3 == 0 {
            a.steer_right();
            b.steer_right();
        }
        if tick % 7 == 0 {
            a.ebrake();
            b.ebrake();
        }
        a.update(DT_120);
        b.update(DT_120);
        assert_eq!(a, b);
    }
}

#[test]
fn held_keys_assert_commands_each_tick() {
    let keys = InputState { forward: true, left: false, right: true, back: false, space: true };
    let mut car = stock_car();
    keys.apply_to(&mut car);
    assert!(car.input.throttle);
    assert!(car.input.right);
    assert!(car.input.ebrake);
    assert!(!car.input.left);
    assert!(!car.input.brake);
    car.update(DT_120);
    assert_eq!(car.input, CarInputState::neutral());
    let released = InputState::released();
    keys.apply_to(&mut car);
    released.apply_to(&mut car);
    assert!(car.input.throttle, "releasing keys must not clear an asserted command");
}

#[test]
fn opposed_steer_keys_cancel() {
    let mut held = stock_car();
    let mut released = stock_car();
    for _ in 0..30 {
        held.steer_left();
        held.steer_right();
        held.update(DT_60);
        released.update(DT_60);
    }
    assert_eq!(held.steer, released.steer);
    assert_eq!(held.steer, 0);
}

#[test]
fn an_extreme_time_step_saturates_instead_of_failing() {
    let mut car = stock_car();
    car.accelerate();
    car.steer_right();
    car.update(i64::MAX);
    assert!(car.abs_vel >= 0);
    assert!(-FP <= car.steer && car.steer <= FP);
    car.update(i64::MAX);
    assert!(car.abs_vel >= 0);
}

#[test]
fn accelerating_moves_forward_along_heading() {
    let mut car = CarSteering::new(SteeringCfg::def_steering(), Vec2 { x: 0, y: 0 }, 0).unwrap();
    for _ in 0..120 {
        car.accelerate();
        car.update(DT_60);
    }
    assert!(car.position.x > 5_000_000, "x = {}", car.position.x);
    assert_eq!(car.position.y, 0);
    assert_eq!(car.heading, 0);
}
