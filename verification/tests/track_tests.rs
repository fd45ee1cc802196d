use car_sim::car_steering::{CarSteering, SteeringCfg};
use car_sim::track::{car_touches_border, get_border_shape};
use car_sim::trig::HALF_PI_FP;
use car_sim::vec_math::Vec2;

#[test]
fn border_has_the_circuit_points() {
    let pts = get_border_shape();
    assert_eq!(pts.len(), 59);
    assert_eq!(pts[0], Vec2 { x: -39_000_000, y: -42_000_000 });
    assert_eq!(pts[19], Vec2 { x: 0, y: 46_000_000 });
    assert_eq!(pts[58], Vec2 { x: -39_000_000, y: -28_000_000 });
}

#[test]
fn car_in_the_open_touches_nothing() {
    let car = CarSteering::new(SteeringCfg::def_steering(), Vec2 { x: 0, y: 0 }, 0).unwrap();
    assert!(!car_touches_border(&car));
}

#[test]
fn car_on_a_border_vertex_touches() {
    let car =
        CarSteering::new(SteeringCfg::def_steering(), Vec2 { x: -39_000_000, y: -42_000_000 }, 0).unwrap();
    assert!(car_touches_border(&car));
}

#[test]
fn driving_into_a_wall_raises_the_contact_flag() {
    // the starting pose on the circuit: facing along -y from (-40, 40)
    let mut car = CarSteering::new(
        SteeringCfg::def_steering(),
        Vec2 { x: -40_000_000, y: 40_000_000 },
        -HALF_PI_FP,
    )
    .unwrap();
    assert!(!car_touches_border(&car));
    let mut hit = false;
    for _ in 0..5000 {
        car.accelerate();
        car.update(8_333);
        if car_touches_border(&car) {
            hit = true;
            break;
        }
    }
    assert!(hit, "ended at x={} y={}", car.position.x, car.position.y);
}

#[test]
fn contact_depends_on_the_heading() {
    // 1.5 m east of the straight western wall at x = -47: only the long side
    // of the chassis box, pointed at the wall, reaches it
    let nose_on = CarSteering::new(SteeringCfg::def_steering(), Vec2 { x: -45_500_000, y: 25_000_000 }, 0).unwrap();
    assert!(car_touches_border(&nose_on));
    let parallel =
        CarSteering::new(SteeringCfg::def_steering(), Vec2 { x: -45_500_000, y: 25_000_000 }, HALF_PI_FP).unwrap();
    assert!(!car_touches_border(&parallel));
}
