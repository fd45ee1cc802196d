//! The circuit border: an ordered open polyline of fixed-point points, and a
//! contact test between it and the car's oriented-box proxy. The proxy is the
//! chassis rectangle, `cg_to_front + cg_to_rear` long and `half_width` wide on
//! each side, centred on the car's position and turned to its heading. The
//! test is the separating-axis test for a segment against a box, carried out
//! in the box's own frame with the same saturating fixed-point arithmetic as
//! the integrator, so the contact flag is a deterministic function of the
//! vehicle state.

use vstd::prelude::*;

use crate::car_steering::{CarSteering, SteeringCfg};
use crate::fixed::{
    fmul, fmul_s, mag, mag_fp, sat_add, sat_add_s, sat_sub, sat_sub_s, tdiv_s, tdivc,
};
use crate::trig::{cos_fp, cos_s, sin_fp, sin_s};
use crate::vec_math::Vec2;

verus! {

/// The border polyline, in order; consecutive points make its segments.
pub open spec fn border_seq_s() -> Seq<Vec2> {
    seq![
        Vec2 { x: -39000000i64, y: -42000000i64 },
        Vec2 { x: -17000000i64, y: -43000000i64 },
        Vec2 { x: 5000000i64, y: -41000000i64 },
        Vec2 { x: 26000000i64, y: -34000000i64 },
        Vec2 { x: 33000000i64, y: -25000000i64 },
        Vec2 { x: 37000000i64, y: -13000000i64 },
        Vec2 { x: 36000000i64, y: -4000000i64 },
        Vec2 { x: 29000000i64, y: -2000000i64 },
        Vec2 { x: 21000000i64, y: -4000000i64 },
        Vec2 { x: 16000000i64, y: -8000000i64 },
        Vec2 { x: 9000000i64, y: -11000000i64 },
        Vec2 { x: -4000000i64, y: -12000000i64 },
        Vec2 { x: -7000000i64, y: -6000000i64 },
        Vec2 { x: -2000000i64, y: 7000000i64 },
        Vec2 { x: 18000000i64, y: 13000000i64 },
        Vec2 { x: 34000000i64, y: 18000000i64 },
        Vec2 { x: 41000000i64, y: 31000000i64 },
        Vec2 { x: 36000000i64, y: 43000000i64 },
        Vec2 { x: 23000000i64, y: 45000000i64 },
        Vec2 { x: 0i64, y: 46000000i64 },
        Vec2 { x: -12000000i64, y: 39000000i64 },
        Vec2 { x: -20000000i64, y: 22000000i64 },
        Vec2 { x: -27000000i64, y: 12000000i64 },
        Vec2 { x: -36000000i64, y: 17000000i64 },
        Vec2 { x: -36000000i64, y: 31000000i64 },
        Vec2 { x: -35000000i64, y: 46000000i64 },
        Vec2 { x: -46000000i64, y: 46000000i64 },
        Vec2 { x: -47000000i64, y: 34000000i64 },
        Vec2 { x: -47000000i64, y: 16000000i64 },
        Vec2 { x: -43000000i64, y: 6000000i64 },
        Vec2 { x: -33000000i64, y: 2000000i64 },
        Vec2 { x: -24000000i64, y: 1000000i64 },
        Vec2 { x: -20000000i64, y: 6000000i64 },
        Vec2 { x: -9000000i64, y: 20000000i64 },
        Vec2 { x: -4000000i64, y: 28000000i64 },
        Vec2 { x: 6000000i64, y: 36000000i64 },
        Vec2 { x: 21000000i64, y: 38000000i64 },
        Vec2 { x: 27000000i64, y: 35000000i64 },
        Vec2 { x: 27000000i64, y: 30000000i64 },
        Vec2 { x: 23000000i64, y: 27000000i64 },
        Vec2 { x: 12000000i64, y: 24000000i64 },
        Vec2 { x: 1000000i64, y: 20000000i64 },
        Vec2 { x: -9000000i64, y: 16000000i64 },
        Vec2 { x: -16000000i64, y: 6000000i64 },
        Vec2 { x: -21000000i64, y: -2000000i64 },
        Vec2 { x: -21000000i64, y: -10000000i64 },
        Vec2 { x: -19000000i64, y: -18000000i64 },
        Vec2 { x: -10000000i64, y: -22000000i64 },
        Vec2 { x: 2000000i64, y: -22000000i64 },
        Vec2 { x: 10000000i64, y: -22000000i64 },
        Vec2 { x: 17000000i64, y: -19000000i64 },
        Vec2 { x: 23000000i64, y: -16000000i64 },
        Vec2 { x: 24000000i64, y: -21000000i64 },
        Vec2 { x: 22000000i64, y: -23000000i64 },
        Vec2 { x: 12000000i64, y: -27000000i64 },
        Vec2 { x: -1000000i64, y: -30000000i64 },
        Vec2 { x: -19000000i64, y: -31000000i64 },
        Vec2 { x: -28000000i64, y: -29000000i64 },
        Vec2 { x: -39000000i64, y: -28000000i64 },
    ]
}

/// The border shape, as its points in order, for the renderer and the
/// contact test.
pub fn get_border_shape() -> (r: Vec<Vec2>)
    ensures
        r@ == border_seq_s(),
{
    let r: Vec<Vec2> = vec![
        Vec2 { x: -39000000, y: -42000000 },
        Vec2 { x: -17000000, y: -43000000 },
        Vec2 { x: 5000000, y: -41000000 },
        Vec2 { x: 26000000, y: -34000000 },
        Vec2 { x: 33000000, y: -25000000 },
        Vec2 { x: 37000000, y: -13000000 },
        Vec2 { x: 36000000, y: -4000000 },
        Vec2 { x: 29000000, y: -2000000 },
        Vec2 { x: 21000000, y: -4000000 },
        Vec2 { x: 16000000, y: -8000000 },
        Vec2 { x: 9000000, y: -11000000 },
        Vec2 { x: -4000000, y: -12000000 },
        Vec2 { x: -7000000, y: -6000000 },
        Vec2 { x: -2000000, y: 7000000 },
        Vec2 { x: 18000000, y: 13000000 },
        Vec2 { x: 34000000, y: 18000000 },
        Vec2 { x: 41000000, y: 31000000 },
        Vec2 { x: 36000000, y: 43000000 },
        Vec2 { x: 23000000, y: 45000000 },
        Vec2 { x: 0, y: 46000000 },
        Vec2 { x: -12000000, y: 39000000 },
        Vec2 { x: -20000000, y: 22000000 },
        Vec2 { x: -27000000, y: 12000000 },
        Vec2 { x: -36000000, y: 17000000 },
        Vec2 { x: -36000000, y: 31000000 },
        Vec2 { x: -35000000, y: 46000000 },
        Vec2 { x: -46000000, y: 46000000 },
        Vec2 { x: -47000000, y: 34000000 },
        Vec2 { x: -47000000, y: 16000000 },
        Vec2 { x: -43000000, y: 6000000 },
        Vec2 { x: -33000000, y: 2000000 },
        Vec2 { x: -24000000, y: 1000000 },
        Vec2 { x: -20000000, y: 6000000 },
        Vec2 { x: -9000000, y: 20000000 },
        Vec2 { x: -4000000, y: 28000000 },
        Vec2 { x: 6000000, y: 36000000 },
        Vec2 { x: 21000000, y: 38000000 },
        Vec2 { x: 27000000, y: 35000000 },
        Vec2 { x: 27000000, y: 30000000 },
        Vec2 { x: 23000000, y: 27000000 },
        Vec2 { x: 12000000, y: 24000000 },
        Vec2 { x: 1000000, y: 20000000 },
        Vec2 { x: -9000000, y: 16000000 },
        Vec2 { x: -16000000, y: 6000000 },
        Vec2 { x: -21000000, y: -2000000 },
        Vec2 { x: -21000000, y: -10000000 },
        Vec2 { x: -19000000, y: -18000000 },
        Vec2 { x: -10000000, y: -22000000 },
        Vec2 { x: 2000000, y: -22000000 },
        Vec2 { x: 10000000, y: -22000000 },
        Vec2 { x: 17000000, y: -19000000 },
        Vec2 { x: 23000000, y: -16000000 },
        Vec2 { x: 24000000, y: -21000000 },
        Vec2 { x: 22000000, y: -23000000 },
        Vec2 { x: 12000000, y: -27000000 },
        Vec2 { x: -1000000, y: -30000000 },
        Vec2 { x: -19000000, y: -31000000 },
        Vec2 { x: -28000000, y: -29000000 },
        Vec2 { x: -39000000, y: -28000000 },
    ];
    proof {
        assert(r@ =~= border_seq_s());
    }
    r
}

/// Half length of the car's collision box: the chassis from rear to front.
pub open spec fn box_half_length_s(cfg: SteeringCfg) -> int {
    tdiv_s(sat_add_s(cfg.cg_to_front as int, cfg.cg_to_rear as int), 2)
}

/// A world point carried into the car's frame: forward component.
pub open spec fn to_car_frame_x_s(car: CarSteering, p: Vec2) -> int {
    sat_add_s(
        fmul_s(cos_s(car.heading as int), sat_sub_s(p.x as int, car.position.x as int)),
        fmul_s(sin_s(car.heading as int), sat_sub_s(p.y as int, car.position.y as int)),
    )
}

/// A world point carried into the car's frame: sideways component.
pub open spec fn to_car_frame_y_s(car: CarSteering, p: Vec2) -> int {
    sat_sub_s(
        fmul_s(cos_s(car.heading as int), sat_sub_s(p.y as int, car.position.y as int)),
        fmul_s(sin_s(car.heading as int), sat_sub_s(p.x as int, car.position.x as int)),
    )
}

/// Whether the segment from a to b meets the car's collision box: the
/// separating-axis test in the box frame, over the box's two axes and the
/// segment's normal.
pub open spec fn seg_hits_car_s(car: CarSteering, a: Vec2, b: Vec2) -> bool {
    let ax = to_car_frame_x_s(car, a);
    let ay = to_car_frame_y_s(car, a);
    let bx = to_car_frame_x_s(car, b);
    let by = to_car_frame_y_s(car, b);
    let hx = box_half_length_s(car.cfg);
    let hy = car.cfg.half_width as int;
    if ax > hx && bx > hx {
        false
    } else if ax < -hx && bx < -hx {
        false
    } else if ay > hy && by > hy {
        false
    } else if ay < -hy && by < -hy {
        false
    } else {
        let nx = sat_sub_s(ay, by);
        let ny = sat_sub_s(bx, ax);
        let d = sat_add_s(fmul_s(nx, ax), fmul_s(ny, ay));
        let reach = sat_add_s(fmul_s(hx, mag(nx)), fmul_s(hy, mag(ny)));
        mag(d) <= reach
    }
}

fn seg_hits_car(car: &CarSteering, a: &Vec2, b: &Vec2) -> (r: bool)
    ensures
        r == seg_hits_car_s(*car, *a, *b),
{
    let cs: i64 = cos_fp(car.heading);
    let sn: i64 = sin_fp(car.heading);
    let ax: i64 = sat_add(
        fmul(cs, sat_sub(a.x, car.position.x)),
        fmul(sn, sat_sub(a.y, car.position.y)),
    );
    let ay: i64 = sat_sub(
        fmul(cs, sat_sub(a.y, car.position.y)),
        fmul(sn, sat_sub(a.x, car.position.x)),
    );
    let bx: i64 = sat_add(
        fmul(cs, sat_sub(b.x, car.position.x)),
        fmul(sn, sat_sub(b.y, car.position.y)),
    );
    let by: i64 = sat_sub(
        fmul(cs, sat_sub(b.y, car.position.y)),
        fmul(sn, sat_sub(b.x, car.position.x)),
    );
    let hx: i64 = tdivc(sat_add(car.cfg.cg_to_front, car.cfg.cg_to_rear), 2);
    let hy: i64 = car.cfg.half_width;
    if ax > hx && bx > hx {
        false
    } else if ax < -hx && bx < -hx {
        false
    } else if ay > hy && by > hy {
        false
    } else if ay < -hy && by < -hy {
        false
    } else {
        let nx: i64 = sat_sub(ay, by);
        let ny: i64 = sat_sub(bx, ax);
        let d: i64 = sat_add(fmul(nx, ax), fmul(ny, ay));
        let reach: i64 = sat_add(fmul(hx, mag_fp(nx)), fmul(hy, mag_fp(ny)));
        mag_fp(d) <= reach
    }
}

/// Whether the car's collision box, placed at its current position and
/// heading, touches any segment of the border polyline.
pub fn car_touches_border(car: &CarSteering) -> (r: bool)
    ensures
        r == exists|i: int|
            0 <= i < border_seq_s().len() - 1 && #[trigger] seg_hits_car_s(
                *car,
                border_seq_s()[i],
                border_seq_s()[i + 1],
            ),
{
    let pts: Vec<Vec2> = get_border_shape();
    let mut i: usize = 0;
    while i + 1 < pts.len()
        invariant
            pts@ == border_seq_s(),
            i + 1 <= pts.len(),
            forall|j: int|
                0 <= j < i ==> !#[trigger] seg_hits_car_s(
                    *car,
                    border_seq_s()[j],
                    border_seq_s()[j + 1],
                ),
        decreases pts.len() - i,
    {
        if seg_hits_car(car, &pts[i], &pts[i + 1]) {
            return true;
        }
        i = i + 1;
    }
    false
}

} // verus!
