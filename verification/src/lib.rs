//! A planar rear-wheel-drive car simulation on a bicycle model of tire slip,
//! weight transfer and drag, advanced by a deterministic fixed-point
//! integrator whose per-tick behaviour is specified exactly and whose laws
//! (rest invariance, steer clamping, low-speed stop, mirror symmetry,
//! hand-brake grip loss, determinism) are proved in [`laws`].

pub mod car_steering;
pub mod fixed;
pub mod input_state;
pub mod laws;
pub mod track;
pub mod trig;
pub mod vec_math;
