//! Real-time rigid-body physics core: fixed-point scalar arithmetic, vector
//! and quaternion algebra, collision shapes, narrow-phase detection
//! (sphere-sphere, box-box and sphere-box separating-axis tests), impulse
//! based collision resolution and a fixed-timestep world that owns all
//! bodies.
//!
//! Every scalar quantity is a signed 64-bit fixed-point number holding
//! `fx::SCALE` units per 1.0, so all behaviour is exact integer arithmetic
//! and every operation carries a proved contract.

pub mod body;
pub mod collision;
pub mod collision_box;
pub mod fx;
pub mod gameloop;
pub mod laws;
pub mod octree;
pub mod quat;
pub mod time;
pub mod vec3;
pub mod world;
