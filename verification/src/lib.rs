//! A 2D scene core: exact fixed-point geometry for casting a ray against
//! line obstacles, and a bounded particle system whose members move, fade
//! and expire under pluggable per-particle rules.
//!
//! All coordinates, velocities and alpha values are carried in millionths
//! (`num::SCALE` units per world unit), so every operation is exact integer
//! arithmetic with truncating division and can be specified precisely.

pub mod clock;
pub mod logic;
pub mod num;
pub mod particle;
pub mod particle_animation;
pub mod particle_system;
pub mod ray;
pub mod shapes;
pub mod view;
