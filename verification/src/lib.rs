//! Simulation core of a small space-survival arcade game.

pub mod asteroids;
pub mod fixed;
pub mod fixed_order;
pub mod frame;
pub mod fuel;
pub mod motion;
pub mod player;
pub mod sample;
pub mod score;
pub mod spawn;
pub mod timer;
pub mod util;
pub mod world;
