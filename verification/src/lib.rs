pub mod array;
pub mod bridge;
pub mod detect;
pub mod ecs;
pub mod geometry;
pub mod minimap;
pub mod models;
pub mod player;
pub mod rng;
