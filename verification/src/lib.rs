//! Simulation core of a side-scrolling vector shooter on an integer grid:
//! liveness, polyline collision geometry, the entities, the terrain ribbon and
//! the fixed-step session that ties them together.

pub mod bomb;
pub mod camera;
pub mod chance;
pub mod collision_assets;
pub mod collision_lines;
pub mod constants;
pub mod font;
pub mod geometry;
pub mod health;
pub mod input;
pub mod killable;
pub mod landscape;
pub mod player;
pub mod playing;
pub mod rocket;
pub mod shot;
pub mod turret;
pub mod world_pos;
