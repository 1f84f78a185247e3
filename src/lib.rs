//! Game logic of a two-paddle ball game: the entities that are spawned at
//! startup, the paddle controllers, ball resets and scoring.
//!
//! Lengths and positions are integers in thousandths of a pixel, collider
//! sizes in thousandths of an engine unit, angles in thousandths of a degree.
pub mod game;
pub mod graphics;
pub mod participant;
pub mod physics;
pub mod score;
pub mod wall;
