//! Fixed-step gameplay simulation for a small arena shooter: character motion,
//! a double-barrel shotgun, health and death, chain-reaction explosions,
//! enemy spawners with a kill-driven difficulty curve, and combo scoring.
//!
//! All quantities are integers in fixed units: lengths in millimetres, times in
//! milliseconds, health and damage in thousandths of a hit point, headings in
//! millionths of a turn, and rates in thousandths per second.
pub mod geometry;
pub mod timer;
pub mod score;
pub mod health;
pub mod shotgun;
pub mod explosion;
pub mod spawner;
pub mod motion;
pub mod player;
pub mod states;
pub mod world;
