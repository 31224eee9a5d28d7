//! A two-combatant arena duel: scenes stacked on a scene stack, and a per-frame
//! simulation of combatants, projectiles and collisions.
//!
//! World coordinates are integers in micro-pixels (`SUBPIXELS` per pixel),
//! velocities are in milli-pixels per second and time is in milliseconds, so
//! that `velocity * dt` is a displacement in micro-pixels with no rounding.

pub mod geometry;
pub mod utils;
pub mod draw;
pub mod projectile;
pub mod input;
pub mod player;
pub mod game_data;
pub mod game_scene;
pub mod menu_scene;
pub mod scenes;
