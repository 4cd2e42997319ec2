//! Core simulation of a small 2D arcade game: a player avatar collects
//! stars and avoids roaming enemies inside a bounded arena.
//!
//! All coordinates are integers measured in milliunits (one thousandth of a
//! world unit), so every rule of the simulation — movement integration,
//! boundary confinement, distance-based collision — is exact integer
//! arithmetic. The host runtime (windowing, input devices, rendering, audio)
//! drives the simulation by calling [`game::tick`] once per frame with the
//! elapsed time, the current arena bounds and the held keys.

pub mod enemy;
pub mod events;
pub mod game;
pub mod geometry;
pub mod player;
pub mod rng;
pub mod score;
pub mod star;
pub mod state;
pub mod store;
pub mod timer;
