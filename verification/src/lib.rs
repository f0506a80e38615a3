//! Locomotion and survival core of a 2D platformer.
//!
//! The library holds the deterministic, per-tick logic of the game: the
//! four-state locomotion controller (Idle / Walk / Jump / Fall), the
//! environment-sensor model, the hazard/health model, the level-transition
//! protocol and the spawn rules, together with the coordinate and layout
//! logic of the level-editing tool.
//!
//! The engine that owns the window, the physics world and the asset store is
//! an external collaborator: it samples input and sensors once per tick,
//! hands the plain values to this library, and carries out the returned
//! effects (velocity writes, animation switches, signals).
//!
//! All geometry uses a fixed-point integer scale: one world unit is 1000
//! *milliunits*. Velocities are in milliunits per second and time steps in
//! milliseconds, so the motion constants of the game (walk speed 120 units/s,
//! jump impulse 250 units/s, gravity 300 units/s^2) and every per-tick update
//! are exact integer computations.

pub mod editline;
pub mod editor;
pub mod geom;
pub mod input;
pub mod level;
pub mod player;
pub mod scene;
pub mod sensors;
pub mod text;
pub mod tilemap;
pub mod tools;
