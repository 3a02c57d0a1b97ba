//! Simulation core of a 2D arcade shooter.
//!
//! The crate models the gameplay half of the game only: an entity/component
//! store, the movement and target-seeking algorithms, the per-tick behavior
//! pipeline, wave/level progression, fade transitions, and the game state
//! machine that sequences play sessions. Rendering, audio, asset loading and
//! window events are collaborators outside this crate; they talk to the core
//! through plain values (spawn layouts, a load-progress flag, input events).
//!
//! All coordinates are fixed-point integers: one game unit is `COORD_SCALE`
//! milli-units, and a tick's elapsed time is given in milliseconds. A
//! velocity stored in milli-units per millisecond is numerically equal to a
//! speed in game units per second.

pub mod components;
pub mod fade;
pub mod game;
pub mod level;
pub mod math;
pub mod states;
pub mod store;
pub mod systems;
