//! A fire-spread simulation on a toroidal grid.
//!
//! Each cell is `Dead`, `Burning`, or `Alive`. Per tick, an `Alive` cell next
//! to at least one `Burning` cell may ignite (a random trial), and a `Burning`
//! cell burns out to `Dead` once its burn timer reaches the configured limit.
//! The engine reports when the grid has reached a state a tick cannot change.

pub mod cell;
pub mod game;
pub mod laws;
pub mod rng;
