//! Gameplay core of a small action platformer.
//!
//! * [`state_machine`]: data-driven state machines with prioritised, guarded
//!   transitions and enter, update and exit hooks.
//! * [`agent`], [`controller`], [`player`], [`ai`]: what a controller sees
//!   and orders, and the controllers of the player and of computer-driven
//!   entities.
//! * [`combat`]: the deferred hurt and damage queues and their resolution.
//! * [`phx`]: the components that mirror the physics engine, and the
//!   bookkeeping around the engine's step.
//! * [`schedule`]: the order of the systems within a tick.
//! * [`timer`]: the fixed-rate frame timer.
//! * [`input`]: the buttons and their recent history.
//! * [`tilemap`]: the solid grid of a level.
//! * [`engine`]: what is relied upon of the physics engine and the component
//!   store.
//!
//! Nothing in this crate computes in floating point: positions and
//! velocities are carried as opaque values, and a controller orders changes
//! of velocity instead of making them.

pub mod agent;
pub mod ai;
pub mod combat;
pub mod controller;
pub mod engine;
pub mod input;
pub mod phx;
pub mod player;
pub mod schedule;
pub mod state_machine;
pub mod tilemap;
pub mod timer;
