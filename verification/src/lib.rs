//! Simulation core of a top-down driving game.
//!
//! The crate keeps spatial and kinematic state of the game's entities in a
//! `specs` world, advances it with a fixed pipeline of systems, mirrors the
//! poses into a registry of collision objects, and turns the contact events
//! that a collision engine reports into changes of the entities' motion.
//!
//! All quantities are fixed-point numbers (see [`types::UNIT`]); the driver
//! around this crate owns the window, the assets, the input devices and the
//! collision engine's geometric tests.

pub mod collision;
pub mod components;
pub mod store;
pub mod types;
pub mod world;
pub mod systems;
pub mod scenes;
