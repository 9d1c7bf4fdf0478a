//! Beltane: an audio transport core in hexagonal layers.
//!
//! The domain owns the play/stop state, the application service turns
//! commands into events, effects and a projection, and the runtime routes
//! those effects to adapters through the port traits.

pub mod domain;
pub mod ports;
pub mod application;
pub mod runtime;
pub mod gui;
