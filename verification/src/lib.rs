//! Control plane of a terminal music player.
//!
//! The player runs an input listener, a renderer, a playback controller and
//! a dispatcher side by side. This crate holds what those workers decide:
//! each of them is a step function from the state it is handed and the
//! event that occurred to the next state and the action to perform. The
//! threads, channels and devices that carry the events and perform the
//! actions live with the program that links this crate.

pub mod dispatcher;
pub mod input;
pub mod library;
pub mod player;
pub mod queue;
pub mod state;
pub mod ui;
pub mod utils;
