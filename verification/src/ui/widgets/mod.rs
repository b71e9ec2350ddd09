//! The parts of the screen.

pub mod curr_playing_bar;
pub mod stateful_list;
