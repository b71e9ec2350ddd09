//! Values shared by every worker.

pub mod constants;
pub mod requests;
