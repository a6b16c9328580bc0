//! The terminal interface: what its cards and screens decide.
pub mod elements;
pub mod screens;
pub mod app_state;
