//! Screens of the terminal interface.
pub mod screens;
pub mod main_screen;
pub mod consent_layout;
pub mod terms_checker;
pub mod terms_updater;
