//! The end user licence agreement file and the first-start consent screen.
pub mod eula_checker;
pub mod terms_checker;
