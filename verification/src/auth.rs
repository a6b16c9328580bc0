//! Users as the central authentication service knows them.
pub mod auth_user;
pub mod auth_connector;
