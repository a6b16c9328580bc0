//! The link to the Omikron relay.
pub mod omikron_connection;
