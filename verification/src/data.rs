//! The messages exchanged with clients and the Omikron relay.
pub mod communication;
pub mod json_value;
pub mod key_names;
