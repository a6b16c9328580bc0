//! Communities and the interactables they hold.
pub mod interactables;
pub mod community_manager;
pub mod community;
pub mod community_connection;
pub mod perms;
