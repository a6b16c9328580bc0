//! Permissions of a community.
pub mod permission;
