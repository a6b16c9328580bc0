//! Users hosted on this node: their profiles, contacts and bookkeeping.
pub mod user_profile;
pub mod user_profile_full;
pub mod contact;
pub mod user_community_util;
pub mod user_manager;
