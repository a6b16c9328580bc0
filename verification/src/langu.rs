//! Language packs: the texts the node shows, looked up by key.
pub mod language_manager;
