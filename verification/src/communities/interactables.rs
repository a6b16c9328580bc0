//! Interactables of a community.
pub mod voice_chat;
pub mod text_chat;
pub mod category;
