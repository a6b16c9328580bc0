//! Core logic of the Tensamin Iota node: message type vocabularies, consent
//! handling, language packs, user bookkeeping and the text layout used by the
//! terminal interface.
pub mod text;
pub mod terms;
pub mod clock;
pub mod eula;
pub mod data;
pub mod ids;
pub mod crypto;
pub mod communities;
pub mod users;
pub mod auth;
pub mod langu;
pub mod omikron;
pub mod server;
pub mod gui;
