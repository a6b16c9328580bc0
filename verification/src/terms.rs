//! Legal documents, the consent record kept for them, and the consent screens'
//! decision logic.
pub mod buttons;
pub mod focus;
pub mod terms_getter;
pub mod doc;
pub mod consent_state;
pub mod md_viewer;
pub mod terms_updater;
pub mod consent_file;
