//! Cards of the main screen.
pub mod graph_card;
pub mod log_card;
pub mod console_card;
