//! The node's web server: websocket sessions and static files.
pub mod socket;
pub mod web_path_parser;
pub mod server;
