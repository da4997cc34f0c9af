//! Verified core of a terminal game-server monitor: the stored server
//! records and their conversion rules, the "add server" form, the interface
//! state machine and the text shown by the terminal interface.
pub mod form;
pub mod net;
pub mod server;
pub mod settings;
pub mod store;
pub mod text;
pub mod tui;
pub mod view;
