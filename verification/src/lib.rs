//! Discovery and connection management for wireless networks.
//!
//! The library holds the rules of a wireless manager: how the textual
//! output of the network tool is read, how observations of access points
//! are merged and ranked, how a connection request is decided, and how
//! the polling loop moves from one state to the next. Running commands,
//! talking to the bus and drawing belong to the program around it.
//!
//! - `text`: characters, lines, fields and numbers.
//! - `command`: what a run of the network tool came to, and the failures.
//! - `ranking`: one entry for each name, strongest first.
//! - `network_manager`: what the network service reports over the bus.
//! - `wifi_scanner`: the list of networks, from the service or the tool.
//! - `wifi_connection`: connecting, disconnecting, forgetting.
//! - `ui`: what the interface remembers between two events.
//! - `event_loop`: the decisions of the polling loop.
//! - `display`: the words that the interface shows.

pub mod command;
pub mod display;
pub mod event_loop;
pub mod network_manager;
pub mod ranking;
pub mod text;
pub mod ui;
pub mod wifi_connection;
pub mod wifi_scanner;
