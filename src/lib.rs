//! Pick a cloud instance from a filtered catalog and build the shell command
//! that opens a remote session to it.
//!
//! The catalog and its filter, the selection state machine that drives the
//! terminal list, and the resolver that merges command-line options, the
//! configuration file and defaults into one invocation are verified here.
pub mod text;
pub mod cache;
pub mod cmdgen;
pub mod config;
pub mod opts;
pub mod instance_details;
pub mod stateful_list;
pub mod ui;
