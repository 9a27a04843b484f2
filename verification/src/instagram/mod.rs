//! Forwarding new Instagram posts to a Discord channel.
pub mod media;
pub mod select;
pub mod unsent;
pub mod selection_laws;
pub mod graph;
pub mod graph_laws;
pub mod account;
pub mod settings;
pub mod poll;
pub mod poll_laws;
pub mod step_laws;
pub mod service;
