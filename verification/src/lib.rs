//! A controller that puts a terminal session into Tmux input mode for a
//! bounded time window and reverts it to normal mode afterwards.
//!
//! The crate holds the decisions only: which mode to ask for and when to arm
//! a timer. The host that delivers the notifications and carries out the
//! effects lives outside of it.

pub mod config;
pub mod controller;
pub mod laws;
pub mod text;
