//! Core of a small desktop window shell: two remote-invocable commands that
//! toggle host-owned window chrome state, and the startup decisions that wire
//! them to the host runtime.
//!
//! The host windowing system itself (window creation, the event loop, command
//! marshalling) is an external collaborator; this crate holds the decisions
//! the shell makes and the messages it reports, stated and proved over a
//! model of the window's attributes.

pub mod commands;
pub mod startup;
pub mod window;
