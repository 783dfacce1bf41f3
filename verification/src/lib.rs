//! Core of a desktop client for a remotely hosted email archive.
//!
//! The library holds the state, the event reducer, and the supporting state
//! machines of the client: every user intent and every asynchronous result is
//! an event, and a single reducer maps the current state and an event to the
//! next state together with a list of commands describing the asynchronous
//! work to perform. Network and file I/O live outside the library; commands
//! are plain descriptions of them.

pub mod api;
pub mod command;
pub mod compose;
pub mod discovery;
pub mod downloads;
pub mod error;
pub mod message;
pub mod navigation;
pub mod numfmt;
pub mod selection;
pub mod settings;
pub mod state;
pub mod text;
pub mod textutil;
pub mod thread;
pub mod timefmt;
pub mod types;
pub mod update;

use vstd::prelude::*;

verus! {

} // verus!
