//! A peer-to-peer file-sharing library: a coordinating actor bridges a
//! synchronous-looking client facade to an asynchronous peer-to-peer event
//! stream, correlating completions back to the callers through single-use
//! reply handles.

pub mod addr;
pub mod args;
pub mod client;
pub mod command;
pub mod directory;
pub mod event_loop;
pub mod events;
pub mod flows;
pub mod identity;
pub mod model;
pub mod reply;
