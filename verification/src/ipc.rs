//! The protocol spoken with the daemon: frames, the search for the daemon's
//! socket, and the state of a client.

pub mod client;
pub mod discovery;
pub mod error;
pub mod reader;
pub mod utils;
