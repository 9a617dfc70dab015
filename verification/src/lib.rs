//! A local client for a desktop chat application's rich-presence daemon: the
//! frame codec, the discovery of the daemon's socket, the client's protocol
//! state, and the construction of the presence that is announced.
//!
//! Nothing here performs I/O. The functions take what was read and return what
//! is to be sent, so that their contracts hold of every transport.

pub mod config;
pub mod ipc;
pub mod mappings;
pub mod rpc;
pub mod util;

pub use config::Config;
