//! The errors of the client.

use vstd::prelude::*;

verus! {

/// Why an operation of the client failed.
#[derive(Debug, Clone, Copy, PartialEq, Eq, Structural)]
pub enum ClientError {
    /// None of the candidate sockets exists: the daemon is not running.
    DiscoveryExhausted,
    /// The transport failed: while connecting, for another reason than a
    /// socket that does not exist; or while writing or reading, which
    /// includes a stream that ends inside a frame.
    Transport,
    /// The client holds no transport: it was closed.
    NotConnected,
    /// The payload is longer than a header can state.
    PayloadTooLarge,
}

} // verus!
