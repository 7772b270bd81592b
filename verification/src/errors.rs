//! Error taxonomy of the proxy.
//!
//! Per-message failures are absorbed at the message-router boundary: they
//! become "no response". Only configuration-time failures (a protocol-family
//! mismatch) are surfaced to the caller that constructs the proxy.

use vstd::prelude::*;
use crate::config::NetworkProtocol;

verus! {

/// A storage-layer failure: the requested entity is absent.
#[derive(Clone, Copy, Debug, PartialEq, Eq, Structural)]
pub enum ViewError {
    NotFound,
}

/// A failure while creating or loading a chain.
#[derive(Clone, Copy, Debug, PartialEq, Eq, Structural)]
pub enum ChainError {
    View(ViewError),
}

/// A failure while loading application code.
#[derive(Clone, Copy, Debug, PartialEq, Eq, Structural)]
pub enum ExecutionError {
    View(ViewError),
}

/// A protocol-level failure reported by a node.
#[derive(Clone, Copy, Debug, PartialEq, Eq, Structural)]
pub enum NodeError {
    /// A message kind reached a handler that can never serve it: a
    /// classification bug, not a user-facing failure.
    UnexpectedMessage,
}

/// A failure while handling one inbound message or constructing the proxy.
#[derive(Clone, Copy, Debug, PartialEq, Eq, Structural)]
pub enum ProxyError {
    /// A storage operation failed.
    View(ViewError),
    /// A node-level protocol failure.
    Node(NodeError),
    /// The network description is absent from storage.
    MissingNetworkDescription,
    /// An uploaded blob has no blob state: the system does not expect it.
    BlobNotFound,
    /// The public and internal networks are configured with different
    /// protocol families; the proxy must not start.
    ProtocolMismatch(NetworkProtocol, NetworkProtocol),
}

/// A failure of one forwarded round trip. The two timeout kinds are distinct
/// from the transport-level failures of the same step.
#[derive(Clone, Copy, Debug, PartialEq, Eq, Structural)]
pub enum ForwardError {
    /// Opening the connection to the shard failed.
    Connect,
    /// The send deadline elapsed.
    SendTimeout,
    /// The transport failed while sending.
    Send,
    /// The receive deadline elapsed.
    RecvTimeout,
    /// The transport failed while receiving.
    Recv,
}

} // verus!
