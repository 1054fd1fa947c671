//! Network events as the handlers read them.

use crate::sys::msg::copy_bytes;
use vstd::prelude::*;

verus! {

/// A message that was published on gossip topics.
#[derive(Debug)]
pub struct FloodsubMessage {
    /// The published bytes.
    pub data: Vec<u8>,
    /// The topics that the message was published on.
    pub topics: Vec<String>,
}

/// An event of the gossip layer.
#[derive(Debug)]
pub enum FloodsubEvent {
    /// A message arrived.
    Message(FloodsubMessage),
    /// Anything else: a peer subscribed or unsubscribed.
    Other,
}

/// An event of the network behavior.
#[derive(Debug)]
pub enum BehaviorEvent {
    /// An event of the gossip layer.
    Floodsub(FloodsubEvent),
    /// An event of another protocol.
    Other,
}

/// The identity of a peer, as the bytes that the transport knows it by.
#[derive(Debug)]
pub struct PeerId {
    /// The bytes of the identity.
    pub bytes: Vec<u8>,
}

impl Clone for PeerId {
    fn clone(&self) -> (copy: PeerId)
        ensures
            copy.bytes@ == self.bytes@,
    {
        PeerId { bytes: copy_bytes(&self.bytes) }
    }
}

/// How a connection came about.
#[derive(Debug)]
pub enum ConnectedPoint {
    /// This client dialed the peer at `address`.
    Dialer { address: String },
    /// The peer dialed this client.
    Listener,
}

} // verus!
