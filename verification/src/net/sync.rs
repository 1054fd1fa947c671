//! What the synchronization context reports to the event loop.

use crate::crypto::hash;
use crate::sys::msg::Message;
use vstd::prelude::*;

verus! {

/// Events emitted by the synchronization context.
#[derive(Debug)]
pub enum Event {
    /// A message was written to the distributed hash table.
    MessageCommitted(hash::Hash),
    /// A peer reported a new leaf of the longest chain.
    LongestChainUpdated { hash: hash::Hash },
    /// A message was downloaded in the course of synchronization.
    MessageLoaded(Message),
    /// A message that a caller asked for was downloaded.
    MessageLoadCompleted { msg: Message, req_id: usize },
    /// A message that a caller asked for could not be downloaded.
    MessageLoadFailed { req_id: usize },
}

} // verus!
