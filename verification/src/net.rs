//! The client's side of the network: gossip, commands and the event loop's
//! decisions.

use vstd::prelude::*;

pub mod behavior;
pub mod client;
pub mod msg;
pub mod sync;

verus! {

/// The topic on which new messages are gossiped.
pub const FLOODSUB_MESSAGE_TOPIC: &'static str = "new_msg";

} // verus!
