//! Synchronization and consensus core of a client for a chain of
//! human-attested messages: a new message may extend the chain only if it
//! answers the captcha that an earlier message carries.

pub mod crypto;
pub mod net;
pub mod rpc;
pub mod sys;
