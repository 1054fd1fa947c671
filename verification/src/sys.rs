//! Messages and the ledger that stores them.

pub mod msg;
pub mod rt;
