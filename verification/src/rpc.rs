//! The vocabulary in which callers talk to the client.

pub mod cmd;
