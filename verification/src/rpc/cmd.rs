//! Requests to the client and its responses. Every request but
//! `Terminate` carries an identifier that the caller chose, and every
//! response carries the identifier of the request that it answers.

use crate::crypto::hash;
use crate::sys::msg::Message;
use vstd::prelude::*;

verus! {

/// The fields of a message to submit.
#[derive(Debug)]
pub struct SubmitMsgReq {
    /// The payload.
    pub data: Vec<u8>,
    /// The identifier of the preceding message; `None` for a genesis
    /// message.
    pub prev: Option<hash::Hash>,
    /// The answer to the captcha of the message `captcha_src`.
    pub captcha_ans: Option<String>,
    /// The identifier of the message whose captcha is answered.
    pub captcha_src: Option<hash::Hash>,
    /// The position in the chain.
    pub height: u64,
    /// Milliseconds since the epoch.
    pub timestamp: u64,
    /// How many steps back from the new message its captcha source lies.
    pub lookback: Option<u64>,
}

/// The identifier of a message to load.
#[derive(Debug)]
pub struct LoadMsgReq {
    /// The identifier.
    pub hash: hash::Hash,
}

/// A request to the client.
#[derive(Debug)]
#[allow(inconsistent_fields)]
pub enum Cmd {
    /// Stop the client.
    Terminate,
    /// Build a message from `req`, broadcast it and store it.
    SubmitMsg { req: SubmitMsgReq, req_id: usize },
    /// Load the message with the given identifier.
    LoadMsg { req: LoadMsgReq, req_id: usize },
    /// Report the leaf of the longest chain.
    GetHead { req_id: usize },
}

/// A response of the client.
#[derive(Debug)]
pub enum CmdResp {
    /// The message was submitted under `hash`.
    MsgSubmitted { hash: hash::Hash, req_id: usize },
    /// The message that was asked for.
    MsgLoaded { msg: Message, req_id: usize },
    /// The identifier of the leaf of the longest chain.
    HeadLoaded { hash: hash::Hash, req_id: usize },
    /// The request failed.
    Error { error: String, req_id: usize },
}

impl Cmd {
    /// The identifier that the caller gave the request; `None` for
    /// `Terminate`.
    pub open spec fn spec_req_id(self) -> Option<usize> {
        match self {
            Cmd::Terminate => None,
            Cmd::SubmitMsg { req_id, .. } => Some(req_id),
            Cmd::LoadMsg { req_id, .. } => Some(req_id),
            Cmd::GetHead { req_id } => Some(req_id),
        }
    }

    /// The identifier that the caller gave the request; `None` for
    /// `Terminate`.
    pub fn req_id(&self) -> (id: Option<usize>)
        ensures
            id == self.spec_req_id(),
    {
        match self {
            Cmd::Terminate => None,
            Cmd::SubmitMsg { req_id, .. } => Some(*req_id),
            Cmd::LoadMsg { req_id, .. } => Some(*req_id),
            Cmd::GetHead { req_id } => Some(*req_id),
        }
    }
}

impl CmdResp {
    /// The identifier of the request that this response answers.
    pub open spec fn spec_req_id(self) -> usize {
        match self {
            CmdResp::MsgSubmitted { req_id, .. } => req_id,
            CmdResp::MsgLoaded { req_id, .. } => req_id,
            CmdResp::HeadLoaded { req_id, .. } => req_id,
            CmdResp::Error { req_id, .. } => req_id,
        }
    }

    /// The identifier of the request that this response answers.
    pub fn req_id(&self) -> (id: usize)
        ensures
            id == self.spec_req_id(),
    {
        match self {
            CmdResp::MsgSubmitted { req_id, .. } => *req_id,
            CmdResp::MsgLoaded { req_id, .. } => *req_id,
            CmdResp::HeadLoaded { req_id, .. } => *req_id,
            CmdResp::Error { req_id, .. } => *req_id,
        }
    }
}

} // verus!
