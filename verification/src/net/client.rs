//! The client: the ledger, the rules, and what the event loop does with
//! each event. The loop itself waits on the network, the timer and the
//! command queue, hands every event to the client and carries out the
//! actions that come back, in order.

use crate::crypto::hash;
use crate::net::behavior::{BehaviorEvent, ConnectedPoint, PeerId};
use crate::net::msg::{
    admissible_in_time, gossip_text, ledger_after_receipt, ConsensusRule, ConsensusRules,
    Context as MsgContext, Error as MsgError, Event as MsgEvent, Unrestricted,
};
use crate::net::sync::Event as SyncEvent;
use crate::rpc::cmd::{Cmd, CmdResp, LoadMsgReq, SubmitMsgReq};
use crate::sys::msg::{
    content_hash, hash_view, json_message, message_json, text_view, Captcha, CaptchaView,
    Message, MessageData, MessageDataView, MessageView,
};
use crate::sys::rt::{Rt, RtView};
use vstd::prelude::*;
use vstd::string::StringExecFns;

verus! {

/// Where the client stands in its life.
#[derive(Clone, Copy, Debug, PartialEq, Eq, Structural)]
pub enum Phase {
    /// Created; the loop has not begun.
    Starting,
    /// The loop serves events.
    Running,
    /// `Terminate` was taken in; the loop is about to end.
    Terminating,
    /// The loop has ended.
    Stopped,
}

/// What the loop has to do for the client.
#[derive(Debug)]
pub enum Action {
    /// Dial the peer at this address.
    Dial(String),
    /// Listen for websocket connections on this port, over TLS if `secure`.
    Listen { port: u16, secure: bool },
    /// Send this response to the callers.
    Respond(CmdResp),
    /// Broadcast these bytes on the message topic.
    Publish(Vec<u8>),
    /// Have the synchronization context download this message.
    DownloadMsg(hash::Hash),
    /// Have the synchronization context download this message for the
    /// request `req_id`.
    LoadMsg { hash: hash::Hash, req_id: usize },
    /// Have the synchronization context ask these peers for the leaf of
    /// the longest chain.
    DownloadHead(Vec<PeerId>),
    /// Have the synchronization context announce the local chain.
    UploadChain,
    /// Join the distributed hash table.
    Bootstrap,
    /// Make the peer's address known to routing and to request-response.
    AddAddress { peer: PeerId, address: String },
    /// Gossip with this peer.
    AddToPartialView(PeerId),
    /// Forget the peer in routing.
    RemovePeer(PeerId),
    /// Stop gossiping with this peer.
    RemoveFromPartialView(PeerId),
    /// Forget the peer's address in request-response.
    RemoveAddress { peer: PeerId, address: String },
    /// End the loop.
    Stop,
}

/// Whether `action` settles the request `req_id`: it answers that request,
/// or hands it to the synchronization context under that identifier.
pub open spec fn settles(action: Action, req_id: usize) -> bool {
    match action {
        Action::Respond(resp) => resp.spec_req_id() == req_id,
        Action::LoadMsg { req_id: id, .. } => id == req_id,
        _ => false,
    }
}

/// Whether `action` answers a request or hands one on.
pub open spec fn concerns_a_request(action: Action) -> bool {
    action is Respond || action is LoadMsg
}

/// Exactly one of `actions` concerns a request, and it settles `req_id`.
pub open spec fn settled_once(actions: Seq<Action>, req_id: usize) -> bool {
    exists|i: int|
        0 <= i < actions.len() && settles(#[trigger] actions[i], req_id) && forall|j: int|
            0 <= j < actions.len() && j != i ==> !concerns_a_request(#[trigger] actions[j])
}

/// None of `actions` concerns a request.
pub open spec fn concerns_no_request(actions: Seq<Action>) -> bool {
    forall|j: int| 0 <= j < actions.len() ==> !concerns_a_request(#[trigger] actions[j])
}

/// The only action is an error response to the request `req_id`.
pub open spec fn only_reports_failure(actions: Seq<Action>, req_id: usize) -> bool {
    actions.len() == 1 && (actions[0] matches Action::Respond(CmdResp::Error { req_id: id, .. })
        && id == req_id)
}

/// The content of the message that `req` asks to submit, with `captcha`
/// as the challenge that it puts to its descendants.
pub open spec fn submitted_data(req: SubmitMsgReq, captcha: CaptchaView) -> MessageDataView {
    MessageDataView {
        data: req.data@,
        prev: hash_view(req.prev),
        captcha_ans: text_view(req.captcha_ans),
        captcha_src: hash_view(req.captcha_src),
        lookback: req.lookback,
        new_captcha: captcha,
        height: req.height,
        timestamp: req.timestamp,
    }
}

/// What a submission does: the message is sealed, written as JSON for
/// broadcast, stored, and its identifier reported. Where sealing or
/// writing fails, the failure is reported and the ledger stays as it was.
pub open spec fn submit_outcome(
    before: RtView,
    req: SubmitMsgReq,
    captcha: CaptchaView,
    req_id: usize,
    actions: Seq<Action>,
    after: RtView,
) -> bool {
    let data = submitted_data(req, captcha);
    match content_hash(data) {
        Some(h) => {
            let m = MessageView { data, hash: h };
            match message_json(m) {
                Some(text) => {
                    &&& actions.len() == 2
                    &&& actions[0] matches Action::Publish(bytes) && bytes@ == text
                    &&& actions[1] matches Action::Respond(
                        CmdResp::MsgSubmitted { hash, req_id: id },
                    ) && hash@ == h && id == req_id
                    &&& after == before.insert(m)
                },
                None => only_reports_failure(actions, req_id) && after == before,
            }
        },
        None => only_reports_failure(actions, req_id) && after == before,
    }
}

/// What a load request does: a message that is in the ledger is handed out
/// at once; for any other the synchronization context is asked, under the
/// request's identifier.
pub open spec fn load_outcome(
    ledger: RtView,
    req: LoadMsgReq,
    req_id: usize,
    actions: Seq<Action>,
) -> bool {
    &&& actions.len() == 1
    &&& match ledger.get(req.hash@) {
        Some(m) => actions[0] matches Action::Respond(CmdResp::MsgLoaded { msg, req_id: id })
            && msg@ == m && id == req_id,
        None => actions[0] matches Action::LoadMsg { hash, req_id: id } && hash@ == req.hash@
            && id == req_id,
    }
}

/// What a request for the head does: the identifier of the leaf of the
/// longest chain is reported, or that there is none.
pub open spec fn head_outcome(ledger: RtView, req_id: usize, actions: Seq<Action>) -> bool {
    &&& actions.len() == 1
    &&& match ledger.longest_chain {
        Some(h) => actions[0] matches Action::Respond(CmdResp::HeadLoaded { hash, req_id: id })
            && hash@ == h && id == req_id,
        None => actions[0] matches Action::Respond(CmdResp::Error { error, req_id: id })
            && error@ == "Missing chain HEAD."@ && id == req_id,
    }
}

/// What a command does to the ledger of a running client, and which
/// actions it calls for.
pub open spec fn command_outcome(
    before: RtView,
    cmd: Cmd,
    captcha: CaptchaView,
    actions: Seq<Action>,
    after: RtView,
) -> bool {
    match cmd {
        Cmd::Terminate => actions.len() == 1 && actions[0] is Stop && after == before,
        Cmd::SubmitMsg { req, req_id } => submit_outcome(
            before,
            req,
            captcha,
            req_id,
            actions,
            after,
        ),
        Cmd::LoadMsg { req, req_id } => load_outcome(before, req, req_id, actions) && after
            == before,
        Cmd::GetHead { req_id } => head_outcome(before, req_id, actions) && after == before,
    }
}

/// Which actions an event of the synchronization context calls for, given
/// the ledger.
pub open spec fn sync_outcome(ledger: RtView, event: SyncEvent, actions: Seq<Action>) -> bool {
    match event {
        SyncEvent::MessageCommitted(_) => actions.len() == 0,
        SyncEvent::LongestChainUpdated { hash } => if ledger.contains(hash@) {
            actions.len() == 0
        } else {
            actions.len() == 1 && (actions[0] matches Action::DownloadMsg(h) && h@ == hash@)
        },
        SyncEvent::MessageLoaded(msg) => match msg@.data.prev {
            Some(p) => if ledger.contains(p) {
                actions.len() == 0
            } else {
                actions.len() == 1 && (actions[0] matches Action::DownloadMsg(h) && h@ == p)
            },
            None => actions.len() == 0,
        },
        SyncEvent::MessageLoadCompleted { msg, req_id } => actions.len() == 1 && (
        actions[0] matches Action::Respond(CmdResp::MsgLoaded { msg: loaded, req_id: id })
            && loaded@ == msg@ && id == req_id),
        SyncEvent::MessageLoadFailed { req_id } => actions.len() == 1 && (
        actions[0] matches Action::Respond(CmdResp::Error { error, req_id: id }) && error@
            == "Failed to load the message."@ && id == req_id),
    }
}

/// The actions that begin the loop: every bootstrap peer is dialed, in
/// order, and then, where a port is given, the client listens on it.
pub open spec fn startup_outcome(
    bootstrap_peers: Seq<String>,
    listen_port: Option<u16>,
    secure: bool,
    actions: Seq<Action>,
) -> bool {
    &&& actions.len() == bootstrap_peers.len() + if listen_port is Some {
        1int
    } else {
        0int
    }
    &&& forall|i: int|
        0 <= i < bootstrap_peers.len() ==> (#[trigger] actions[i] matches Action::Dial(address)
            && address@ == bootstrap_peers[i]@)
    &&& listen_port matches Some(p) ==> (actions[bootstrap_peers.len() as int] matches Action::Listen {
        port,
        secure: tls,
    } && port == p && tls == secure)
}

/// Whether `address` is one of the bootstrap addresses.
pub open spec fn is_bootstrap_address(bootstrap_peers: Seq<String>, address: Seq<char>) -> bool {
    exists|i: int| 0 <= i < bootstrap_peers.len() && (#[trigger] bootstrap_peers[i])@ == address
}

/// Which actions a new connection calls for. A peer that this client
/// dialed is made known to routing and to request-response, and where its
/// address is a bootstrap address and the client has not bootstrapped yet,
/// the client joins the distributed hash table. Every new peer is gossiped
/// with.
pub open spec fn connection_outcome(
    bootstrapped: bool,
    peer: PeerId,
    endpoint: ConnectedPoint,
    bootstrap_peers: Seq<String>,
    actions: Seq<Action>,
) -> bool {
    match endpoint {
        ConnectedPoint::Dialer { address } => {
            let joins = !bootstrapped && is_bootstrap_address(bootstrap_peers, address@);
            &&& actions.len() == if joins {
                3int
            } else {
                2int
            }
            &&& actions[0] matches Action::AddAddress { peer: p, address: a } && p.bytes@
                == peer.bytes@ && a@ == address@
            &&& joins ==> actions[1] is Bootstrap
            &&& actions[actions.len() - 1] matches Action::AddToPartialView(p) && p.bytes@
                == peer.bytes@
        },
        ConnectedPoint::Listener => actions.len() == 1 && (
        actions[0] matches Action::AddToPartialView(p) && p.bytes@ == peer.bytes@),
    }
}

/// Which actions a closed connection calls for: the peer is forgotten in
/// routing and in gossip, and where this client had dialed it, its address
/// is forgotten in request-response.
pub open spec fn disconnection_outcome(
    peer: PeerId,
    endpoint: ConnectedPoint,
    actions: Seq<Action>,
) -> bool {
    &&& actions.len() == if endpoint is Dialer {
        3int
    } else {
        2int
    }
    &&& actions[0] matches Action::RemovePeer(p) && p.bytes@ == peer.bytes@
    &&& actions[1] matches Action::RemoveFromPartialView(p) && p.bytes@ == peer.bytes@
    &&& endpoint matches ConnectedPoint::Dialer { address } ==> (
    actions[2] matches Action::RemoveAddress { peer: p, address: a } && p.bytes@ == peer.bytes@
        && a@ == address@)
}

/// Every command that carries an identifier is settled by exactly one
/// action: a response with that identifier, or a load handed to the
/// synchronization context under it. No other action concerns a request.
pub proof fn lemma_command_settled_once(
    before: RtView,
    cmd: Cmd,
    captcha: CaptchaView,
    actions: Seq<Action>,
    after: RtView,
    req_id: usize,
)
    requires
        command_outcome(before, cmd, captcha, actions, after),
        cmd.spec_req_id() == Some(req_id),
    ensures
        settled_once(actions, req_id),
{
    match cmd {
        Cmd::Terminate => {},
        Cmd::SubmitMsg { req, req_id: id } => {
            let data = submitted_data(req, captcha);
            if content_hash(data) is Some && message_json(
                MessageView { data, hash: content_hash(data).unwrap() },
            ) is Some {
                assert(settles(actions[1], req_id));
                assert(!concerns_a_request(actions[0]));
            } else {
                assert(settles(actions[0], req_id));
            }
        },
        Cmd::LoadMsg { req, req_id: id } => {
            assert(settles(actions[0], req_id));
        },
        Cmd::GetHead { req_id: id } => {
            assert(settles(actions[0], req_id));
        },
    }
}

/// Submitting the same message a second time leaves the ledger as the
/// first submission left it: nothing is stored twice and the leaf of the
/// longest chain stays.
pub proof fn lemma_resubmission(
    first: RtView,
    req: SubmitMsgReq,
    captcha: CaptchaView,
    req_id: usize,
    actions: Seq<Action>,
    second: RtView,
    again_id: usize,
    again_actions: Seq<Action>,
    third: RtView,
)
    requires
        submit_outcome(first, req, captcha, req_id, actions, second),
        submit_outcome(second, req, captcha, again_id, again_actions, third),
    ensures
        third == second,
{
    let data = submitted_data(req, captcha);
    match content_hash(data) {
        Some(h) => {
            first.lemma_insert_idempotent(MessageView { data, hash: h });
        },
        None => {},
    }
}

/// A running client serves the commands `cmds` in order: `ledgers[i]` is
/// the ledger before the command `i` and `ledgers[i + 1]` the one after
/// it, `captchas[i]` the fresh challenge that the command may use, and
/// `outputs[i]` the actions that it calls for. Only the last command can
/// be `Terminate`, since none is served after it.
pub open spec fn serves(
    ledgers: Seq<RtView>,
    cmds: Seq<Cmd>,
    captchas: Seq<CaptchaView>,
    outputs: Seq<Seq<Action>>,
) -> bool {
    &&& ledgers.len() == cmds.len() + 1
    &&& captchas.len() == cmds.len()
    &&& outputs.len() == cmds.len()
    &&& forall|i: int| 0 <= i < cmds.len() - 1 ==> !((#[trigger] cmds[i]) is Terminate)
    &&& forall|i: int|
        0 <= i < cmds.len() ==> command_outcome(
            ledgers[i],
            #[trigger] cmds[i],
            captchas[i],
            outputs[i],
            ledgers[i + 1],
        )
}

/// Where requests with distinct identifiers are served one after another,
/// each is settled exactly once, by an action among those that it called
/// for itself; what any other request called for does not settle it.
pub proof fn lemma_responses_correlate(
    ledgers: Seq<RtView>,
    cmds: Seq<Cmd>,
    captchas: Seq<CaptchaView>,
    outputs: Seq<Seq<Action>>,
    i: int,
    req_id: usize,
)
    requires
        serves(ledgers, cmds, captchas, outputs),
        0 <= i < cmds.len(),
        cmds[i].spec_req_id() == Some(req_id),
        forall|j: int|
            0 <= j < cmds.len() && j != i ==> (#[trigger] cmds[j]).spec_req_id() != Some(req_id),
    ensures
        settled_once(outputs[i], req_id),
        forall|j: int, k: int|
            0 <= j < cmds.len() && j != i && 0 <= k < outputs[j].len() ==> !settles(
                #[trigger] outputs[j][k],
                req_id,
            ),
{
    lemma_command_settled_once(
        ledgers[i],
        cmds[i],
        captchas[i],
        outputs[i],
        ledgers[i + 1],
        req_id,
    );
    assert forall|j: int, k: int|
        0 <= j < cmds.len() && j != i && 0 <= k < outputs[j].len() implies !settles(
        #[trigger] outputs[j][k],
        req_id,
    ) by {
        match cmds[j].spec_req_id() {
            Some(other) => {
                lemma_command_settled_once(
                    ledgers[j],
                    cmds[j],
                    captchas[j],
                    outputs[j],
                    ledgers[j + 1],
                    other,
                );
                let w = choose|w: int|
                    0 <= w < outputs[j].len() && settles(#[trigger] outputs[j][w], other)
                        && forall|x: int|
                        0 <= x < outputs[j].len() && x != w ==> !concerns_a_request(
                            #[trigger] outputs[j][x],
                        );
                if k != w {
                    assert(!concerns_a_request(outputs[j][k]));
                }
            },
            None => {
                assert(cmds[j] is Terminate);
            },
        }
    }
}

/// The end of a load that was handed to the synchronization context
/// settles its request with exactly one response; no other event of the
/// synchronization context concerns a request.
pub proof fn lemma_sync_event_settles(ledger: RtView, event: SyncEvent, actions: Seq<Action>)
    requires
        sync_outcome(ledger, event, actions),
    ensures
        match event {
            SyncEvent::MessageLoadCompleted { req_id, .. } => settled_once(actions, req_id),
            SyncEvent::MessageLoadFailed { req_id } => settled_once(actions, req_id),
            _ => concerns_no_request(actions),
        },
{
    match event {
        SyncEvent::MessageLoadCompleted { req_id, .. } => {
            assert(settles(actions[0], req_id));
        },
        SyncEvent::MessageLoadFailed { req_id } => {
            assert(settles(actions[0], req_id));
        },
        _ => {},
    }
}

/// An interface with the network. `R` is the kind of extra admission
/// rule that the client applies to received messages.
pub struct Client<R: ConsensusRule = Unrestricted> {
    /// The ledger.
    pub runtime: Rt,
    /// The identifier of the chain that the client follows.
    pub chain_id: usize,
    /// Whether the client has joined the distributed hash table.
    pub bootstrapped: bool,
    /// Where the client stands in its life.
    pub phase: Phase,
    /// The extra admission rules. A received message has to pass them all.
    pub consensus_rules: ConsensusRules<R>,
    /// The gossip context.
    pub msg_context: MsgContext,
}

impl<R: ConsensusRule> Client<R> {
    /// `other` differs from `self` at most in its ledger.
    pub open spec fn same_but_ledger(&self, other: &Client<R>) -> bool {
        &&& self.chain_id == other.chain_id
        &&& self.bootstrapped == other.bootstrapped
        &&& self.phase == other.phase
        &&& self.consensus_rules == other.consensus_rules
    }

    /// Creates a client for the chain `chain_id`, with an empty ledger and
    /// no extra rules.
    pub fn new(chain_id: usize) -> (client: Client<R>)
        ensures
            client.chain_id == chain_id,
            client.runtime@ == RtView::empty(),
            !client.bootstrapped,
            client.phase == Phase::Starting,
            client.consensus_rules.rules@.len() == 0,
    {
        Client {
            chain_id,
            runtime: Rt::default(),
            bootstrapped: false,
            phase: Phase::Starting,
            consensus_rules: ConsensusRules::new(),
            msg_context: MsgContext::new(),
        }
    }

    /// Adds a consensus rule: from now on a received message also has to
    /// pass `rule` to enter the ledger.
    pub fn with_consensus_rule(&mut self, rule: R)
        ensures
            final(self).consensus_rules.rules@ == old(self).consensus_rules.rules@.push(rule),
            final(self).runtime == old(self).runtime,
            final(self).chain_id == old(self).chain_id,
            final(self).bootstrapped == old(self).bootstrapped,
            final(self).phase == old(self).phase,
    {
        self.consensus_rules.push(rule);
    }

    /// Begins the loop: calls for a dial to every bootstrap peer and, where
    /// a port is given, for listening on it, and starts to serve events.
    /// A client that has begun before is left alone.
    pub fn start(
        &mut self,
        bootstrap_peers: &Vec<String>,
        listen_port: Option<u16>,
        secure: bool,
    ) -> (actions: Vec<Action>)
        ensures
            final(self).runtime == old(self).runtime,
            final(self).chain_id == old(self).chain_id,
            final(self).bootstrapped == old(self).bootstrapped,
            final(self).consensus_rules == old(self).consensus_rules,
            old(self).phase == Phase::Starting ==> final(self).phase == Phase::Running
                && startup_outcome(bootstrap_peers@, listen_port, secure, actions@),
            old(self).phase != Phase::Starting ==> final(self).phase == old(self).phase
                && actions@.len() == 0,
    {
        let mut actions: Vec<Action> = Vec::new();
        if self.phase != Phase::Starting {
            return actions;
        }
        let mut i: usize = 0;
        while i < bootstrap_peers.len()
            invariant
                i <= bootstrap_peers@.len(),
                actions@.len() == i,
                forall|j: int|
                    0 <= j < i ==> (#[trigger] actions@[j] matches Action::Dial(address)
                        && address@ == bootstrap_peers@[j]@),
            decreases bootstrap_peers@.len() - i,
        {
            actions.push(Action::Dial(bootstrap_peers[i].clone()));
            i += 1;
        }
        if let Some(port) = listen_port {
            actions.push(Action::Listen { port, secure });
        }
        self.phase = Phase::Running;
        actions
    }

    /// Takes in the news that the loop has ended.
    pub fn stopped(&mut self)
        ensures
            final(self).runtime == old(self).runtime,
            final(self).chain_id == old(self).chain_id,
            final(self).bootstrapped == old(self).bootstrapped,
            final(self).consensus_rules == old(self).consensus_rules,
            final(self).phase == if old(self).phase == Phase::Terminating {
                Phase::Stopped
            } else {
                old(self).phase
            },
    {
        if self.phase == Phase::Terminating {
            self.phase = Phase::Stopped;
        }
    }

    /// Builds the message that `req` describes, with `new_captcha` as its
    /// challenge, and submits it.
    fn submit(&mut self, req: SubmitMsgReq, req_id: usize, new_captcha: Captcha) -> (actions: Vec<
        Action,
    >)
        ensures
            final(self).same_but_ledger(old(self)),
            submit_outcome(
                old(self).runtime@,
                req,
                new_captcha@,
                req_id,
                actions@,
                final(self).runtime@,
            ),
    {
        let SubmitMsgReq { data, prev, captcha_ans, captcha_src, height, timestamp, lookback } =
            req;
        let data = MessageData::new(
            data,
            prev,
            captcha_ans,
            captcha_src,
            height,
            timestamp,
            lookback,
            new_captcha,
        );
        let msg = match Message::try_from(data) {
            Ok(msg) => msg,
            Err(error) => {
                return vec![Action::Respond(CmdResp::Error { error, req_id })];
            },
        };
        let hash = *msg.hash();
        match self.msg_context.submit_message(&mut self.runtime, msg) {
            Ok(serialized) => vec![
                Action::Publish(serialized),
                Action::Respond(CmdResp::MsgSubmitted { hash, req_id }),
            ],
            Err(e) => vec![Action::Respond(CmdResp::Error { error: e.message(), req_id })],
        }
    }

    /// Looks for the message that `req` names.
    fn load(&self, req: LoadMsgReq, req_id: usize) -> (actions: Vec<Action>)
        ensures
            load_outcome(self.runtime@, req, req_id, actions@),
    {
        match self.runtime.get_message(&req.hash) {
            Some(msg) => vec![Action::Respond(CmdResp::MsgLoaded { msg: msg.clone(), req_id })],
            None => vec![Action::LoadMsg { hash: req.hash, req_id }],
        }
    }

    /// Reports the leaf of the longest chain.
    fn head(&self, req_id: usize) -> (actions: Vec<Action>)
        ensures
            head_outcome(self.runtime@, req_id, actions@),
    {
        match self.runtime.longest_chain() {
            Some(hash) => vec![Action::Respond(CmdResp::HeadLoaded { hash: *hash, req_id })],
            None => vec![
                Action::Respond(
                    CmdResp::Error { error: String::from_str("Missing chain HEAD."), req_id },
                ),
            ],
        }
    }

    /// Serves one command. `new_captcha` is a fresh challenge, used where
    /// the command submits a message.
    ///
    /// A running client does what `command_outcome` says, and `Terminate`
    /// makes it terminating. A request with an identifier is settled by
    /// exactly one action. A client that is not running does nothing.
    pub fn handle_command(&mut self, cmd: Cmd, new_captcha: Captcha) -> (actions: Vec<Action>)
        ensures
            final(self).chain_id == old(self).chain_id,
            final(self).bootstrapped == old(self).bootstrapped,
            final(self).consensus_rules == old(self).consensus_rules,
            old(self).phase == Phase::Running ==> {
                &&& command_outcome(
                    old(self).runtime@,
                    cmd,
                    new_captcha@,
                    actions@,
                    final(self).runtime@,
                )
                &&& final(self).phase == if cmd is Terminate {
                    Phase::Terminating
                } else {
                    Phase::Running
                }
                &&& cmd.spec_req_id() matches Some(req_id) ==> settled_once(actions@, req_id)
            },
            old(self).phase != Phase::Running ==> {
                &&& actions@.len() == 0
                &&& final(self).runtime@ == old(self).runtime@
                &&& final(self).phase == old(self).phase
            },
    {
        if self.phase != Phase::Running {
            return Vec::new();
        }
        let ghost before = self.runtime@;
        let ghost captcha = new_captcha@;
        let actions = match cmd {
            Cmd::Terminate => {
                self.phase = Phase::Terminating;
                vec![Action::Stop]
            },
            Cmd::SubmitMsg { req, req_id } => self.submit(req, req_id, new_captcha),
            Cmd::LoadMsg { req, req_id } => self.load(req, req_id),
            Cmd::GetHead { req_id } => self.head(req_id),
        };
        proof {
            match cmd.spec_req_id() {
                Some(req_id) => {
                    lemma_command_settled_once(
                        before,
                        cmd,
                        captcha,
                        actions@,
                        self.runtime@,
                        req_id,
                    );
                },
                None => {},
            }
        }
        actions
    }

    /// Acts on an event of the synchronization context. A new leaf of the
    /// longest chain, and the predecessor of a downloaded message, are
    /// downloaded unless the ledger holds them. The end of a load that a
    /// caller asked for is reported to that caller. A client that is not
    /// running does nothing.
    pub fn handle_sync_event(&self, event: SyncEvent) -> (actions: Vec<Action>)
        ensures
            self.phase == Phase::Running ==> sync_outcome(self.runtime@, event, actions@),
            self.phase != Phase::Running ==> actions@.len() == 0,
    {
        if self.phase != Phase::Running {
            return Vec::new();
        }
        match event {
            SyncEvent::MessageCommitted(_) => Vec::new(),
            SyncEvent::LongestChainUpdated { hash } => {
                if self.runtime.get_message(&hash).is_none() {
                    vec![Action::DownloadMsg(hash)]
                } else {
                    Vec::new()
                }
            },
            SyncEvent::MessageLoaded(msg) => {
                match msg.data().prev() {
                    Some(prev) => {
                        if self.runtime.get_message(prev).is_none() {
                            vec![Action::DownloadMsg(*prev)]
                        } else {
                            Vec::new()
                        }
                    },
                    None => Vec::new(),
                }
            },
            SyncEvent::MessageLoadCompleted { msg, req_id } => vec![
                Action::Respond(CmdResp::MsgLoaded { msg, req_id }),
            ],
            SyncEvent::MessageLoadFailed { req_id } => vec![
                Action::Respond(
                    CmdResp::Error {
                        error: String::from_str("Failed to load the message."),
                        req_id,
                    },
                ),
            ],
        }
    }

    /// Hands what the synchronization context left of a network event to
    /// the gossip context, at the time `now` in milliseconds since the
    /// epoch. A running client does what `Context::poll_at` does under the
    /// client's rules; any other hands the event back.
    pub fn handle_gossip_at(&mut self, in_event: Option<BehaviorEvent>, now: u64) -> (r: (
        Result<Option<MsgEvent>, MsgError>,
        Option<BehaviorEvent>,
    ))
        ensures
            final(self).same_but_ledger(old(self)),
            old(self).phase != Phase::Running ==> (r.0 matches Ok(None) && r.1 == in_event
                && final(self).runtime@ == old(self).runtime@),
            old(self).phase == Phase::Running ==> match gossip_text(in_event) {
                None => r.0 matches Ok(None) && r.1 == in_event && final(self).runtime@ == old(
                    self,
                ).runtime@,
                Some(text) => r.1 is None && match json_message(text) {
                    None => r.0 matches Ok(None) && final(self).runtime@ == old(self).runtime@,
                    Some(m) => {
                        &&& r.0 matches Ok(Some(MsgEvent::MessageReceived(h))) && h@ == m.hash
                        &&& final(self).runtime@ == ledger_after_receipt(
                            &old(self).consensus_rules,
                            old(self).runtime@,
                            m,
                            now,
                        )
                    },
                },
            },
    {
        if self.phase != Phase::Running {
            return (Ok(None), in_event);
        }
        self.msg_context.poll_at(&mut self.runtime, &self.consensus_rules, in_event, now)
    }

    /// Hands what the synchronization context left of a network event to
    /// the gossip context now, by the wall clock. Whatever the clock
    /// reads: a received message enters the ledger only if it meets all
    /// that does not depend on the time, and one with timestamp zero that
    /// meets all of that does enter.
    pub fn handle_gossip(&mut self, in_event: Option<BehaviorEvent>) -> (r: (
        Result<Option<MsgEvent>, MsgError>,
        Option<BehaviorEvent>,
    ))
        ensures
            final(self).same_but_ledger(old(self)),
            old(self).phase != Phase::Running ==> (r.0 matches Ok(None) && r.1 == in_event
                && final(self).runtime@ == old(self).runtime@),
            old(self).phase == Phase::Running ==> match gossip_text(in_event) {
                None => r.0 matches Ok(None) && r.1 == in_event && final(self).runtime@ == old(
                    self,
                ).runtime@,
                Some(text) => r.1 is None && match json_message(text) {
                    None => r.0 matches Ok(None) && final(self).runtime@ == old(self).runtime@,
                    Some(m) => {
                        let fit = admissible_in_time(
                            &old(self).consensus_rules,
                            old(self).runtime@,
                            m,
                        );
                        &&& r.0 matches Ok(Some(MsgEvent::MessageReceived(h))) && h@ == m.hash
                        &&& final(self).runtime@ == old(self).runtime@ || final(self).runtime@
                            == old(self).runtime@.insert(m)
                        &&& !fit ==> final(self).runtime@ == old(self).runtime@
                        &&& fit && m.data.timestamp == 0 ==> final(self).runtime@ == old(
                            self,
                        ).runtime@.insert(m)
                    },
                },
            },
    {
        if self.phase != Phase::Running {
            return (Ok(None), in_event);
        }
        self.msg_context.poll(&mut self.runtime, &self.consensus_rules, in_event)
    }

    /// Whether `address` is one of `bootstrap_peers`.
    fn is_bootstrap_peer(bootstrap_peers: &Vec<String>, address: &String) -> (found: bool)
        ensures
            found == is_bootstrap_address(bootstrap_peers@, address@),
    {
        let mut i: usize = 0;
        while i < bootstrap_peers.len()
            invariant
                i <= bootstrap_peers@.len(),
                forall|j: int| 0 <= j < i ==> (#[trigger] bootstrap_peers@[j])@ != address@,
            decreases bootstrap_peers@.len() - i,
        {
            if bootstrap_peers[i] == *address {
                return true;
            }
            i += 1;
        }
        false
    }

    /// Acts on a new connection to `peer`. A running client calls for what
    /// `connection_outcome` says; any other for nothing. No action
    /// concerns a request.
    pub fn handle_connection_established(
        &self,
        peer: PeerId,
        endpoint: ConnectedPoint,
        bootstrap_peers: &Vec<String>,
    ) -> (actions: Vec<Action>)
        ensures
            self.phase == Phase::Running ==> connection_outcome(
                self.bootstrapped,
                peer,
                endpoint,
                bootstrap_peers@,
                actions@,
            ),
            self.phase != Phase::Running ==> actions@.len() == 0,
            concerns_no_request(actions@),
    {
        let mut actions: Vec<Action> = Vec::new();
        if self.phase != Phase::Running {
            return actions;
        }
        if let ConnectedPoint::Dialer { address } = endpoint {
            let joins = !self.bootstrapped && Self::is_bootstrap_peer(bootstrap_peers, &address);
            actions.push(Action::AddAddress { peer: peer.clone(), address });
            if joins {
                actions.push(Action::Bootstrap);
            }
        }
        actions.push(Action::AddToPartialView(peer));
        actions
    }

    /// Takes in how joining the distributed hash table went. Where a
    /// running client joined for the first time, it is bootstrapped from
    /// now on, asks `connected_peers` for the leaf of the longest chain and
    /// announces its own chain. Otherwise nothing happens: the next
    /// connection to a bootstrap peer tries again.
    pub fn handle_bootstrap_result(&mut self, joined: bool, connected_peers: Vec<PeerId>) -> (actions:
        Vec<Action>)
        ensures
            final(self).runtime == old(self).runtime,
            final(self).chain_id == old(self).chain_id,
            final(self).phase == old(self).phase,
            final(self).consensus_rules == old(self).consensus_rules,
            concerns_no_request(actions@),
            if old(self).phase == Phase::Running && joined && !old(self).bootstrapped {
                &&& final(self).bootstrapped
                &&& actions@.len() == 2
                &&& actions@[0] matches Action::DownloadHead(pool) && pool == connected_peers
                &&& actions@[1] is UploadChain
            } else {
                &&& final(self).bootstrapped == old(self).bootstrapped
                &&& actions@.len() == 0
            },
    {
        if self.phase == Phase::Running && joined && !self.bootstrapped {
            self.bootstrapped = true;
            vec![Action::DownloadHead(connected_peers), Action::UploadChain]
        } else {
            Vec::new()
        }
    }

    /// Acts on the end of the connection to `peer`. A running client calls
    /// for what `disconnection_outcome` says; any other for nothing. No
    /// action concerns a request.
    pub fn handle_connection_closed(&self, peer: PeerId, endpoint: ConnectedPoint) -> (actions:
        Vec<Action>)
        ensures
            self.phase == Phase::Running ==> disconnection_outcome(peer, endpoint, actions@),
            self.phase != Phase::Running ==> actions@.len() == 0,
            concerns_no_request(actions@),
    {
        let mut actions: Vec<Action> = Vec::new();
        if self.phase != Phase::Running {
            return actions;
        }
        actions.push(Action::RemovePeer(peer.clone()));
        actions.push(Action::RemoveFromPartialView(peer.clone()));
        if let ConnectedPoint::Dialer { address } = endpoint {
            actions.push(Action::RemoveAddress { peer, address });
        }
        actions
    }

    /// Acts on a tick of the synchronization timer: a running client
    /// announces its chain. No action concerns a request.
    pub fn handle_tick(&self) -> (actions: Vec<Action>)
        ensures
            self.phase == Phase::Running ==> actions@.len() == 1 && actions@[0] is UploadChain,
            self.phase != Phase::Running ==> actions@.len() == 0,
            concerns_no_request(actions@),
    {
        if self.phase == Phase::Running {
            vec![Action::UploadChain]
        } else {
            Vec::new()
        }
    }
}

} // verus!
