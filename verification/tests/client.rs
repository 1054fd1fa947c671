use chud::crypto::hash;
use chud::net::behavior::{BehaviorEvent, ConnectedPoint, FloodsubEvent, FloodsubMessage, PeerId};
use chud::net::client::{Action, Client, Phase};
use chud::net::msg::{ConsensusRule, Event as MsgEvent};
use chud::net::sync::Event as SyncEvent;
use chud::net::FLOODSUB_MESSAGE_TOPIC;
use chud::rpc::cmd::{Cmd, CmdResp, LoadMsgReq, SubmitMsgReq};
use chud::sys::msg::{Captcha, Message, MessageData, MessageView};
use chud::sys::rt::{Rt, RtView};

fn captcha() -> Captcha {
    Captcha::new(vec![1, 2, 3], "tree")
}

fn genesis_req() -> SubmitMsgReq {
    SubmitMsgReq {
        data: Vec::new(),
        prev: None,
        captcha_ans: None,
        captcha_src: None,
        height: 0,
        timestamp: 0,
        lookback: None,
    }
}

fn running() -> Client {
    let mut client: Client = Client::new(0);
    let actions = client.start(&Vec::new(), Some(6224), false);
    assert_eq!(actions.len(), 1);
    client
}

fn gossip(msg: &Message) -> Option<BehaviorEvent> {
    Some(BehaviorEvent::Floodsub(FloodsubEvent::Message(FloodsubMessage {
        data: msg.to_json().unwrap(),
        topics: vec![String::from(FLOODSUB_MESSAGE_TOPIC)],
    })))
}

fn child_of(parent: &Message, answer: &str, timestamp: u64) -> Message {
    Message::try_from(MessageData::new(
        vec![7],
        Some(*parent.hash()),
        Some(String::from(answer)),
        Some(*parent.hash()),
        parent.data().height() + 1,
        timestamp,
        Some(0),
        Captcha::new(vec![4], "river"),
    ))
    .unwrap()
}

struct RejectAll;

impl ConsensusRule for RejectAll {
    fn admits(&self, _rt: RtView, _msg: MessageView) -> bool {
        false
    }

    fn check(&self, _rt: &Rt, _msg: &Message) -> bool {
        false
    }
}

#[test]
fn test_new() {
    let client: Client = Client::new(0);
    assert_eq!(client.chain_id, 0);
}

#[test]
fn new_client_is_empty_and_starting() {
    let client: Client = Client::new(7);
    assert_eq!(client.chain_id, 7);
    assert_eq!(client.phase, Phase::Starting);
    assert!(!client.bootstrapped);
    assert_eq!(client.runtime.len(), 0);
    assert!(client.runtime.longest_chain().is_none());
    assert_eq!(client.consensus_rules.rules.len(), 0);
}

#[test]
fn test_start() {
    let mut client: Client = Client::new(0);
    let actions = client.start(&Vec::new(), Some(6224), false);
    assert_eq!(actions.len(), 1);
    assert!(matches!(actions[0], Action::Listen { port: 6224, secure: false }));
    assert_eq!(client.phase, Phase::Running);
    let actions = client.handle_command(Cmd::Terminate, captcha());
    assert_eq!(actions.len(), 1);
    assert!(matches!(actions[0], Action::Stop));
    assert_eq!(client.phase, Phase::Terminating);
    client.stopped();
    assert_eq!(client.phase, Phase::Stopped);
}

#[test]
fn start_dials_every_bootstrap_peer_in_order() {
    let mut client: Client = Client::new(0);
    let peers = vec![String::from("/ip4/10.0.0.1/tcp/1/ws"), String::from("/ip4/10.0.0.2/tcp/2/ws")];
    let actions = client.start(&peers, Some(443), true);
    assert_eq!(actions.len(), 3);
    assert!(matches!(&actions[0], Action::Dial(a) if a == "/ip4/10.0.0.1/tcp/1/ws"));
    assert!(matches!(&actions[1], Action::Dial(a) if a == "/ip4/10.0.0.2/tcp/2/ws"));
    assert!(matches!(actions[2], Action::Listen { port: 443, secure: true }));
    let again = client.start(&peers, Some(443), true);
    assert!(again.is_empty());
    assert_eq!(client.phase, Phase::Running);
}

#[test]
fn start_without_port_does_not_listen() {
    let mut client: Client = Client::new(0);
    let actions = client.start(&vec![String::from("/dns4/seed/tcp/1/ws")], None, false);
    assert_eq!(actions.len(), 1);
    assert!(matches!(&actions[0], Action::Dial(a) if a == "/dns4/seed/tcp/1/ws"));
}

#[test]
fn test_submit_message() {
    let mut client = running();
    let actions = client.handle_command(Cmd::SubmitMsg { req: genesis_req(), req_id: 0 }, captcha());
    assert_eq!(actions.len(), 2);
    assert!(matches!(actions[0], Action::Publish(_)));
    assert!(matches!(actions[1], Action::Respond(CmdResp::MsgSubmitted { .. })));
}

#[test]
fn test_load_message() {
    let mut client = running();
    let mut actions =
        client.handle_command(Cmd::SubmitMsg { req: genesis_req(), req_id: 0 }, captcha());
    let resp = match actions.pop().unwrap() {
        Action::Respond(resp) => resp,
        _ => panic!("Invalid action. Expected response."),
    };
    assert!(matches!(resp, CmdResp::MsgSubmitted { .. }));
    let hash = match resp {
        CmdResp::MsgSubmitted { hash, req_id } => {
            assert_eq!(req_id, 0);
            hash
        }
        _ => panic!("Invalid response. Expected hash."),
    };
    let mut actions =
        client.handle_command(Cmd::LoadMsg { req: LoadMsgReq { hash }, req_id: 1 }, captcha());
    assert_eq!(actions.len(), 1);
    let resp = match actions.pop().unwrap() {
        Action::Respond(resp) => resp,
        _ => panic!("Invalid action. Expected response."),
    };
    assert!(matches!(resp, CmdResp::MsgLoaded { .. }));
    match resp {
        CmdResp::MsgLoaded { msg, req_id } => {
            assert_eq!(msg.hash(), &hash);
            assert_eq!(req_id, 1);
        }
        _ => panic!("Invalid response. Expected message."),
    }
}

#[test]
fn submitted_message_is_published_as_its_json_and_stored() {
    let mut client = running();
    let actions = client.handle_command(Cmd::SubmitMsg { req: genesis_req(), req_id: 0 }, captcha());
    let published = match &actions[0] {
        Action::Publish(bytes) => bytes.clone(),
        _ => panic!("expected a broadcast"),
    };
    let hash = match &actions[1] {
        Action::Respond(CmdResp::MsgSubmitted { hash, .. }) => *hash,
        _ => panic!("expected a response"),
    };
    let stored = client.runtime.get_message(&hash).unwrap();
    assert_eq!(stored.to_json().unwrap(), published);
    assert!(stored.is_intact());
    assert_eq!(client.runtime.longest_chain(), Some(&hash));
    assert_eq!(client.runtime.len(), 1);
}

#[test]
fn get_head_before_any_submission_is_an_error() {
    let mut client = running();
    let actions = client.handle_command(Cmd::GetHead { req_id: 2 }, captcha());
    assert_eq!(actions.len(), 1);
    match &actions[0] {
        Action::Respond(CmdResp::Error { error, req_id }) => {
            assert_eq!(*req_id, 2);
            assert_eq!(error, "Missing chain HEAD.");
        }
        _ => panic!("expected an error response"),
    }
}

#[test]
fn get_head_after_submission_names_the_message() {
    let mut client = running();
    let first = client.handle_command(Cmd::SubmitMsg { req: genesis_req(), req_id: 0 }, captcha());
    let hash = match &first[1] {
        Action::Respond(CmdResp::MsgSubmitted { hash, .. }) => *hash,
        _ => panic!("expected a response"),
    };
    let actions = client.handle_command(Cmd::GetHead { req_id: 9 }, captcha());
    assert_eq!(actions.len(), 1);
    match &actions[0] {
        Action::Respond(CmdResp::HeadLoaded { hash: head, req_id }) => {
            assert_eq!(*req_id, 9);
            assert_eq!(*head, hash);
        }
        _ => panic!("expected the head"),
    }
}

#[test]
fn load_of_unknown_message_is_handed_to_synchronization() {
    let mut client = running();
    let wanted = hash::Hash::new([9; 32]);
    let actions =
        client.handle_command(Cmd::LoadMsg { req: LoadMsgReq { hash: wanted }, req_id: 5 }, captcha());
    assert_eq!(actions.len(), 1);
    match &actions[0] {
        Action::LoadMsg { hash, req_id } => {
            assert_eq!(*hash, wanted);
            assert_eq!(*req_id, 5);
        }
        _ => panic!("expected a load"),
    }
}

#[test]
fn every_response_carries_the_id_of_its_request() {
    let mut client = running();
    let cmds: Vec<(Cmd, usize)> = vec![
        (Cmd::GetHead { req_id: 11 }, 11),
        (Cmd::SubmitMsg { req: genesis_req(), req_id: 12 }, 12),
        (Cmd::LoadMsg { req: LoadMsgReq { hash: hash::Hash::new([0; 32]) }, req_id: 13 }, 13),
        (Cmd::GetHead { req_id: 14 }, 14),
    ];
    for (cmd, id) in cmds {
        assert_eq!(cmd.req_id(), Some(id));
        let actions = client.handle_command(cmd, captcha());
        let mut settled: usize = 0;
        for action in &actions {
            match action {
                Action::Respond(resp) => {
                    assert_eq!(resp.req_id(), id);
                    settled += 1;
                }
                Action::LoadMsg { req_id, .. } => {
                    assert_eq!(*req_id, id);
                    settled += 1;
                }
                _ => {}
            }
        }
        assert_eq!(settled, 1);
    }
}

#[test]
fn terminate_ends_service_for_what_comes_after() {
    let mut client = running();
    let before = client.handle_command(Cmd::GetHead { req_id: 1 }, captcha());
    assert_eq!(before.len(), 1);
    assert_eq!(Cmd::Terminate.req_id(), None);
    let stop = client.handle_command(Cmd::Terminate, captcha());
    assert!(matches!(stop[0], Action::Stop));
    let after = client.handle_command(Cmd::SubmitMsg { req: genesis_req(), req_id: 2 }, captcha());
    assert!(after.is_empty());
    assert_eq!(client.runtime.len(), 0);
    assert!(client.handle_tick().is_empty());
    assert_eq!(client.phase, Phase::Terminating);
}

#[test]
fn commands_before_start_are_not_served() {
    let mut client: Client = Client::new(0);
    let actions = client.handle_command(Cmd::GetHead { req_id: 1 }, captcha());
    assert!(actions.is_empty());
    client.stopped();
    assert_eq!(client.phase, Phase::Starting);
}

#[test]
fn tick_announces_the_chain() {
    let client = running();
    let actions = client.handle_tick();
    assert_eq!(actions.len(), 1);
    assert!(matches!(actions[0], Action::UploadChain));
}

#[test]
fn sync_events_lead_to_downloads_and_responses() {
    let mut client = running();
    let genesis = Message::try_from(MessageData::new(
        Vec::new(), None, None, None, 0, 0, None, captcha(),
    ))
    .unwrap();
    let child = child_of(&genesis, "tree", 5);

    let committed = client.handle_sync_event(SyncEvent::MessageCommitted(*genesis.hash()));
    assert!(committed.is_empty());

    let updated = client.handle_sync_event(SyncEvent::LongestChainUpdated { hash: *child.hash() });
    assert_eq!(updated.len(), 1);
    assert!(matches!(&updated[0], Action::DownloadMsg(h) if h == child.hash()));

    let loaded = client.handle_sync_event(SyncEvent::MessageLoaded(child.clone()));
    assert_eq!(loaded.len(), 1);
    assert!(matches!(&loaded[0], Action::DownloadMsg(h) if h == genesis.hash()));

    let loaded_genesis = client.handle_sync_event(SyncEvent::MessageLoaded(genesis.clone()));
    assert!(loaded_genesis.is_empty());

    client.runtime.insert_message(genesis.clone());
    let known = client.handle_sync_event(SyncEvent::LongestChainUpdated { hash: *genesis.hash() });
    assert!(known.is_empty());
    let loaded = client.handle_sync_event(SyncEvent::MessageLoaded(child.clone()));
    assert!(loaded.is_empty());

    let done = client
        .handle_sync_event(SyncEvent::MessageLoadCompleted { msg: child.clone(), req_id: 4 });
    assert_eq!(done.len(), 1);
    match &done[0] {
        Action::Respond(CmdResp::MsgLoaded { msg, req_id }) => {
            assert_eq!(msg.hash(), child.hash());
            assert_eq!(*req_id, 4);
        }
        _ => panic!("expected the message"),
    }

    let failed = client.handle_sync_event(SyncEvent::MessageLoadFailed { req_id: 6 });
    assert_eq!(failed.len(), 1);
    match &failed[0] {
        Action::Respond(CmdResp::Error { error, req_id }) => {
            assert_eq!(error, "Failed to load the message.");
            assert_eq!(*req_id, 6);
        }
        _ => panic!("expected an error"),
    }
}

#[test]
fn first_bootstrap_connection_joins_the_table() {
    let mut client = running();
    let peers = vec![String::from("/ip4/10.0.0.1/tcp/1/ws")];
    let peer = PeerId { bytes: vec![1, 2] };
    let actions = client.handle_connection_established(
        peer.clone(),
        ConnectedPoint::Dialer { address: String::from("/ip4/10.0.0.1/tcp/1/ws") },
        &peers,
    );
    assert_eq!(actions.len(), 3);
    assert!(matches!(&actions[0], Action::AddAddress { peer: p, address }
        if p.bytes == vec![1, 2] && address == "/ip4/10.0.0.1/tcp/1/ws"));
    assert!(matches!(actions[1], Action::Bootstrap));
    assert!(matches!(&actions[2], Action::AddToPartialView(p) if p.bytes == vec![1, 2]));
    assert!(!client.bootstrapped);

    let failed = client.handle_bootstrap_result(false, vec![peer.clone()]);
    assert!(failed.is_empty());
    assert!(!client.bootstrapped);

    let joined = client.handle_bootstrap_result(true, vec![peer.clone()]);
    assert_eq!(joined.len(), 2);
    assert!(matches!(&joined[0], Action::DownloadHead(pool) if pool.len() == 1 && pool[0].bytes == vec![1, 2]));
    assert!(matches!(joined[1], Action::UploadChain));
    assert!(client.bootstrapped);

    let again = client.handle_connection_established(
        peer.clone(),
        ConnectedPoint::Dialer { address: String::from("/ip4/10.0.0.1/tcp/1/ws") },
        &peers,
    );
    assert_eq!(again.len(), 2);
    assert!(matches!(again[0], Action::AddAddress { .. }));
    assert!(matches!(again[1], Action::AddToPartialView(_)));
    assert!(client.handle_bootstrap_result(true, Vec::new()).is_empty());
}

#[test]
fn other_connections_only_register_the_peer() {
    let client = running();
    let peers = vec![String::from("/ip4/10.0.0.1/tcp/1/ws")];
    let dialed = client.handle_connection_established(
        PeerId { bytes: vec![3] },
        ConnectedPoint::Dialer { address: String::from("/ip4/10.0.0.9/tcp/1/ws") },
        &peers,
    );
    assert_eq!(dialed.len(), 2);
    assert!(matches!(dialed[0], Action::AddAddress { .. }));
    assert!(matches!(dialed[1], Action::AddToPartialView(_)));
    let listened =
        client.handle_connection_established(PeerId { bytes: vec![4] }, ConnectedPoint::Listener, &peers);
    assert_eq!(listened.len(), 1);
    assert!(matches!(&listened[0], Action::AddToPartialView(p) if p.bytes == vec![4]));
}

#[test]
fn closed_connections_deregister_the_peer() {
    let client = running();
    let dialed = client.handle_connection_closed(
        PeerId { bytes: vec![3] },
        ConnectedPoint::Dialer { address: String::from("/ip4/10.0.0.9/tcp/1/ws") },
    );
    assert_eq!(dialed.len(), 3);
    assert!(matches!(&dialed[0], Action::RemovePeer(p) if p.bytes == vec![3]));
    assert!(matches!(&dialed[1], Action::RemoveFromPartialView(p) if p.bytes == vec![3]));
    assert!(matches!(&dialed[2], Action::RemoveAddress { peer: p, address }
        if p.bytes == vec![3] && address == "/ip4/10.0.0.9/tcp/1/ws"));
    let listened = client.handle_connection_closed(PeerId { bytes: vec![4] }, ConnectedPoint::Listener);
    assert_eq!(listened.len(), 2);
}

#[test]
fn gossip_with_wrong_captcha_answer_is_dropped_silently() {
    let mut client = running();
    let genesis = Message::try_from(MessageData::new(
        Vec::new(), None, None, None, 0, 0, None, captcha(),
    ))
    .unwrap();
    client.runtime.insert_message(genesis.clone());
    let wrong = child_of(&genesis, "bush", 5);
    let (out, residual) = client.handle_gossip_at(gossip(&wrong), 10);
    assert!(residual.is_none());
    match out {
        Ok(Some(MsgEvent::MessageReceived(h))) => assert_eq!(&h, wrong.hash()),
        _ => panic!("expected a receipt"),
    }
    assert!(client.runtime.get_message(wrong.hash()).is_none());
    assert_eq!(client.runtime.len(), 1);
    assert_eq!(client.runtime.longest_chain(), Some(genesis.hash()));
}

#[test]
fn gossip_child_before_parent_then_again_after_parent() {
    let mut client = running();
    let parent = Message::try_from(MessageData::new(
        Vec::new(), None, None, None, 0, 0, None, captcha(),
    ))
    .unwrap();
    let child = child_of(&parent, "tree", 5);

    let (out, _) = client.handle_gossip_at(gossip(&child), 10);
    assert!(matches!(out, Ok(Some(MsgEvent::MessageReceived(_)))));
    assert_eq!(client.runtime.len(), 0);

    client.runtime.insert_message(parent.clone());
    let (out, _) = client.handle_gossip_at(gossip(&child), 10);
    assert!(matches!(out, Ok(Some(MsgEvent::MessageReceived(_)))));
    assert_eq!(client.runtime.len(), 2);
    assert_eq!(client.runtime.get_message(child.hash()).unwrap().hash(), child.hash());
    assert_eq!(client.runtime.longest_chain(), Some(child.hash()));
}

#[test]
fn client_rules_are_applied_to_gossip() {
    let mut client: Client<RejectAll> = Client::new(0);
    client.start(&Vec::new(), None, false);
    let genesis = Message::try_from(MessageData::new(
        Vec::new(), None, None, None, 0, 0, None, captcha(),
    ))
    .unwrap();
    let (_, _) = client.handle_gossip_at(gossip(&genesis), 10);
    assert_eq!(client.runtime.len(), 1);
    client.with_consensus_rule(RejectAll);
    assert_eq!(client.consensus_rules.rules.len(), 1);
    let other = Message::try_from(MessageData::new(
        vec![1], None, None, None, 0, 0, None, captcha(),
    ))
    .unwrap();
    let (out, _) = client.handle_gossip_at(gossip(&other), 10);
    assert!(matches!(out, Ok(Some(MsgEvent::MessageReceived(_)))));
    assert_eq!(client.runtime.len(), 1);
}

#[test]
fn gossip_is_not_served_before_start() {
    let mut client: Client = Client::new(0);
    let genesis = Message::try_from(MessageData::new(
        Vec::new(), None, None, None, 0, 0, None, captcha(),
    ))
    .unwrap();
    let (out, residual) = client.handle_gossip_at(gossip(&genesis), 10);
    assert!(matches!(out, Ok(None)));
    assert!(residual.is_some());
    assert_eq!(client.runtime.len(), 0);
}

#[test]
fn gossip_by_the_clock_admits_a_genesis_of_time_zero() {
    let mut client = running();
    let genesis = Message::try_from(MessageData::new(
        Vec::new(), None, None, None, 0, 0, None, captcha(),
    ))
    .unwrap();
    let (out, residual) = client.handle_gossip(gossip(&genesis));
    assert!(matches!(out, Ok(Some(MsgEvent::MessageReceived(_)))));
    assert!(residual.is_none());
    assert_eq!(client.runtime.len(), 1);
}

#[test]
fn resubmission_changes_nothing() {
    let mut client = running();
    let first = client.handle_command(Cmd::SubmitMsg { req: genesis_req(), req_id: 0 }, captcha());
    let head = client.runtime.longest_chain().copied();
    assert_eq!(client.runtime.len(), 1);
    let second = client.handle_command(Cmd::SubmitMsg { req: genesis_req(), req_id: 1 }, captcha());
    assert_eq!(client.runtime.len(), 1);
    assert_eq!(client.runtime.longest_chain().copied(), head);
    let hash_of = |actions: &Vec<Action>| match &actions[1] {
        Action::Respond(CmdResp::MsgSubmitted { hash, .. }) => *hash,
        _ => panic!("expected a response"),
    };
    assert_eq!(hash_of(&first), hash_of(&second));
    assert_eq!(Some(hash_of(&first)), head);
}
