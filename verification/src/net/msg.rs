//! The gossip context: which messages may extend the chain, and what
//! becomes of a message that is submitted or received.

use crate::crypto::hash;
use crate::net::behavior::{BehaviorEvent, FloodsubEvent};
use crate::net::FLOODSUB_MESSAGE_TOPIC;
use crate::sys::msg::{
    answer_digest, hash_intact, json_message, message_json, Message, MessageView,
};
use crate::sys::rt::{Rt, RtView};
use vstd::prelude::*;
use vstd::string::StringExecFns;

verus! {

/// A chain-specific admission rule, applied after the built-in checks have
/// passed. A rule decides by the ledger and the candidate alone, and
/// changes neither.
///
/// Every contract that speaks of a rule rests on `check` deciding as
/// `admits` says. For the rules of this crate that is proved; whoever
/// writes another rule outside verified code answers for it.
pub trait ConsensusRule: Send {
    /// What the rule decides.
    spec fn admits(&self, rt: RtView, msg: MessageView) -> bool;

    /// Applies the rule.
    fn check(&self, rt: &Rt, msg: &Message) -> (ok: bool)
        ensures
            ok == self.admits(rt@, msg@),
    ;
}

/// The rule that admits every message.
#[derive(Clone, Copy, Debug, Default)]
pub struct Unrestricted;

impl ConsensusRule for Unrestricted {
    open spec fn admits(&self, rt: RtView, msg: MessageView) -> bool {
        true
    }

    fn check(&self, rt: &Rt, msg: &Message) -> (ok: bool) {
        true
    }
}

/// A list of rules that all have to admit a message. The empty list
/// admits every message.
#[derive(Debug)]
pub struct ConsensusRules<R: ConsensusRule> {
    /// The rules, in the order in which they are asked.
    pub rules: Vec<R>,
}

impl<R: ConsensusRule> ConsensusRules<R> {
    /// The empty list.
    pub fn new() -> (list: ConsensusRules<R>)
        ensures
            list.rules@.len() == 0,
    {
        ConsensusRules { rules: Vec::new() }
    }

    /// Adds `rule` at the end.
    pub fn push(&mut self, rule: R)
        ensures
            final(self).rules@ == old(self).rules@.push(rule),
    {
        self.rules.push(rule);
    }
}

impl<R: ConsensusRule> ConsensusRule for ConsensusRules<R> {
    open spec fn admits(&self, rt: RtView, msg: MessageView) -> bool {
        forall|i: int| 0 <= i < self.rules@.len() ==> (#[trigger] self.rules@[i]).admits(rt, msg)
    }

    fn check(&self, rt: &Rt, msg: &Message) -> (ok: bool) {
        let mut i: usize = 0;
        while i < self.rules.len()
            invariant
                i <= self.rules@.len(),
                forall|j: int| 0 <= j < i ==> (#[trigger] self.rules@[j]).admits(rt@, msg@),
            decreases self.rules@.len() - i,
        {
            if !self.rules[i].check(rt, msg) {
                return false;
            }
            i += 1;
        }
        true
    }
}

/// One step back from `m`: to its predecessor, or, where `m` names none,
/// to the leaf of the longest chain. `None` where that message is not in
/// the ledger.
pub open spec fn step_back(l: RtView, m: MessageView) -> Option<MessageView> {
    match m.data.prev {
        Some(p) => l.get(p),
        None => l.head(),
    }
}

/// The message reached from `m` after `hops` steps back.
pub open spec fn walk_back(l: RtView, m: MessageView, hops: nat) -> Option<MessageView>
    decreases hops,
{
    if hops == 0 {
        Some(m)
    } else {
        match step_back(l, m) {
            Some(earlier) => walk_back(l, earlier, (hops - 1) as nat),
            None => None,
        }
    }
}

/// The message whose captcha `m` has to answer: the one reached from `m`
/// after `lookback` steps back. A lookback of zero designates the
/// immediate predecessor, as a lookback of one does. `None` where `m`
/// states no lookback or the walk leaves the ledger.
pub open spec fn designated_source(l: RtView, m: MessageView) -> Option<MessageView> {
    match m.data.lookback {
        Some(lookback) => walk_back(
            l,
            m,
            if lookback == 0 {
                1nat
            } else {
                lookback as nat
            },
        ),
        None => None,
    }
}

/// The timestamp is not in the future.
pub open spec fn timely(m: MessageView, now: u64) -> bool {
    m.data.timestamp <= now
}

/// The predecessor that `p` names is in the ledger and is strictly older
/// than `m`.
pub open spec fn follows_predecessor(l: RtView, m: MessageView, p: Seq<u8>) -> bool {
    l.get(p) matches Some(parent) && parent.data.timestamp < m.data.timestamp
}

/// The captcha source that `m` names is the designated one.
pub open spec fn names_designated_source(l: RtView, m: MessageView) -> bool {
    designated_source(l, m) matches Some(source) && m.data.captcha_src == Some(source.hash)
}

/// The captcha source that `m` names is in the ledger, and the answer that
/// `m` gives hashes to the digest kept with that message's captcha.
pub open spec fn answers_captcha(l: RtView, m: MessageView) -> bool {
    &&& m.data.captcha_src matches Some(s) && l.get(s) matches Some(source)
        && m.data.captcha_ans matches Some(answer) && answer_digest(answer)
        == source.data.new_captcha.answer
}

/// What is asked of a message that names a predecessor. A genesis message
/// is asked nothing here.
pub open spec fn descends(l: RtView, m: MessageView) -> bool {
    m.data.prev matches Some(p) ==> {
        &&& follows_predecessor(l, m, p)
        &&& names_designated_source(l, m)
        &&& answers_captcha(l, m)
    }
}

/// The built-in checks, at the time `now` in milliseconds since the epoch.
pub open spec fn builtin_admissible(l: RtView, m: MessageView, now: u64) -> bool {
    &&& timely(m, now)
    &&& descends(l, m)
    &&& hash_intact(m)
}

/// Whether `m` may enter the ledger `l` at the time `now`: the built-in
/// checks pass and the extra rule admits it.
pub open spec fn admissible<R: ConsensusRule + ?Sized>(
    rule: &R,
    l: RtView,
    m: MessageView,
    now: u64,
) -> bool {
    builtin_admissible(l, m, now) && rule.admits(l, m)
}

/// Whether `m` may enter the ledger `l` at some time: all that is asked of
/// it but that its timestamp is not in the future.
pub open spec fn admissible_in_time<R: ConsensusRule + ?Sized>(
    rule: &R,
    l: RtView,
    m: MessageView,
) -> bool {
    descends(l, m) && hash_intact(m) && rule.admits(l, m)
}

/// A genesis message whose timestamp is not in the future is admissible
/// exactly when its identifier is intact and the extra rule admits it: the
/// ledger has no say beyond what the rule reads in it.
pub proof fn lemma_genesis_admission<R: ConsensusRule + ?Sized>(
    rule: &R,
    l: RtView,
    m: MessageView,
    now: u64,
)
    requires
        m.data.prev is None,
        m.data.timestamp <= now,
    ensures
        admissible(rule, l, m, now) == (hash_intact(m) && rule.admits(l, m)),
{
}

/// A lookback of zero designates the immediate predecessor.
pub proof fn lemma_zero_lookback(l: RtView, m: MessageView, p: Seq<u8>)
    requires
        m.data.prev == Some(p),
        m.data.lookback == Some(0u64),
    ensures
        designated_source(l, m) == l.get(p),
{
    reveal_with_fuel(walk_back, 2);
}

/// A message whose predecessor is not in the ledger is not admissible.
pub proof fn lemma_unknown_predecessor<R: ConsensusRule + ?Sized>(
    rule: &R,
    l: RtView,
    m: MessageView,
    now: u64,
    p: Seq<u8>,
)
    requires
        m.data.prev == Some(p),
        !l.contains(p),
    ensures
        !admissible(rule, l, m, now),
{
}

/// A message whose timestamp lies after `now` is not admissible at `now`.
pub proof fn lemma_future_timestamp<R: ConsensusRule + ?Sized>(
    rule: &R,
    l: RtView,
    m: MessageView,
    now: u64,
)
    requires
        m.data.timestamp > now,
    ensures
        !admissible(rule, l, m, now),
{
}

/// Whether one of `topics` is the message topic.
pub open spec fn on_message_topic(topics: Seq<String>) -> bool {
    exists|i: int| 0 <= i < topics.len() && (#[trigger] topics[i])@ == FLOODSUB_MESSAGE_TOPIC@
}

/// The bytes that an event brings on the message topic; `None` for any
/// other event.
pub open spec fn gossip_text(event: Option<BehaviorEvent>) -> Option<Seq<u8>> {
    match event {
        Some(BehaviorEvent::Floodsub(FloodsubEvent::Message(m))) => if on_message_topic(
            m.topics@,
        ) {
            Some(m.data@)
        } else {
            None
        },
        _ => None,
    }
}

/// The ledger after the message `m` was received at the time `now`: with
/// `m` where it is admissible, unchanged where it is not.
pub open spec fn ledger_after_receipt<R: ConsensusRule + ?Sized>(
    rule: &R,
    l: RtView,
    m: MessageView,
    now: u64,
) -> RtView {
    if admissible(rule, l, m, now) {
        l.insert(m)
    } else {
        l
    }
}

/// What an optional reference to a message holds.
pub open spec fn message_ref_view(m: Option<&Message>) -> Option<MessageView> {
    match m {
        Some(message) => Some(message@),
        None => None,
    }
}

/// Events emitted by the gossip context.
#[derive(Debug)]
pub enum Event {
    /// A message arrived on the message topic. It carries the message's
    /// identifier, whether or not the message was admitted.
    MessageReceived(hash::Hash),
}

/// Errors of the gossip context.
#[derive(Debug)]
pub enum Error {
    /// A message could not be written as JSON.
    SerializationError(String),
}

impl Error {
    /// The error in words.
    pub fn message(&self) -> (text: String)
        ensures
            self matches Error::SerializationError(e) ==> text@
                == "encountered an error in serialization: "@ + e@,
    {
        match self {
            Error::SerializationError(e) => String::from_str(
                "encountered an error in serialization: ",
            ).concat(e.as_str()),
        }
    }
}

/// Reads the wall clock through `instant::now` and hands back whole
/// milliseconds since the epoch. Nothing is promised of the value.
/// `instant::now` gives up where the system clock stands before 1970.
#[verifier::external_body]
fn now_millis() -> u64 {
    instant::now() as u64
}

/// The gossip context: it admits received messages and prepares submitted
/// ones for broadcast.
#[derive(Debug, Default)]
pub struct Context;

/// One step back from `m` in the ledger.
fn step_back_from<'a>(rt: &'a Rt, m: &'a Message) -> (r: Option<&'a Message>)
    ensures
        message_ref_view(r) == step_back(rt@, m@),
{
    match m.data().prev() {
        Some(p) => rt.get_message(p),
        None => match rt.longest_chain() {
            Some(h) => rt.get_message(h),
            None => None,
        },
    }
}

/// The message whose captcha `msg` has to answer.
fn find_designated_source<'a>(rt: &'a Rt, msg: &'a Message) -> (r: Option<&'a Message>)
    ensures
        message_ref_view(r) == designated_source(rt@, msg@),
{
    let lookback = match msg.data().lookback() {
        Some(k) => k,
        None => {
            return None;
        },
    };
    let hops: u64 = if lookback == 0 {
        1
    } else {
        lookback
    };
    let mut cur: &Message = msg;
    let mut left: u64 = hops;
    while left > 0
        invariant
            designated_source(rt@, msg@) == walk_back(rt@, cur@, left as nat),
        decreases left,
    {
        match step_back_from(rt, cur) {
            Some(earlier) => {
                cur = earlier;
            },
            None => {
                return None;
            },
        }
        left -= 1;
    }
    Some(cur)
}

impl Context {
    /// An empty context.
    pub fn new() -> Context {
        Context
    }

    /// Whether `msg`, which names the predecessor `p`, is strictly younger
    /// than that predecessor in the ledger.
    fn check_predecessor(rt: &Rt, msg: &Message, p: &hash::Hash) -> (ok: bool)
        ensures
            ok == follows_predecessor(rt@, msg@, p@),
    {
        match rt.get_message(p) {
            Some(parent) => parent.data().timestamp() < msg.data().timestamp(),
            None => false,
        }
    }

    /// Whether `msg` names the designated captcha source.
    fn check_captcha_source(rt: &Rt, msg: &Message) -> (ok: bool)
        ensures
            ok == names_designated_source(rt@, msg@),
    {
        match find_designated_source(rt, msg) {
            Some(source) => match msg.data().captcha_src() {
                Some(named) => *named == *source.hash(),
                None => false,
            },
            None => false,
        }
    }

    /// Whether `msg` answers the captcha of the source that it names.
    fn check_captcha_answer(rt: &Rt, msg: &Message) -> (ok: bool)
        ensures
            ok == answers_captcha(rt@, msg@),
    {
        let named = match msg.data().captcha_src() {
            Some(named) => named,
            None => {
                return false;
            },
        };
        let source = match rt.get_message(named) {
            Some(source) => source,
            None => {
                return false;
            },
        };
        match msg.data().captcha_ans() {
            Some(answer) => source.data().new_captcha().is_answered_by(answer.as_str()),
            None => false,
        }
    }

    /// Runs the built-in checks on `msg` against the ledger, at the time
    /// `now` in milliseconds since the epoch.
    pub fn passes_builtin_checks(&self, rt: &Rt, msg: &Message, now: u64) -> (ok: bool)
        ensures
            ok == builtin_admissible(rt@, msg@, now),
    {
        if now < msg.data().timestamp() {
            return false;
        }
        if let Some(p) = msg.data().prev() {
            if !(Self::check_predecessor(rt, msg, p) && Self::check_captcha_source(rt, msg)
                && Self::check_captcha_answer(rt, msg)) {
                return false;
            }
        }
        msg.is_intact()
    }

    /// Decides whether `msg` may enter the ledger at the time `now`: the
    /// built-in checks first, then `consensus_rule`, which is asked only
    /// where they pass.
    pub fn follows_consensus_rules_at<R: ConsensusRule + ?Sized>(
        &self,
        rt: &Rt,
        msg: &Message,
        consensus_rule: &R,
        now: u64,
    ) -> (ok: bool)
        ensures
            ok == admissible(consensus_rule, rt@, msg@, now),
    {
        self.passes_builtin_checks(rt, msg, now) && consensus_rule.check(rt, msg)
    }

    /// Decides whether `msg` may enter the ledger now, by the wall clock.
    /// Whatever the clock reads, a message is admitted only if it meets
    /// all that does not depend on the time, and a message with timestamp
    /// zero that meets all of that is admitted.
    pub fn follows_consensus_rules<R: ConsensusRule + ?Sized>(
        &self,
        rt: &Rt,
        msg: &Message,
        consensus_rule: &R,
    ) -> (ok: bool)
        ensures
            ok ==> admissible_in_time(consensus_rule, rt@, msg@),
            admissible_in_time(consensus_rule, rt@, msg@) && msg@.data.timestamp == 0 ==> ok,
    {
        let now = now_millis();
        self.follows_consensus_rules_at(rt, msg, consensus_rule, now)
    }

    /// Whether one of `topics` is the message topic.
    fn has_message_topic(topics: &Vec<String>) -> (found: bool)
        ensures
            found == on_message_topic(topics@),
    {
        let topic = FLOODSUB_MESSAGE_TOPIC.to_owned();
        let mut i: usize = 0;
        while i < topics.len()
            invariant
                i <= topics.len(),
                topic@ == FLOODSUB_MESSAGE_TOPIC@,
                forall|j: int| 0 <= j < i ==> (#[trigger] topics@[j])@ != FLOODSUB_MESSAGE_TOPIC@,
            decreases topics.len() - i,
        {
            if topics[i] == topic {
                return true;
            }
            i += 1;
        }
        false
    }

    /// Handles one network event at the time `now`, in milliseconds since
    /// the epoch.
    ///
    /// An event that is no message on the message topic is handed back
    /// untouched. A message on that topic is consumed: where its bytes are
    /// no JSON message it is dropped without a trace; otherwise it enters
    /// the ledger if it is admissible, and its identifier is reported
    /// either way.
    pub fn poll_at<R: ConsensusRule + ?Sized>(
        &mut self,
        rt: &mut Rt,
        consensus_rule: &R,
        in_event: Option<BehaviorEvent>,
        now: u64,
    ) -> (r: (Result<Option<Event>, Error>, Option<BehaviorEvent>))
        ensures
            match gossip_text(in_event) {
                None => r.0 matches Ok(None) && r.1 == in_event && final(rt)@ == old(rt)@,
                Some(text) => r.1 is None && match json_message(text) {
                    None => r.0 matches Ok(None) && final(rt)@ == old(rt)@,
                    Some(m) => {
                        &&& r.0 matches Ok(Some(Event::MessageReceived(h))) && h@ == m.hash
                        &&& final(rt)@ == ledger_after_receipt(consensus_rule, old(rt)@, m, now)
                    },
                },
            },
    {
        let decoded = match &in_event {
            Some(BehaviorEvent::Floodsub(FloodsubEvent::Message(fs_msg))) => {
                if Self::has_message_topic(&fs_msg.topics) {
                    Some(Message::from_json(fs_msg.data.as_slice()))
                } else {
                    None
                }
            },
            _ => None,
        };
        match decoded {
            None => (Ok(None), in_event),
            Some(None) => (Ok(None), None),
            Some(Some(msg)) => {
                let hash = *msg.hash();
                if self.follows_consensus_rules_at(rt, &msg, consensus_rule, now) {
                    rt.insert_message(msg);
                }
                (Ok(Some(Event::MessageReceived(hash))), None)
            },
        }
    }

    /// Handles one network event now, by the wall clock. It does what
    /// `poll_at` does at the time that the clock reads. Whatever that is:
    /// a received message enters the ledger only if it meets all that does
    /// not depend on the time, and a message with timestamp zero that
    /// meets all of that does enter.
    pub fn poll<R: ConsensusRule + ?Sized>(
        &mut self,
        rt: &mut Rt,
        consensus_rule: &R,
        in_event: Option<BehaviorEvent>,
    ) -> (r: (Result<Option<Event>, Error>, Option<BehaviorEvent>))
        ensures
            match gossip_text(in_event) {
                None => r.0 matches Ok(None) && r.1 == in_event && final(rt)@ == old(rt)@,
                Some(text) => r.1 is None && match json_message(text) {
                    None => r.0 matches Ok(None) && final(rt)@ == old(rt)@,
                    Some(m) => {
                        &&& r.0 matches Ok(Some(Event::MessageReceived(h))) && h@ == m.hash
                        &&& final(rt)@ == old(rt)@ || final(rt)@ == old(rt)@.insert(m)
                        &&& !admissible_in_time(consensus_rule, old(rt)@, m) ==> final(rt)@ == old(
                            rt,
                        )@
                        &&& admissible_in_time(consensus_rule, old(rt)@, m) && m.data.timestamp
                            == 0 ==> final(rt)@ == old(rt)@.insert(m)
                    },
                },
            },
    {
        let now = now_millis();
        self.poll_at(rt, consensus_rule, in_event, now)
    }

    /// Takes in a message of this client's own: writes it as JSON for
    /// broadcast on the message topic, then stores it in the ledger. The
    /// message is not put through the admission checks. Fails, and leaves
    /// the ledger as it was, only where the message cannot be written as
    /// JSON.
    pub fn submit_message(&mut self, rt: &mut Rt, msg: Message) -> (r: Result<Vec<u8>, Error>)
        ensures
            match message_json(msg@) {
                Some(text) => r matches Ok(bytes) && bytes@ == text && final(rt)@ == old(rt)@.insert(
                    msg@,
                ),
                None => r is Err && final(rt)@ == old(rt)@,
            },
    {
        match msg.to_json() {
            Ok(serialized) => {
                rt.insert_message(msg);
                Ok(serialized)
            },
            Err(e) => Err(Error::SerializationError(e)),
        }
    }
}

} // verus!
