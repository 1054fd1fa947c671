//! Chain entries, their content hash and their JSON form.

use crate::crypto::hash;
use crate::crypto::hash::{blake3_digest, blake3_of};
use vstd::prelude::*;

verus! {

/// What a captcha holds: the challenge as it is shown, and the digest of
/// its answer.
pub struct CaptchaView {
    pub challenge: Seq<u8>,
    pub answer: Seq<u8>,
}

/// What a message states, apart from its identifier.
pub struct MessageDataView {
    pub data: Seq<u8>,
    pub prev: Option<Seq<u8>>,
    pub captcha_ans: Option<Seq<char>>,
    pub captcha_src: Option<Seq<u8>>,
    pub lookback: Option<u64>,
    pub new_captcha: CaptchaView,
    pub height: u64,
    pub timestamp: u64,
}

/// A message: its content and the identifier stored with it.
pub struct MessageView {
    pub data: MessageDataView,
    pub hash: Seq<u8>,
}

/// A message as it is written down: its content, with or without an
/// identifier.
pub struct WireView {
    pub data: MessageDataView,
    pub hash: Option<Seq<u8>>,
}

/// The fields of a message in the order in which they are written down:
/// payload, predecessor, captcha answer, captcha source, lookback, the new
/// captcha (challenge, digest of the answer), height, timestamp, identifier.
pub type Wire = (
    Vec<u8>,
    Option<[u8; 32]>,
    Option<String>,
    Option<[u8; 32]>,
    Option<u64>,
    (Vec<u8>, [u8; 32]),
    u64,
    u64,
    Option<[u8; 32]>,
);

/// The bytes of an optional digest.
pub open spec fn digest_view(h: Option<[u8; 32]>) -> Option<Seq<u8>> {
    match h {
        Some(bytes) => Some(bytes@),
        None => None,
    }
}

/// The characters of an optional text.
pub open spec fn text_view(s: Option<String>) -> Option<Seq<char>> {
    match s {
        Some(text) => Some(text@),
        None => None,
    }
}

/// The message that a tuple of fields stands for.
pub open spec fn wire_view(w: Wire) -> WireView {
    WireView {
        data: MessageDataView {
            data: w.0@,
            prev: digest_view(w.1),
            captcha_ans: text_view(w.2),
            captcha_src: digest_view(w.3),
            lookback: w.4,
            new_captcha: CaptchaView { challenge: w.5.0@, answer: w.5.1@ },
            height: w.6,
            timestamp: w.7,
        },
        hash: digest_view(w.8),
    }
}

/// The JSON text that `serde_json::to_vec` writes for a message's fields,
/// or `None` where it reports an error.
pub uninterp spec fn json_text(w: WireView) -> Option<Seq<u8>>;

/// The fields that `serde_json::from_slice` reads from a JSON text, or
/// `None` where it reports an error.
pub uninterp spec fn json_parse(text: Seq<u8>) -> Option<WireView>;

/// Calls `serde_json::to_vec` on the tuple of fields. Whether it succeeds
/// and what it writes depend on the fields alone: the contract names the
/// outcome `json_text`. An error is handed out as its message, of which
/// nothing is claimed.
#[verifier::external_body]
pub(crate) fn wire_to_json(w: &Wire) -> (r: Result<Vec<u8>, String>)
    ensures
        r matches Ok(text) ==> json_text(wire_view(*w)) == Some(text@),
        r is Err ==> json_text(wire_view(*w)) is None,
{
    serde_json::to_vec(w).map_err(|e| e.to_string())
}

/// Calls `serde_json::from_slice` for a tuple of fields. Whether it
/// succeeds and what it reads depend on the text alone: the contract names
/// the outcome `json_parse`.
#[verifier::external_body]
pub(crate) fn wire_from_json(text: &[u8]) -> (r: Option<Wire>)
    ensures
        r matches Some(w) ==> json_parse(text@) == Some(wire_view(w)),
        r is None ==> json_parse(text@) is None,
{
    serde_json::from_slice(text).ok()
}

/// The digest under which a captcha's answer is kept: BLAKE3 over the
/// answer's UTF-8 bytes.
pub open spec fn answer_digest(answer: Seq<char>) -> Seq<u8> {
    blake3_digest(vstd::utf8::encode_utf8(answer))
}

/// The identifier that a message's content calls for: BLAKE3 over the JSON
/// text of the content written without an identifier. `None` where the
/// content cannot be written as JSON.
pub open spec fn content_hash(d: MessageDataView) -> Option<Seq<u8>> {
    match json_text(WireView { data: d, hash: None }) {
        Some(text) => Some(blake3_digest(text)),
        None => None,
    }
}

/// The stored identifier is the one that the content calls for.
pub open spec fn hash_intact(m: MessageView) -> bool {
    content_hash(m.data) == Some(m.hash)
}

/// The JSON text of a whole message.
pub open spec fn message_json(m: MessageView) -> Option<Seq<u8>> {
    json_text(WireView { data: m.data, hash: Some(m.hash) })
}

/// The message that a JSON text holds, if it holds one with an identifier.
pub open spec fn json_message(text: Seq<u8>) -> Option<MessageView> {
    match json_parse(text) {
        Some(w) => match w.hash {
            Some(h) => Some(MessageView { data: w.data, hash: h }),
            None => None,
        },
        None => None,
    }
}

/// A text that holds the fields of `m` is read as `m`, so what is read
/// calls for the identifier that `m` calls for.
pub proof fn lemma_fields_read_keep_hash(m: MessageView, text: Seq<u8>)
    requires
        json_parse(text) == Some(WireView { data: m.data, hash: Some(m.hash) }),
    ensures
        json_message(text) == Some(m),
        content_hash(json_message(text).unwrap().data) == content_hash(m.data),
{
}

/// A challenge that a later message must answer. The answer is kept as a
/// digest only.
#[derive(Debug)]
pub struct Captcha {
    challenge: Vec<u8>,
    answer: hash::Hash,
}

impl View for Captcha {
    type V = CaptchaView;

    closed spec fn view(&self) -> CaptchaView {
        CaptchaView { challenge: self.challenge@, answer: self.answer@ }
    }
}

impl Clone for Captcha {
    fn clone(&self) -> (c: Captcha)
        ensures
            c@ == self@,
    {
        Captcha { challenge: copy_bytes(&self.challenge), answer: self.answer }
    }
}

/// A copy of `bytes`.
pub(crate) fn copy_bytes(bytes: &Vec<u8>) -> (copy: Vec<u8>)
    ensures
        copy@ == bytes@,
{
    let mut copy: Vec<u8> = Vec::with_capacity(bytes.len());
    let mut i: usize = 0;
    while i < bytes.len()
        invariant
            i <= bytes.len(),
            copy@ == bytes@.take(i as int),
        decreases bytes.len() - i,
    {
        copy.push(bytes[i]);
        assert(bytes@.take(i as int).push(bytes@[i as int]) =~= bytes@.take(i + 1));
        i += 1;
    }
    assert(bytes@.take(bytes@.len() as int) =~= bytes@);
    copy
}

impl Captcha {
    /// A captcha that shows `challenge` and is solved by `answer`. Only
    /// the digest of `answer` is kept.
    pub fn new(challenge: Vec<u8>, answer: &str) -> (c: Captcha)
        ensures
            c@.challenge == challenge@,
            c@.answer == answer_digest(answer@),
    {
        Captcha { challenge, answer: blake3_of(answer.as_bytes()) }
    }

    /// A captcha from its stored parts.
    pub fn from_parts(challenge: Vec<u8>, answer: hash::Hash) -> (c: Captcha)
        ensures
            c@.challenge == challenge@,
            c@.answer == answer@,
    {
        Captcha { challenge, answer }
    }

    /// The challenge as it is shown.
    pub fn challenge(&self) -> (challenge: &Vec<u8>)
        ensures
            challenge@ == self@.challenge,
    {
        &self.challenge
    }

    /// The digest of the answer.
    pub fn answer(&self) -> (answer: &hash::Hash)
        ensures
            answer@ == self@.answer,
    {
        &self.answer
    }

    /// Whether `attempt` solves this captcha.
    pub fn is_answered_by(&self, attempt: &str) -> (solved: bool)
        ensures
            solved == (answer_digest(attempt@) == self@.answer),
    {
        blake3_of(attempt.as_bytes()) == self.answer
    }
}


/// The content of a message: everything but its identifier.
#[derive(Debug)]
pub struct MessageData {
    data: Vec<u8>,
    prev: Option<hash::Hash>,
    captcha_ans: Option<String>,
    captcha_src: Option<hash::Hash>,
    lookback: Option<u64>,
    new_captcha: Captcha,
    height: u64,
    timestamp: u64,
}

impl View for MessageData {
    type V = MessageDataView;

    closed spec fn view(&self) -> MessageDataView {
        MessageDataView {
            data: self.data@,
            prev: hash_view(self.prev),
            captcha_ans: text_view(self.captcha_ans),
            captcha_src: hash_view(self.captcha_src),
            lookback: self.lookback,
            new_captcha: self.new_captcha@,
            height: self.height,
            timestamp: self.timestamp,
        }
    }
}

/// The bytes of an optional identifier.
pub open spec fn hash_view(h: Option<hash::Hash>) -> Option<Seq<u8>> {
    match h {
        Some(digest) => Some(digest@),
        None => None,
    }
}

/// The bytes of an optional reference to an identifier.
pub open spec fn hash_ref_view(h: Option<&hash::Hash>) -> Option<Seq<u8>> {
    match h {
        Some(digest) => Some(digest@),
        None => None,
    }
}

/// The characters of an optional reference to a text.
pub open spec fn text_ref_view(s: Option<&String>) -> Option<Seq<char>> {
    match s {
        Some(text) => Some(text@),
        None => None,
    }
}

/// The raw bytes of an optional identifier.
fn digest_bytes(h: &Option<hash::Hash>) -> (bytes: Option<[u8; 32]>)
    ensures
        digest_view(bytes) == hash_view(*h),
{
    match h {
        Some(digest) => Some(digest.bytes),
        None => None,
    }
}

/// The optional identifier that raw bytes stand for.
fn digest_from_bytes(bytes: Option<[u8; 32]>) -> (h: Option<hash::Hash>)
    ensures
        hash_view(h) == digest_view(bytes),
{
    match bytes {
        Some(b) => Some(hash::Hash::new(b)),
        None => None,
    }
}

/// A copy of an optional text.
fn copy_text(s: &Option<String>) -> (copy: Option<String>)
    ensures
        text_view(copy) == text_view(*s),
{
    match s {
        Some(text) => Some(text.clone()),
        None => None,
    }
}

impl Clone for MessageData {
    fn clone(&self) -> (d: MessageData)
        ensures
            d@ == self@,
    {
        MessageData {
            data: copy_bytes(&self.data),
            prev: self.prev,
            captcha_ans: copy_text(&self.captcha_ans),
            captcha_src: self.captcha_src,
            lookback: self.lookback,
            new_captcha: self.new_captcha.clone(),
            height: self.height,
            timestamp: self.timestamp,
        }
    }
}

impl MessageData {
    /// The content of a new message. `new_captcha` is the challenge that
    /// the message puts to its descendants.
    pub fn new(
        data: Vec<u8>,
        prev: Option<hash::Hash>,
        captcha_ans: Option<String>,
        captcha_src: Option<hash::Hash>,
        height: u64,
        timestamp: u64,
        lookback: Option<u64>,
        new_captcha: Captcha,
    ) -> (d: MessageData)
        ensures
            d@ == (MessageDataView {
                data: data@,
                prev: hash_view(prev),
                captcha_ans: text_view(captcha_ans),
                captcha_src: hash_view(captcha_src),
                lookback,
                new_captcha: new_captcha@,
                height,
                timestamp,
            }),
    {
        MessageData {
            data,
            prev,
            captcha_ans,
            captcha_src,
            lookback,
            new_captcha,
            height,
            timestamp,
        }
    }

    /// The payload.
    pub fn data(&self) -> (data: &Vec<u8>)
        ensures
            data@ == self@.data,
    {
        &self.data
    }

    /// The identifier of the preceding message; `None` for a genesis message.
    pub fn prev(&self) -> (prev: Option<&hash::Hash>)
        ensures
            hash_ref_view(prev) == self@.prev,
    {
        self.prev.as_ref()
    }

    /// The answer given to the captcha of the message `captcha_src`.
    pub fn captcha_ans(&self) -> (ans: Option<&String>)
        ensures
            text_ref_view(ans) == self@.captcha_ans,
    {
        self.captcha_ans.as_ref()
    }

    /// The identifier of the message whose captcha is answered.
    pub fn captcha_src(&self) -> (src: Option<&hash::Hash>)
        ensures
            hash_ref_view(src) == self@.captcha_src,
    {
        self.captcha_src.as_ref()
    }

    /// How many messages lie between the predecessor and the message whose
    /// captcha is answered.
    pub fn lookback(&self) -> (lookback: Option<u64>)
        ensures
            lookback == self@.lookback,
    {
        self.lookback
    }

    /// The challenge that this message puts to its descendants.
    pub fn new_captcha(&self) -> (captcha: &Captcha)
        ensures
            captcha@ == self@.new_captcha,
    {
        &self.new_captcha
    }

    /// The position in the chain.
    pub fn height(&self) -> (height: u64)
        ensures
            height == self@.height,
    {
        self.height
    }

    /// Milliseconds since the epoch, as the author gave them.
    pub fn timestamp(&self) -> (timestamp: u64)
        ensures
            timestamp == self@.timestamp,
    {
        self.timestamp
    }

    /// The fields as a tuple, with `hash` in the identifier's place.
    fn to_wire(&self, hash: &Option<hash::Hash>) -> (w: Wire)
        ensures
            wire_view(w) == (WireView { data: self@, hash: hash_view(*hash) }),
    {
        (
            copy_bytes(&self.data),
            digest_bytes(&self.prev),
            copy_text(&self.captcha_ans),
            digest_bytes(&self.captcha_src),
            self.lookback,
            (copy_bytes(&self.new_captcha.challenge), self.new_captcha.answer.bytes),
            self.height,
            self.timestamp,
            digest_bytes(hash),
        )
    }

    /// The content and the identifier that a tuple of fields holds.
    fn from_wire(w: Wire) -> (r: (MessageData, Option<hash::Hash>))
        ensures
            wire_view(w) == (WireView { data: r.0@, hash: hash_view(r.1) }),
    {
        let (data, prev, captcha_ans, captcha_src, lookback, captcha, height, timestamp, hash) = w;
        let (challenge, answer) = captcha;
        let d = MessageData {
            data,
            prev: digest_from_bytes(prev),
            captcha_ans,
            captcha_src: digest_from_bytes(captcha_src),
            lookback,
            new_captcha: Captcha { challenge, answer: hash::Hash::new(answer) },
            height,
            timestamp,
        };
        (d, digest_from_bytes(hash))
    }

    /// Computes the identifier that this content calls for. Fails where
    /// the content cannot be written as JSON.
    pub fn hashed(&self) -> (r: Result<hash::Hash, String>)
        ensures
            r matches Ok(h) ==> content_hash(self@) == Some(h@),
            r is Err ==> content_hash(self@) is None,
    {
        let w = self.to_wire(&None);
        match wire_to_json(&w) {
            Ok(text) => Ok(blake3_of(text.as_slice())),
            Err(e) => Err(e),
        }
    }
}

/// A chain entry: content and the identifier stored with it.
#[derive(Debug)]
pub struct Message {
    data: MessageData,
    hash: hash::Hash,
}

impl View for Message {
    type V = MessageView;

    closed spec fn view(&self) -> MessageView {
        MessageView { data: self.data@, hash: self.hash@ }
    }
}

impl Clone for Message {
    fn clone(&self) -> (m: Message)
        ensures
            m@ == self@,
    {
        Message { data: self.data.clone(), hash: self.hash }
    }
}

impl Message {
    /// Seals `data` under the identifier that it calls for. Fails where
    /// the content cannot be written as JSON.
    pub fn try_from(data: MessageData) -> (r: Result<Message, String>)
        ensures
            r matches Ok(m) ==> m@.data == data@ && hash_intact(m@),
            r is Err ==> content_hash(data@) is None,
    {
        match data.hashed() {
            Ok(hash) => Ok(Message { data, hash }),
            Err(e) => Err(e),
        }
    }

    /// A message as it was received: `hash` is taken as given, whether or
    /// not the content calls for it.
    pub fn from_parts(data: MessageData, hash: hash::Hash) -> (m: Message)
        ensures
            m@ == (MessageView { data: data@, hash: hash@ }),
    {
        Message { data, hash }
    }

    /// The content.
    pub fn data(&self) -> (data: &MessageData)
        ensures
            data@ == self@.data,
    {
        &self.data
    }

    /// The stored identifier.
    pub fn hash(&self) -> (hash: &hash::Hash)
        ensures
            hash@ == self@.hash,
    {
        &self.hash
    }

    /// Whether the stored identifier is the one that the content calls for.
    pub fn is_intact(&self) -> (intact: bool)
        ensures
            intact == hash_intact(self@),
    {
        match self.data.hashed() {
            Ok(h) => h == self.hash,
            Err(_) => false,
        }
    }

    /// Writes the message as JSON.
    pub fn to_json(&self) -> (r: Result<Vec<u8>, String>)
        ensures
            r matches Ok(text) ==> message_json(self@) == Some(text@),
            r is Err ==> message_json(self@) is None,
    {
        let w = self.data.to_wire(&Some(self.hash));
        wire_to_json(&w)
    }

    /// Reads a message from JSON. `None` where the text is no JSON array of
    /// a message's fields, or holds no identifier.
    pub fn from_json(text: &[u8]) -> (r: Option<Message>)
        ensures
            r matches Some(m) ==> json_message(text@) == Some(m@),
            r is None ==> json_message(text@) is None,
    {
        match wire_from_json(text) {
            Some(w) => {
                let (data, hash) = MessageData::from_wire(w);
                match hash {
                    Some(hash) => Some(Message { data, hash }),
                    None => None,
                }
            },
            None => None,
        }
    }
}

} // verus!
