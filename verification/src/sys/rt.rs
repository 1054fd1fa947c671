//! The ledger: every admitted message under its identifier, and the
//! identifier of the leaf of the longest chain.

use crate::crypto::hash;
use crate::sys::msg::{hash_ref_view, hash_view, Message, MessageView};
use vstd::prelude::*;

verus! {

/// A ledger as a mathematical value.
#[verifier::ext_equal]
pub struct RtView {
    /// The stored messages, each under its identifier.
    pub messages: Map<Seq<u8>, MessageView>,
    /// The identifier of the leaf of the longest chain.
    pub longest_chain: Option<Seq<u8>>,
}

impl RtView {
    /// The ledger that holds nothing.
    pub open spec fn empty() -> RtView {
        RtView { messages: Map::empty(), longest_chain: None }
    }

    /// Whether a message is stored under `h`.
    pub open spec fn contains(self, h: Seq<u8>) -> bool {
        self.messages.dom().contains(h)
    }

    /// The message stored under `h`.
    pub open spec fn get(self, h: Seq<u8>) -> Option<MessageView> {
        if self.contains(h) {
            Some(self.messages[h])
        } else {
            None
        }
    }

    /// The leaf of the longest chain.
    pub open spec fn head(self) -> Option<MessageView> {
        match self.longest_chain {
            Some(h) => self.get(h),
            None => None,
        }
    }

    /// Whether `m` would become the leaf of the longest chain: there is no
    /// leaf yet, or `m` stands higher than the leaf.
    pub open spec fn grows_chain(self, m: MessageView) -> bool {
        match self.head() {
            Some(top) => m.data.height > top.data.height,
            None => true,
        }
    }

    /// The ledger after `m` was offered to it. A message whose identifier is
    /// already stored changes nothing.
    pub open spec fn insert(self, m: MessageView) -> RtView {
        if self.contains(m.hash) {
            self
        } else {
            RtView {
                messages: self.messages.insert(m.hash, m),
                longest_chain: if self.grows_chain(m) {
                    Some(m.hash)
                } else {
                    self.longest_chain
                },
            }
        }
    }

    /// Offering a message a second time changes nothing: neither what is
    /// stored nor the leaf of the longest chain.
    pub proof fn lemma_insert_idempotent(self, m: MessageView)
        ensures
            self.insert(m).insert(m) == self.insert(m),
            self.insert(m).contains(m.hash),
    {
    }

    /// The ledger only grows: whatever is stored stays stored, unchanged,
    /// when another message is offered.
    pub proof fn lemma_insert_keeps_stored(self, m: MessageView, h: Seq<u8>)
        requires
            self.contains(h),
        ensures
            self.insert(m).get(h) == self.get(h),
    {
    }

    /// What holds of every ledger that `Rt` builds: each message is stored
    /// under its own identifier; the leaf is stored, is missing only while
    /// the ledger is empty, and no stored message stands higher than it.
    pub open spec fn wf(self) -> bool {
        &&& forall|h: Seq<u8>| #[trigger] self.contains(h) ==> self.messages[h].hash == h
        &&& forall|h: Seq<u8>| #[trigger]
            self.contains(h) ==> (self.head() matches Some(top) && self.messages[h].data.height
                <= top.data.height)
    }
}

impl RtView {
    /// Offering a message to a well-formed ledger leaves it well formed.
    pub proof fn lemma_insert_wf(self, m: MessageView)
        requires
            self.wf(),
        ensures
            self.insert(m).wf(),
    {
        let next = self.insert(m);
        if !self.contains(m.hash) {
            assert forall|h: Seq<u8>| #[trigger] next.contains(h) implies next.messages[h].hash
                == h by {
                if h != m.hash {
                    assert(self.contains(h));
                }
            }
            assert forall|h: Seq<u8>| #[trigger] next.contains(h) implies (next.head() matches Some(
                top,
            ) && next.messages[h].data.height <= top.data.height) by {
                if h != m.hash {
                    assert(self.contains(h));
                }
            }
        }
    }
}

/// The messages of a ledger in the order in which they were stored.
#[derive(Debug)]
struct Store {
    messages: Vec<Message>,
    longest_chain: Option<hash::Hash>,
}

/// The index at which `h` is stored.
spec fn slot_of(messages: Seq<Message>, h: Seq<u8>) -> int {
    choose|i: int| 0 <= i < messages.len() && messages[i]@.hash == h
}

/// Whether `h` is stored at some index.
spec fn stored(messages: Seq<Message>, h: Seq<u8>) -> bool {
    exists|i: int| 0 <= i < messages.len() && messages[i]@.hash == h
}

impl Store {
    /// The ledger that the stored messages make up.
    spec fn view(&self) -> RtView {
        RtView {
            messages: Map::new(
                |h: Seq<u8>| stored(self.messages@, h),
                |h: Seq<u8>| self.messages@[slot_of(self.messages@, h)]@,
            ),
            longest_chain: hash_view(self.longest_chain),
        }
    }

    /// No identifier is stored twice, and the view is well formed.
    spec fn wf(&self) -> bool {
        &&& forall|i: int, j: int|
            0 <= i < j < self.messages@.len() ==> self.messages@[i]@.hash
                != self.messages@[j]@.hash
        &&& self.view().wf()
    }

    /// An empty store.
    fn new() -> (s: Store)
        ensures
            s.wf(),
            s.view() == RtView::empty(),
            s.messages@.len() == 0,
    {
        let s = Store { messages: Vec::new(), longest_chain: None };
        assert(s.view().messages =~= Map::empty());
        s
    }

    /// The index at which `h` is stored.
    fn position(&self, h: &hash::Hash) -> (r: Option<usize>)
        ensures
            r matches Some(i) ==> i < self.messages@.len() && self.messages@[i as int]@.hash
                == h@,
            r is None ==> !stored(self.messages@, h@),
    {
        let mut i: usize = 0;
        while i < self.messages.len()
            invariant
                i <= self.messages@.len(),
                forall|j: int| 0 <= j < i ==> self.messages@[j]@.hash != h@,
            decreases self.messages@.len() - i,
        {
            if *self.messages[i].hash() == *h {
                return Some(i);
            }
            i += 1;
        }
        None
    }

    /// The message stored under `h`.
    fn get(&self, h: &hash::Hash) -> (r: Option<&Message>)
        requires
            self.wf(),
        ensures
            r matches Some(m) ==> self.view().get(h@) == Some(m@),
            r is None ==> self.view().get(h@) is None,
    {
        match self.position(h) {
            Some(i) => {
                proof {
                    self.lemma_slot(i as int);
                }
                Some(&self.messages[i])
            },
            None => None,
        }
    }

    /// The message at index `i` is the one that the view holds under its
    /// identifier.
    proof fn lemma_slot(&self, i: int)
        requires
            self.wf(),
            0 <= i < self.messages@.len(),
        ensures
            stored(self.messages@, self.messages@[i]@.hash),
            slot_of(self.messages@, self.messages@[i]@.hash) == i,
            self.view().get(self.messages@[i]@.hash) == Some(self.messages@[i]@),
    {
    }

    /// Stores `msg` unless its identifier is taken, and moves the leaf of
    /// the longest chain to it where it stands higher.
    fn insert(&mut self, msg: Message)
        requires
            old(self).wf(),
        ensures
            final(self).wf(),
            final(self).view() == old(self).view().insert(msg@),
            final(self).messages@.len() == if old(self).view().contains(msg@.hash) {
                old(self).messages@.len()
            } else {
                old(self).messages@.len() + 1
            },
    {
        if self.position(msg.hash()).is_some() {
            return ;
        }
        let grows = match &self.longest_chain {
            Some(top) => match self.get(top) {
                Some(leaf) => msg.data().height() > leaf.data().height(),
                None => true,
            },
            None => true,
        };
        let ghost before = *self;
        let ghost m = msg@;
        if grows {
            self.longest_chain = Some(*msg.hash());
        }
        self.messages.push(msg);
        proof {
            let after = *self;
            assert forall|h: Seq<u8>| stored(after.messages@, h) <==> (stored(before.messages@, h)
                || h == m.hash) by {
                if stored(before.messages@, h) {
                    let i = slot_of(before.messages@, h);
                    assert(after.messages@[i]@.hash == h);
                }
                if h == m.hash {
                    assert(after.messages@[before.messages@.len() as int]@.hash == h);
                }
            }
            assert forall|h: Seq<u8>| stored(after.messages@, h) implies after.messages@[slot_of(
                after.messages@,
                h,
            )]@ == (if h == m.hash {
                m
            } else {
                before.messages@[slot_of(before.messages@, h)]@
            }) by {
                let k = slot_of(after.messages@, h);
                if h != m.hash {
                    let i = slot_of(before.messages@, h);
                    assert(after.messages@[i]@.hash == h);
                }
            }
            assert(after.view().messages =~= before.view().insert(m).messages);
            assert(after.view() =~= before.view().insert(m));
            before.view().lemma_insert_wf(m);
            assert forall|i: int, j: int| 0 <= i < j < after.messages@.len() implies after.messages@[i]@.hash
                != after.messages@[j]@.hash by {
                if j == before.messages@.len() {
                    assert(before.messages@[i]@.hash != m.hash);
                }
            }
        }
    }
}


/// The ledger. Messages enter it through `insert_message` and never leave
/// or change.
#[derive(Debug)]
pub struct Rt {
    store: Store,
}

impl View for Rt {
    type V = RtView;

    closed spec fn view(&self) -> RtView {
        self.store.view()
    }
}

impl Rt {
    /// Every ledger is well formed.
    #[verifier::type_invariant]
    spec fn inv(self) -> bool {
        self.store.wf()
    }

    /// The number of stored messages.
    pub closed spec fn spec_len(&self) -> nat {
        self.store.messages@.len()
    }

    /// An empty ledger.
    pub fn new() -> (rt: Rt)
        ensures
            rt@ == RtView::empty(),
            rt.spec_len() == 0,
    {
        Rt { store: Store::new() }
    }

    /// The number of stored messages.
    pub fn len(&self) -> (n: usize)
        ensures
            n == self.spec_len(),
    {
        self.store.messages.len()
    }

    /// The stored messages, in the order in which they came in.
    pub fn messages(&self) -> (all: &Vec<Message>)
        ensures
            all@.len() == self.spec_len(),
            forall|i: int|
                0 <= i < all@.len() ==> self@.get((#[trigger] all@[i])@.hash) == Some(all@[i]@),
            forall|i: int, j: int|
                0 <= i < j < all@.len() ==> all@[i]@.hash != all@[j]@.hash,
    {
        proof {
            use_type_invariant(self);
            assert forall|i: int| 0 <= i < self.store.messages@.len() implies self@.get(
                (#[trigger] self.store.messages@[i])@.hash,
            ) == Some(self.store.messages@[i]@) by {
                self.store.lemma_slot(i);
            }
        }
        &self.store.messages
    }

    /// The message stored under `hash`, if there is one.
    pub fn get_message(&self, hash: &hash::Hash) -> (r: Option<&Message>)
        ensures
            self@.wf(),
            r matches Some(m) ==> self@.get(hash@) == Some(m@) && m@.hash == hash@,
            r is None ==> self@.get(hash@) is None,
    {
        proof {
            use_type_invariant(self);
        }
        self.store.get(hash)
    }

    /// The identifier of the leaf of the longest chain; `None` while the
    /// ledger is empty.
    pub fn longest_chain(&self) -> (r: Option<&hash::Hash>)
        ensures
            self@.wf(),
            hash_ref_view(r) == self@.longest_chain,
    {
        proof {
            use_type_invariant(self);
        }
        self.store.longest_chain.as_ref()
    }

    /// Stores `msg` under its identifier. Where a message with that
    /// identifier is already stored, nothing changes. Otherwise `msg` also
    /// becomes the leaf of the longest chain if it stands higher than the
    /// present leaf, or if there is none.
    pub fn insert_message(&mut self, msg: Message)
        ensures
            final(self)@ == old(self)@.insert(msg@),
            final(self)@.wf(),
            final(self).spec_len() == if old(self)@.contains(msg@.hash) {
                old(self).spec_len()
            } else {
                old(self).spec_len() + 1
            },
    {
        proof {
            use_type_invariant(&*self);
        }
        let mut store = Store::new();
        std::mem::swap(&mut store, &mut self.store);
        store.insert(msg);
        self.store = store;
    }
}

impl Default for Rt {
    fn default() -> (rt: Rt)
        ensures
            rt@ == RtView::empty(),
    {
        Rt::new()
    }
}

} // verus!
