//! The store that maps a rendered message to the document shown in it, so
//! that a later follow-up on that message can re-enter the document.
use vstd::prelude::*;
use crate::document::CrateDocument;

verus! {

/// The interactive flow that a message takes part in.
#[derive(Clone, Copy, Debug, PartialEq, Eq, Structural)]
pub enum CallbackSession {
    /// Navigation through a documentation page.
    Docs,
}

/// What the store keeps for one message.
#[derive(Clone, Debug, PartialEq, Eq)]
pub struct SessionEntry {
    pub document: CrateDocument,
    pub kind: CallbackSession,
}

/// One stored entry with its key: conversation, message, entry.
pub type Slot = (i64, i32, SessionEntry);

/// Whether the slot at `i` holds the key (`chat`, `message`).
pub open spec fn has_key(s: Seq<Slot>, chat: i64, message: i32, i: int) -> bool {
    0 <= i < s.len() && s[i].0 == chat && s[i].1 == message
}

/// No two slots hold the same key.
pub open spec fn unique_keys(s: Seq<Slot>) -> bool {
    forall|i: int, j: int| #![trigger has_key(s, s[i].0, s[i].1, j)]
        0 <= i < s.len() && has_key(s, s[i].0, s[i].1, j) ==> i == j
}

/// The entry stored under a key, if any.
pub open spec fn lookup(s: Seq<Slot>, chat: i64, message: i32) -> Option<SessionEntry> {
    if exists|i: int| has_key(s, chat, message, i) {
        Some(s[choose|i: int| has_key(s, chat, message, i)].2)
    } else {
        None
    }
}

/// The slots after storing `e` under a key: an entry under that key is
/// replaced in place; a new key goes last, and where the store is full the
/// oldest slot leaves first.
pub open spec fn stored(s: Seq<Slot>, chat: i64, message: i32, e: SessionEntry, capacity: nat) -> Seq<Slot> {
    if exists|i: int| has_key(s, chat, message, i) {
        s.update(choose|i: int| has_key(s, chat, message, i), (chat, message, e))
    } else if s.len() >= capacity {
        s.drop_first().push((chat, message, e))
    } else {
        s.push((chat, message, e))
    }
}

/// Documents shown in messages, keyed by (conversation, message), with at
/// most `capacity` entries; the oldest entry makes room for a new one.
pub struct SessionStore {
    slots: Vec<Slot>,
    capacity: usize,
}

impl SessionStore {
    /// The stored slots, oldest first.
    pub closed spec fn contents(&self) -> Seq<Slot> {
        self.slots@
    }

    /// How many entries the store keeps at most.
    pub closed spec fn capacity(&self) -> nat {
        self.capacity as nat
    }

    /// The store's invariant: keys are unique and the bound holds.
    pub closed spec fn wf(&self) -> bool {
        &&& self.capacity >= 1
        &&& self.slots@.len() <= self.capacity
        &&& unique_keys(self.slots@)
    }

    /// An empty store that keeps at most `capacity` entries.
    pub fn new(capacity: usize) -> (r: SessionStore)
        requires
            capacity >= 1,
        ensures
            r.wf(),
            r.contents() == Seq::<Slot>::empty(),
            r.capacity() == capacity,
    {
        SessionStore { slots: Vec::new(), capacity }
    }

    /// The entry stored for a message, if any.
    pub fn get(&self, chat: i64, message: i32) -> (r: Option<&SessionEntry>)
        requires
            self.wf(),
        ensures
            r is Some <==> lookup(self.contents(), chat, message) is Some,
            r is Some ==> *r.unwrap() == lookup(self.contents(), chat, message).unwrap(),
    {
        match self.position(chat, message) {
            Some(i) => Some(&self.slots[i].2),
            None => None,
        }
    }

    fn position(&self, chat: i64, message: i32) -> (r: Option<usize>)
        requires
            self.wf(),
        ensures
            r matches Some(i) ==> has_key(self.slots@, chat, message, i as int) && lookup(
                self.slots@,
                chat,
                message,
            ) == Some(self.slots@[i as int].2) && (choose|j: int| has_key(self.slots@, chat, message, j))
                == i,
            r is None ==> lookup(self.slots@, chat, message) is None && !exists|j: int|
                has_key(self.slots@, chat, message, j),
    {
        let mut i: usize = 0;
        while i < self.slots.len()
            invariant
                i <= self.slots@.len(),
                self.wf(),
                forall|j: int| 0 <= j < i ==> !#[trigger] has_key(self.slots@, chat, message, j),
            decreases self.slots@.len() - i,
        {
            if self.slots[i].0 == chat && self.slots[i].1 == message {
                let ghost s = self.slots@;
                assert(has_key(s, chat, message, i as int));
                proof {
                    assert(unique_keys(s));
                    assert(exists|j: int| has_key(s, chat, message, j));
                    let k = choose|j: int| has_key(s, chat, message, j);
                    assert(has_key(s, chat, message, k));
                    assert(has_key(s, s[i as int].0, s[i as int].1, k));
                    assert(k == i);
                }
                return Some(i);
            }
            i = i + 1;
        }
        None
    }

    /// Stores the entry for a message, replacing one stored for it before.
    pub fn put(&mut self, chat: i64, message: i32, entry: SessionEntry)
        requires
            old(self).wf(),
        ensures
            final(self).wf(),
            final(self).capacity() == old(self).capacity(),
            final(self).contents() == stored(old(self).contents(), chat, message, entry, old(self).capacity()),
    {
        let ghost s = self.slots@;
        match self.position(chat, message) {
            Some(i) => {
                self.slots.set(i, (chat, message, entry));
                proof {
                    let t = self.slots@;
                    assert forall|a: int, b: int|
                        0 <= a < t.len() && #[trigger] has_key(t, t[a].0, t[a].1, b) implies a == b by {
                        assert(has_key(s, s[a].0, s[a].1, b));
                    }
                }
            },
            None => {
                if self.slots.len() >= self.capacity {
                    self.slots.remove(0);
                    proof {
                        let t = self.slots@;
                        assert forall|a: int, b: int|
                            0 <= a < t.len() && #[trigger] has_key(t, t[a].0, t[a].1, b) implies a == b by {
                            assert(has_key(s, s[a + 1].0, s[a + 1].1, b + 1));
                        }
                        assert(t == s.drop_first());
                    }
                }
                let ghost t = self.slots@;
                self.slots.push((chat, message, entry));
                proof {
                    let u = self.slots@;
                    assert forall|a: int, b: int|
                        0 <= a < u.len() && #[trigger] has_key(u, u[a].0, u[a].1, b) implies a == b by {
                        if a < t.len() && b < t.len() {
                            assert(has_key(t, t[a].0, t[a].1, b));
                        } else if a < t.len() {
                            assert(has_key(s, chat, message, a + (s.len() - t.len())));
                        } else if b < t.len() {
                            assert(has_key(s, chat, message, b + (s.len() - t.len())));
                        }
                    }
                }
            },
        }
    }
}

/// A document stored for a message is what a later lookup of that message
/// finds, whatever was stored before and however full the store was.
pub proof fn lemma_put_then_get(s: Seq<Slot>, chat: i64, message: i32, e: SessionEntry, capacity: nat)
    requires
        unique_keys(s),
        capacity >= 1,
    ensures
        lookup(stored(s, chat, message, e, capacity), chat, message) == Some(e),
{
    let t = stored(s, chat, message, e, capacity);
    if exists|i: int| has_key(s, chat, message, i) {
        let i = choose|i: int| has_key(s, chat, message, i);
        assert(has_key(t, chat, message, i));
        let k = choose|j: int| has_key(t, chat, message, j);
        assert(has_key(s, s[i].0, s[i].1, k));
    } else {
        let n = t.len() - 1;
        assert(has_key(t, chat, message, n));
        let k = choose|j: int| has_key(t, chat, message, j);
        if k != n {
            if s.len() >= capacity {
                assert(has_key(s, chat, message, k + 1));
            } else {
                assert(has_key(s, chat, message, k));
            }
        }
    }
}

/// A store that holds nothing finds nothing.
pub proof fn lemma_get_unknown(chat: i64, message: i32)
    ensures
        lookup(Seq::<Slot>::empty(), chat, message) is None,
{
}

} // verus!
