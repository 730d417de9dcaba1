//! The conversation store: chats, membership edges and notifications.
//!
//! The store is modelled as a value holding the three collections and
//! the counter from which document keys are assigned.  Every operation
//! of the library is a transition over such a value; the process edge
//! maps the transitions onto the real document store and feeds its
//! failures back as [`crate::error::AppError::Upstream`].

use vstd::prelude::*;

use crate::keys::decimal;
use crate::keys::decimal_string;
use crate::keys::lemma_decimal_injective;
use crate::notification::Notification;

verus! {

/// One chat message. Immutable once appended; `timestamp` (epoch
/// seconds) is stamped by the router, never trusted from the client.
#[derive(Debug, Clone, PartialEq)]
pub struct Message {
    pub from: String,
    pub to: String,
    pub body: String,
    pub timestamp: i64,
}

/// A conversation: its store key and its ordered-by-insertion history.
#[derive(Debug, Clone, PartialEq)]
pub struct Chat {
    pub key: String,
    pub messages: Vec<Message>,
}

/// A membership edge linking one profile to one chat. Two per chat.
#[derive(Debug, Clone, PartialEq)]
pub struct ChatConnection {
    pub key: String,
    pub profile_id: String,
    pub chat_key: String,
}

/// `k` was assigned by a store whose key counter has since reached
/// `bound`: it is the decimal rendering of some earlier counter value.
pub open spec fn key_from_counter(k: Seq<char>, bound: u64) -> bool {
    exists|n: u64| n < bound && k == decimal(n)
}

/// A key assigned below `bound` differs from the key assigned at `bound`.
pub proof fn lemma_counter_key_fresh(k: Seq<char>, bound: u64)
    requires
        key_from_counter(k, bound),
    ensures
        k != decimal(bound),
{
    let n = choose|n: u64| n < bound && k == decimal(n);
    if k == decimal(bound) {
        lemma_decimal_injective(n, bound);
    }
}

pub proof fn lemma_counter_key_mono(k: Seq<char>, b: u64, c: u64)
    requires
        key_from_counter(k, b),
        b <= c,
    ensures
        key_from_counter(k, c),
{
    let n = choose|n: u64| n < b && k == decimal(n);
    assert(n < c && k == decimal(n));
}

/// The keys of one collection: all assigned by the counter, pairwise
/// distinct.
pub open spec fn keys_wf(ks: Seq<Seq<char>>, bound: u64) -> bool {
    &&& forall|i: int| 0 <= i < ks.len() ==> key_from_counter(#[trigger] ks[i], bound)
    &&& forall|i: int, j: int| #![trigger ks[i], ks[j]] 0 <= i < j < ks.len() ==> ks[i] != ks[j]
}

pub proof fn lemma_keys_wf_mono(ks: Seq<Seq<char>>, b: u64, c: u64)
    requires
        keys_wf(ks, b),
        b <= c,
    ensures
        keys_wf(ks, c),
{
    assert forall|i: int| 0 <= i < ks.len() implies key_from_counter(#[trigger] ks[i], c) by {
        lemma_counter_key_mono(ks[i], b, c);
    }
}

pub proof fn lemma_keys_wf_push(ks: Seq<Seq<char>>, b: u64)
    requires
        keys_wf(ks, b),
        b < u64::MAX,
    ensures
        keys_wf(ks.push(decimal(b)), (b + 1) as u64),
{
    let c = (b + 1) as u64;
    let ks2 = ks.push(decimal(b));
    assert forall|i: int| 0 <= i < ks2.len() implies key_from_counter(#[trigger] ks2[i], c) by {
        if i < ks.len() {
            lemma_counter_key_mono(ks[i], b, c);
        } else {
            assert(ks2[i] == decimal(b));
            assert(b < c && ks2[i] == decimal(b));
        }
    }
    assert forall|i: int, j: int| #![trigger ks2[i], ks2[j]] 0 <= i < j < ks2.len() implies ks2[i]
        != ks2[j] by {
        if j == ks.len() {
            lemma_counter_key_fresh(ks[i], b);
        }
    }
}

pub proof fn lemma_keys_wf_remove(ks: Seq<Seq<char>>, b: u64, i: int)
    requires
        keys_wf(ks, b),
        0 <= i < ks.len(),
    ensures
        keys_wf(ks.remove(i), b),
{
    let ks2 = ks.remove(i);
    assert forall|p: int| 0 <= p < ks2.len() implies key_from_counter(#[trigger] ks2[p], b) by {
        if p < i {
            assert(ks2[p] == ks[p]);
        } else {
            assert(ks2[p] == ks[p + 1]);
        }
    }
    assert forall|p: int, q: int| #![trigger ks2[p], ks2[q]] 0 <= p < q < ks2.len() implies ks2[p]
        != ks2[q] by {
        let p0: int = if p < i { p } else { p + 1 };
        let q0: int = if q < i { q } else { q + 1 };
        assert(ks2[p] == ks[p0]);
        assert(ks2[q] == ks[q0]);
    }
}

/// The persistent state of the conversation core.
#[derive(Debug, Clone, PartialEq)]
pub struct ConversationStore {
    pub chats: Vec<Chat>,
    pub connections: Vec<ChatConnection>,
    pub notifications: Vec<Notification>,
    pub next_key: u64,
}

impl ConversationStore {
    pub open spec fn chat_keys(self) -> Seq<Seq<char>> {
        self.chats@.map_values(|c: Chat| c.key@)
    }

    pub open spec fn notification_keys(self) -> Seq<Seq<char>> {
        self.notifications@.map_values(|n: Notification| n.key@)
    }

    /// Well-formedness: keys within each keyed collection were assigned
    /// by the counter and are pairwise distinct, and every membership
    /// edge points at a store-assigned chat key.
    pub open spec fn wf(self) -> bool {
        &&& keys_wf(self.chat_keys(), self.next_key)
        &&& keys_wf(self.notification_keys(), self.next_key)
        &&& forall|i: int|
            0 <= i < self.connections@.len() ==> key_from_counter(
                #[trigger] self.connections@[i].chat_key@,
                self.next_key,
            )
    }

    pub open spec fn has_chat(self, k: Seq<char>) -> bool {
        exists|i: int| 0 <= i < self.chats@.len() && self.chats@[i].key@ == k
    }

    pub open spec fn chat_index(self, k: Seq<char>) -> int {
        choose|i: int| 0 <= i < self.chats@.len() && self.chats@[i].key@ == k
    }

    /// The history of the chat keyed `k` (meaningful under `has_chat`).
    pub open spec fn chat_messages(self, k: Seq<char>) -> Seq<Message> {
        self.chats@[self.chat_index(k)].messages@
    }

    pub open spec fn has_connection(self, profile: Seq<char>, chat_key: Seq<char>) -> bool {
        exists|i: int|
            0 <= i < self.connections@.len() && self.connections@[i].profile_id@ == profile
                && self.connections@[i].chat_key@ == chat_key
    }

    /// Some edge of chat `k` belongs to a profile other than `u`.
    pub open spec fn has_other_participant(self, k: Seq<char>, u: Seq<char>) -> bool {
        exists|i: int|
            0 <= i < self.connections@.len() && self.connections@[i].chat_key@ == k
                && self.connections@[i].profile_id@ != u
    }

    pub open spec fn has_notification(self, k: Seq<char>) -> bool {
        exists|i: int| 0 <= i < self.notifications@.len() && self.notifications@[i].key@ == k
    }

    pub open spec fn notification_index(self, k: Seq<char>) -> int {
        choose|i: int| 0 <= i < self.notifications@.len() && self.notifications@[i].key@ == k
    }

    /// In a well-formed store a chat key identifies a single position:
    /// `chat_index` of the key of the chat at `i` is `i` itself.
    pub proof fn lemma_chat_index(self, i: int)
        requires
            self.wf(),
            0 <= i < self.chats@.len(),
        ensures
            self.has_chat(self.chats@[i].key@),
            self.chat_index(self.chats@[i].key@) == i,
    {
        let k = self.chats@[i].key@;
        assert(self.has_chat(k));
        let j = self.chat_index(k);
        assert(0 <= j < self.chats@.len() && self.chats@[j].key@ == k);
        assert(self.chat_keys()[i] == k);
        assert(self.chat_keys()[j] == k);
        if i != j {
            assert(self.chat_keys()[i] != self.chat_keys()[j]);
        }
    }

    /// The notification counterpart of `lemma_chat_index`.
    pub proof fn lemma_notification_index(self, i: int)
        requires
            self.wf(),
            0 <= i < self.notifications@.len(),
        ensures
            self.has_notification(self.notifications@[i].key@),
            self.notification_index(self.notifications@[i].key@) == i,
    {
        let k = self.notifications@[i].key@;
        assert(self.has_notification(k));
        let j = self.notification_index(k);
        assert(0 <= j < self.notifications@.len() && self.notifications@[j].key@ == k);
        assert(self.notification_keys()[i] == k);
        assert(self.notification_keys()[j] == k);
        if i != j {
            assert(self.notification_keys()[i] != self.notification_keys()[j]);
        }
    }

    /// An empty store, with the key counter at its start.
    pub fn new() -> (s: Self)
        ensures
            s.wf(),
            s.chats@.len() == 0,
            s.connections@.len() == 0,
            s.notifications@.len() == 0,
            s.next_key == 1,
    {
        let s = ConversationStore {
            chats: Vec::new(),
            connections: Vec::new(),
            notifications: Vec::new(),
            next_key: 1,
        };
        proof {
            assert(s.chat_keys().len() == 0);
            assert(s.notification_keys().len() == 0);
        }
        s
    }

    /// Inserts an empty chat document and returns its assigned key.
    pub fn new_chat(&mut self) -> (k: String)
        requires
            old(self).wf(),
            old(self).next_key < u64::MAX,
        ensures
            final(self).wf(),
            k@ == decimal(old(self).next_key),
            !old(self).has_chat(k@),
            final(self).next_key == old(self).next_key + 1,
            final(self).chats@.len() == old(self).chats@.len() + 1,
            forall|i: int| 0 <= i < old(self).chats@.len() ==> final(self).chats@[i] == old(self).chats@[i],
            final(self).chats@.last().key@ == k@,
            final(self).chats@.last().messages@.len() == 0,
            final(self).connections == old(self).connections,
            final(self).notifications == old(self).notifications,
    {
        let k = decimal_string(self.next_key);
        let c = Chat { key: k.clone(), messages: Vec::new() };
        self.chats.push(c);
        self.next_key = self.next_key + 1;
        proof {
            let pre = *old(self);
            assert(self.chat_keys() =~= pre.chat_keys().push(decimal(pre.next_key)));
            lemma_keys_wf_push(pre.chat_keys(), pre.next_key);
            lemma_keys_wf_mono(pre.notification_keys(), pre.next_key, self.next_key);
            assert(self.notification_keys() =~= pre.notification_keys());
            assert forall|i: int|
                0 <= i < self.connections@.len() implies key_from_counter(
                #[trigger] self.connections@[i].chat_key@,
                self.next_key,
            ) by {
                lemma_counter_key_mono(self.connections@[i].chat_key@, pre.next_key, self.next_key);
            }
            if pre.has_chat(k@) {
                let i = choose|i: int| 0 <= i < pre.chats@.len() && pre.chats@[i].key@ == k@;
                assert(pre.chat_keys()[i] == k@);
                lemma_counter_key_fresh(pre.chat_keys()[i], pre.next_key);
            }
        }
        k
    }

    /// Inserts a membership edge for an existing chat and returns the
    /// edge's assigned key.
    pub fn new_connection(&mut self, profile_id: &str, chat_key: &String) -> (k: String)
        requires
            old(self).wf(),
            old(self).next_key < u64::MAX,
            old(self).has_chat(chat_key@),
        ensures
            final(self).wf(),
            k@ == decimal(old(self).next_key),
            final(self).next_key == old(self).next_key + 1,
            final(self).connections@.len() == old(self).connections@.len() + 1,
            forall|i: int|
                0 <= i < old(self).connections@.len() ==> final(self).connections@[i] == old(self).connections@[i],
            final(self).connections@.last().key@ == k@,
            final(self).connections@.last().profile_id@ == profile_id@,
            final(self).connections@.last().chat_key@ == chat_key@,
            final(self).chats == old(self).chats,
            final(self).notifications == old(self).notifications,
    {
        let k = decimal_string(self.next_key);
        let e = ChatConnection {
            key: k.clone(),
            profile_id: profile_id.to_owned(),
            chat_key: chat_key.clone(),
        };
        self.connections.push(e);
        self.next_key = self.next_key + 1;
        proof {
            let pre = *old(self);
            assert(self.chat_keys() =~= pre.chat_keys());
            assert(self.notification_keys() =~= pre.notification_keys());
            lemma_keys_wf_mono(pre.chat_keys(), pre.next_key, self.next_key);
            lemma_keys_wf_mono(pre.notification_keys(), pre.next_key, self.next_key);
            assert forall|i: int|
                0 <= i < self.connections@.len() implies key_from_counter(
                #[trigger] self.connections@[i].chat_key@,
                self.next_key,
            ) by {
                if i < pre.connections@.len() {
                    lemma_counter_key_mono(
                        self.connections@[i].chat_key@,
                        pre.next_key,
                        self.next_key,
                    );
                } else {
                    let j = choose|j: int|
                        0 <= j < pre.chats@.len() && pre.chats@[j].key@ == chat_key@;
                    assert(pre.chat_keys()[j] == chat_key@);
                    assert(key_from_counter(chat_key@, pre.next_key));
                    lemma_counter_key_mono(chat_key@, pre.next_key, self.next_key);
                }
            }
        }
        k
    }

    /// Inserts a notification document carrying `n`'s fields and
    /// returns its assigned key.
    pub fn new_notification(&mut self, n: Notification) -> (k: String)
        requires
            old(self).wf(),
            old(self).next_key < u64::MAX,
        ensures
            final(self).wf(),
            k@ == decimal(old(self).next_key),
            final(self).next_key == old(self).next_key + 1,
            final(self).notifications@.len() == old(self).notifications@.len() + 1,
            forall|i: int|
                0 <= i < old(self).notifications@.len() ==> final(self).notifications@[i] == old(self).notifications@[i],
            final(self).notifications@.last().key@ == k@,
            final(self).notifications@.last().notification_type == n.notification_type,
            final(self).notifications@.last().timestamp == n.timestamp,
            final(self).notifications@.last().target_profile == n.target_profile,
            final(self).notifications@.last().source_profile == n.source_profile,
            final(self).notifications@.last().read == n.read,
            final(self).chats == old(self).chats,
            final(self).connections == old(self).connections,
    {
        let k = decimal_string(self.next_key);
        let doc = Notification {
            key: k.clone(),
            notification_type: n.notification_type,
            timestamp: n.timestamp,
            target_profile: n.target_profile,
            source_profile: n.source_profile,
            read: n.read,
        };
        self.notifications.push(doc);
        self.next_key = self.next_key + 1;
        proof {
            let pre = *old(self);
            assert(self.notification_keys() =~= pre.notification_keys().push(
                decimal(pre.next_key),
            ));
            lemma_keys_wf_push(pre.notification_keys(), pre.next_key);
            lemma_keys_wf_mono(pre.chat_keys(), pre.next_key, self.next_key);
            assert(self.chat_keys() =~= pre.chat_keys());
            assert forall|i: int|
                0 <= i < self.connections@.len() implies key_from_counter(
                #[trigger] self.connections@[i].chat_key@,
                self.next_key,
            ) by {
                lemma_counter_key_mono(self.connections@[i].chat_key@, pre.next_key, self.next_key);
            }
        }
        k
    }
}

} // verus!
