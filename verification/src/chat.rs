//! Chat lifecycle and message routing.
//!
//! `create` establishes a chat and its two membership edges in one
//! transition, so a chat can never be observed with fewer than two
//! participants.  `message` resolves the target chat, appends the
//! stamped message, and records the Message-kind notification.
//! `get_all` renders a user's inbox: for every chat the user belongs
//! to, the other participant and the history sorted by timestamp.

use vstd::prelude::*;
use vstd::seq_lib::group_to_multiset_ensures;

use crate::clock::now_seconds;
use crate::error::AppError;
use crate::keys::decimal;
use crate::notification::Notification;
use crate::notification::NotificationType;
use crate::store::Chat;
use crate::store::ConversationStore;
use crate::store::Message;
use crate::store::lemma_counter_key_fresh;

verus! {

broadcast use group_to_multiset_ensures;

/// The client-originated wire message: the router's sole input.
#[derive(Debug, Clone, PartialEq)]
pub struct WsChatMessage {
    pub chat_id: String,
    pub from: String,
    pub to: String,
    pub body: String,
}

/// The other side of a conversation, as listed to a user.
#[derive(Debug, Clone, PartialEq)]
pub struct Participant {
    pub id: String,
}

/// A read projection of one chat for one user: never lists the
/// requesting user as the participant.
#[derive(Debug, Clone, PartialEq)]
pub struct ChatDto {
    pub chat_id: String,
    pub participant: Participant,
    pub messages: Vec<Message>,
}

/// Non-decreasing by timestamp.
pub open spec fn msgs_sorted(s: Seq<Message>) -> bool {
    forall|i: int, j: int| #![trigger s[i], s[j]] 0 <= i <= j < s.len() ==> s[i].timestamp <= s[j].timestamp
}

/// The wire message stamped with the server-side timestamp `t`.
pub open spec fn stamped(w: WsChatMessage, t: i64) -> Message {
    Message { from: w.from, to: w.to, body: w.body, timestamp: t }
}

fn clone_message(m: &Message) -> (r: Message)
    ensures
        r == *m,
{
    Message { from: m.from.clone(), to: m.to.clone(), body: m.body.clone(), timestamp: m.timestamp }
}

/// Inserts `m` behind every message with the same or an earlier
/// timestamp, keeping the history sorted.
fn sorted_insert(v: &mut Vec<Message>, m: Message)
    requires
        msgs_sorted(old(v)@),
    ensures
        msgs_sorted(final(v)@),
        final(v)@.to_multiset() == old(v)@.to_multiset().insert(m),
{
    let mut j: usize = 0;
    while j < v.len() && v[j].timestamp <= m.timestamp
        invariant
            j <= v@.len(),
            *v == *old(v),
            forall|i: int| 0 <= i < j ==> v@[i].timestamp <= m.timestamp,
        decreases v@.len() - j,
    {
        j = j + 1;
    }
    let ghost pre = v@;
    let ghost jj = j as int;
    v.insert(j, m);
    proof {
        assert forall|p: int, q: int| #![trigger v@[p], v@[q]] 0 <= p <= q < v@.len() implies v@[p].timestamp
            <= v@[q].timestamp by {
            if q > jj {
                assert(v@[q] == pre[q - 1]);
                assert(pre[q - 1].timestamp >= m.timestamp);
            }
            if p > jj {
                assert(v@[p] == pre[p - 1]);
            }
        }
        assert(v@.remove(jj) =~= pre);
        assert(v@[jj] == m);
        assert(v@.to_multiset().remove(m) =~= pre.to_multiset());
        assert(v@.contains(m));
        assert(v@.to_multiset().count(m) > 0);
        assert(v@.to_multiset() =~= pre.to_multiset().insert(m));
    }
}

/// A copy of the history, sorted non-decreasing by timestamp.
pub fn sort_messages(src: &Vec<Message>) -> (r: Vec<Message>)
    ensures
        msgs_sorted(r@),
        r@.to_multiset() == src@.to_multiset(),
{
    let mut out: Vec<Message> = Vec::new();
    let mut i: usize = 0;
    while i < src.len()
        invariant
            i <= src@.len(),
            msgs_sorted(out@),
            out@.to_multiset() == src@.take(i as int).to_multiset(),
        decreases src@.len() - i,
    {
        let m = clone_message(&src[i]);
        sorted_insert(&mut out, m);
        proof {
            assert(src@.take(i as int + 1) =~= src@.take(i as int).push(src@[i as int]));
        }
        i = i + 1;
    }
    proof {
        assert(src@.take(src@.len() as int) =~= src@);
    }
    out
}

/// The position of the chat keyed `key`, if any.
fn find_chat(chats: &Vec<Chat>, key: &String) -> (r: Option<usize>)
    ensures
        match r {
            Some(i) => i < chats@.len() && chats@[i as int].key@ == key@,
            None => forall|i: int| 0 <= i < chats@.len() ==> chats@[i].key@ != key@,
        },
{
    let mut i: usize = 0;
    while i < chats.len()
        invariant
            i <= chats@.len(),
            forall|j: int| 0 <= j < i ==> chats@[j].key@ != key@,
        decreases chats@.len() - i,
    {
        if chats[i].key == *key {
            return Some(i);
        }
        i = i + 1;
    }
    None
}

/// Establishes a chat between `profile_a` and `profile_b`: one chat
/// document and its two membership edges, inserted together so that no
/// chat is ever left with fewer than two participants.
pub fn create(store: &mut ConversationStore, profile_a: &str, profile_b: &str) -> (r: Result<
    (),
    AppError,
>)
    requires
        old(store).wf(),
        old(store).next_key <= u64::MAX - 3,
    ensures
        final(store).wf(),
        r is Ok,
        final(store).next_key == old(store).next_key + 3,
        final(store).chats@.len() == old(store).chats@.len() + 1,
        forall|i: int|
            0 <= i < old(store).chats@.len() ==> final(store).chats@[i] == old(store).chats@[i],
        final(store).chats@.last().key@ == decimal(old(store).next_key),
        final(store).chats@.last().messages@.len() == 0,
        final(store).connections@.len() == old(store).connections@.len() + 2,
        forall|i: int|
            0 <= i < old(store).connections@.len() ==> final(store).connections@[i] == old(store).connections@[i],
        final(store).connections@[final(store).connections@.len() - 2].profile_id@ == profile_a@,
        final(store).connections@[final(store).connections@.len() - 2].chat_key@ == decimal(
            old(store).next_key,
        ),
        final(store).connections@.last().profile_id@ == profile_b@,
        final(store).connections@.last().chat_key@ == decimal(old(store).next_key),
        forall|i: int|
            0 <= i < final(store).connections@.len() ==> ((final(store).connections@[i].chat_key@ == decimal(old(store).next_key)) <==> i >= old(store).connections@.len()),
        final(store).notifications == old(store).notifications,
{
    let chat_key = store.new_chat();
    proof {
        assert(store.chats@.last().key@ == chat_key@);
        assert(store.has_chat(chat_key@));
    }
    let _ = store.new_connection(profile_a, &chat_key);
    let _ = store.new_connection(profile_b, &chat_key);
    proof {
        assert forall|i: int|
            0 <= i < old(store).connections@.len() implies store.connections@[i].chat_key@
            != decimal(old(store).next_key) by {
            lemma_counter_key_fresh(old(store).connections@[i].chat_key@, old(store).next_key);
        }
    }
    Ok(())
}

/// What routing `w` at time `t` does to the store: the target chat gets
/// exactly one message appended, exactly one Message-kind notification
/// addressed to `w.to` from `w.from` is recorded, and nothing else
/// changes.
pub open spec fn message_applied(
    pre: ConversationStore,
    post: ConversationStore,
    w: WsChatMessage,
    t: i64,
) -> bool {
    &&& post.chats@.len() == pre.chats@.len()
    &&& forall|i: int|
        #![trigger post.chats@[i]]
        0 <= i < pre.chats@.len() && pre.chats@[i].key@ != w.chat_id@ ==> post.chats@[i]
            == pre.chats@[i]
    &&& forall|i: int|
        #![trigger post.chats@[i]]
        0 <= i < pre.chats@.len() && pre.chats@[i].key@ == w.chat_id@ ==> {
            &&& post.chats@[i].key@ == pre.chats@[i].key@
            &&& post.chats@[i].messages@ == pre.chats@[i].messages@.push(stamped(w, t))
        }
    &&& post.connections == pre.connections
    &&& post.notifications@.len() == pre.notifications@.len() + 1
    &&& forall|i: int|
        #![trigger post.notifications@[i]]
        0 <= i < pre.notifications@.len() ==> post.notifications@[i] == pre.notifications@[i]
    &&& post.notifications@.last().notification_type == NotificationType::Message
    &&& post.notifications@.last().target_profile@ == w.to@
    &&& post.notifications@.last().source_profile@ == w.from@
    &&& post.notifications@.last().read == false
    &&& post.notifications@.last().timestamp == t
    &&& post.notifications@.last().key@ == decimal(pre.next_key)
    &&& post.next_key == pre.next_key + 1
}

/// Routes one wire message at server time `now`.  Resolving an unknown
/// chat id is a reported failure, never a silent drop; on failure the
/// store is untouched.
pub fn message_at(store: &mut ConversationStore, wire: &WsChatMessage, now: i64) -> (r: Result<
    (),
    AppError,
>)
    requires
        old(store).wf(),
        old(store).next_key < u64::MAX,
    ensures
        final(store).wf(),
        r is Ok <==> old(store).has_chat(wire.chat_id@),
        r is Ok ==> message_applied(*old(store), *final(store), *wire, now),
        r is Err ==> *final(store) == *old(store) && r == Err::<(), AppError>(AppError::NotFound),
{
    let idx = match find_chat(&store.chats, &wire.chat_id) {
        Some(idx) => idx,
        None => {
            return Err(AppError::NotFound);
        },
    };
    let ghost pre = *old(store);
    let mut chat = store.chats.remove(idx);
    let m = Message {
        from: wire.from.clone(),
        to: wire.to.clone(),
        body: wire.body.clone(),
        timestamp: now,
    };
    chat.messages.push(m);
    store.chats.insert(idx, chat);
    proof {
        assert(store.chats@.len() == pre.chats@.len());
        assert(store.chats@[idx as int].key@ == wire.chat_id@);
        assert(store.chats@[idx as int].messages@ == pre.chats@[idx as int].messages@.push(
            stamped(*wire, now),
        ));
        assert forall|i: int|
            0 <= i < store.chats@.len() && i != idx as int implies store.chats@[i] == pre.chats@[i] by {
            assert(store.chats@ == pre.chats@.remove(idx as int).insert(
                idx as int,
                store.chats@[idx as int],
            ));
        }
        assert(store.chat_keys() =~= pre.chat_keys());
        assert(store.wf());
    }
    let n = Notification {
        key: String::new(),
        notification_type: NotificationType::Message,
        timestamp: now,
        target_profile: wire.to.clone(),
        source_profile: wire.from.clone(),
        read: false,
    };
    let notification_key = store.new_notification(n);
    proof {
        assert forall|i: int|
            #![trigger store.chats@[i]]
            0 <= i < pre.chats@.len() && pre.chats@[i].key@ == wire.chat_id@ implies {
            &&& store.chats@[i].key@ == pre.chats@[i].key@
            &&& store.chats@[i].messages@ == pre.chats@[i].messages@.push(stamped(*wire, now))
        } by {
            pre.lemma_chat_index(i);
            pre.lemma_chat_index(idx as int);
        }
        assert(message_applied(pre, *store, *wire, now));
    }
    Ok(())
}

/// Routes one wire message, stamping the current server time.
pub fn message(store: &mut ConversationStore, wire: &WsChatMessage) -> (r: Result<
    (),
    AppError,
>)
    requires
        old(store).wf(),
        old(store).next_key < u64::MAX,
    ensures
        final(store).wf(),
        r is Ok <==> old(store).has_chat(wire.chat_id@),
        r is Ok ==> exists|t: i64| message_applied(*old(store), *final(store), *wire, t),
        r is Err ==> *final(store) == *old(store) && r == Err::<(), AppError>(AppError::NotFound),
{
    let now = now_seconds();
    let r = message_at(store, wire, now);
    proof {
        if r is Ok {
            assert(message_applied(*old(store), *store, *wire, now));
        }
    }
    r
}

/// Routing two wire messages into two different chats is free of
/// cross-chat interference: the second routing leaves the first chat
/// exactly as the first routing left it, and the first routing never
/// touched the second chat.
pub proof fn lemma_no_cross_chat_interference(
    s0: ConversationStore,
    s1: ConversationStore,
    s2: ConversationStore,
    w1: WsChatMessage,
    w2: WsChatMessage,
    t1: i64,
    t2: i64,
)
    requires
        message_applied(s0, s1, w1, t1),
        message_applied(s1, s2, w2, t2),
        w1.chat_id@ != w2.chat_id@,
    ensures
        forall|i: int|
            #![trigger s0.chats@[i]]
            0 <= i < s0.chats@.len() && s0.chats@[i].key@ == w1.chat_id@ ==> s2.chats@[i]
                == s1.chats@[i],
        forall|i: int|
            #![trigger s0.chats@[i]]
            0 <= i < s0.chats@.len() && s0.chats@[i].key@ == w2.chat_id@ ==> s1.chats@[i]
                == s0.chats@[i] && s2.chats@[i].messages@ == s0.chats@[i].messages@.push(
                stamped(w2, t2),
            ),
{
    assert forall|i: int|
        #![trigger s0.chats@[i]]
        0 <= i < s0.chats@.len() && s0.chats@[i].key@ == w1.chat_id@ implies s2.chats@[i]
        == s1.chats@[i] by {
        assert(s1.chats@[i].key@ == s0.chats@[i].key@);
    }
    assert forall|i: int|
        #![trigger s0.chats@[i]]
        0 <= i < s0.chats@.len() && s0.chats@[i].key@ == w2.chat_id@ implies s1.chats@[i]
        == s0.chats@[i] && s2.chats@[i].messages@ == s0.chats@[i].messages@.push(
        stamped(w2, t2),
    ) by {
        assert(s1.chats@[i] == s0.chats@[i]);
    }
}

/// Routing two wire messages into the same chat loses neither: the
/// history ends with both messages, in routing order.
pub proof fn lemma_same_chat_no_lost_update(
    s0: ConversationStore,
    s1: ConversationStore,
    s2: ConversationStore,
    w1: WsChatMessage,
    w2: WsChatMessage,
    t1: i64,
    t2: i64,
)
    requires
        message_applied(s0, s1, w1, t1),
        message_applied(s1, s2, w2, t2),
        w1.chat_id@ == w2.chat_id@,
    ensures
        forall|i: int|
            #![trigger s0.chats@[i]]
            0 <= i < s0.chats@.len() && s0.chats@[i].key@ == w1.chat_id@ ==> s2.chats@[i].messages@
                == s0.chats@[i].messages@.push(stamped(w1, t1)).push(stamped(w2, t2)),
{
    assert forall|i: int|
        #![trigger s0.chats@[i]]
        0 <= i < s0.chats@.len() && s0.chats@[i].key@ == w1.chat_id@ implies s2.chats@[i].messages@
        == s0.chats@[i].messages@.push(stamped(w1, t1)).push(stamped(w2, t2)) by {
        assert(s1.chats@[i].key@ == s0.chats@[i].key@);
    }
}

/// Whether some edge links `profile` to the chat keyed `chat_key`.
fn has_connection_exec(store: &ConversationStore, profile: &String, chat_key: &String) -> (r: bool)
    ensures
        r == store.has_connection(profile@, chat_key@),
{
    let mut i: usize = 0;
    while i < store.connections.len()
        invariant
            i <= store.connections@.len(),
            forall|j: int|
                0 <= j < i ==> !(store.connections@[j].profile_id@ == profile@
                    && store.connections@[j].chat_key@ == chat_key@),
        decreases store.connections@.len() - i,
    {
        if store.connections[i].profile_id == *profile && store.connections[i].chat_key
            == *chat_key {
            return true;
        }
        i = i + 1;
    }
    false
}

/// The first participant of the chat keyed `chat_key` other than
/// `user`, if the chat has one.
fn find_other(store: &ConversationStore, chat_key: &String, user: &String) -> (r: Option<
    Participant,
>)
    ensures
        match r {
            Some(p) => p.id@ != user@ && store.has_connection(p.id@, chat_key@),
            None => !store.has_other_participant(chat_key@, user@),
        },
{
    let mut i: usize = 0;
    while i < store.connections.len()
        invariant
            i <= store.connections@.len(),
            forall|j: int|
                0 <= j < i ==> !(store.connections@[j].chat_key@ == chat_key@
                    && store.connections@[j].profile_id@ != user@),
        decreases store.connections@.len() - i,
    {
        if store.connections[i].chat_key == *chat_key && !(store.connections[i].profile_id
            == *user) {
            return Some(Participant { id: store.connections[i].profile_id.clone() });
        }
        i = i + 1;
    }
    None
}

/// The user's inbox: one entry per chat the user belongs to that has
/// another participant, with that participant's identity and the
/// history sorted by timestamp.  A chat without another participant is
/// skipped, not reported as an error.
pub fn get_all(store: &ConversationStore, user: &String) -> (r: Vec<ChatDto>)
    requires
        store.wf(),
    ensures
        forall|ri: int|
            #![trigger r@[ri]]
            0 <= ri < r@.len() ==> {
                &&& r@[ri].participant.id@ != user@
                &&& msgs_sorted(r@[ri].messages@)
                &&& store.has_chat(r@[ri].chat_id@)
                &&& r@[ri].messages@.to_multiset() == store.chat_messages(
                    r@[ri].chat_id@,
                ).to_multiset()
                &&& store.has_connection(user@, r@[ri].chat_id@)
                &&& store.has_connection(r@[ri].participant.id@, r@[ri].chat_id@)
            },
        forall|ci: int|
            #![trigger store.chats@[ci]]
            0 <= ci < store.chats@.len() && store.has_connection(user@, store.chats@[ci].key@)
                && store.has_other_participant(store.chats@[ci].key@, user@) ==> exists|ri: int|
                0 <= ri < r@.len() && r@[ri].chat_id@ == store.chats@[ci].key@,
        forall|a: int, b: int|
            #![trigger r@[a], r@[b]]
            0 <= a < b < r@.len() ==> r@[a].chat_id@ != r@[b].chat_id@,
{
    let mut dtos: Vec<ChatDto> = Vec::new();
    let mut ci: usize = 0;
    while ci < store.chats.len()
        invariant
            store.wf(),
            ci <= store.chats@.len(),
            forall|ri: int|
                #![trigger dtos@[ri]]
                0 <= ri < dtos@.len() ==> {
                    &&& dtos@[ri].participant.id@ != user@
                    &&& msgs_sorted(dtos@[ri].messages@)
                    &&& store.has_chat(dtos@[ri].chat_id@)
                    &&& dtos@[ri].messages@.to_multiset() == store.chat_messages(
                        dtos@[ri].chat_id@,
                    ).to_multiset()
                    &&& store.has_connection(user@, dtos@[ri].chat_id@)
                    &&& store.has_connection(dtos@[ri].participant.id@, dtos@[ri].chat_id@)
                },
            forall|cj: int|
                #![trigger store.chats@[cj]]
                0 <= cj < ci && store.has_connection(user@, store.chats@[cj].key@)
                    && store.has_other_participant(store.chats@[cj].key@, user@) ==> exists|ri: int|
                    0 <= ri < dtos@.len() && dtos@[ri].chat_id@ == store.chats@[cj].key@,
            forall|ri: int|
                #![trigger dtos@[ri]]
                0 <= ri < dtos@.len() ==> exists|cj: int|
                    0 <= cj < ci && dtos@[ri].chat_id@ == store.chats@[cj].key@,
            forall|a: int, b: int|
                #![trigger dtos@[a], dtos@[b]]
                0 <= a < b < dtos@.len() ==> dtos@[a].chat_id@ != dtos@[b].chat_id@,
        decreases store.chats@.len() - ci,
    {
        let ghost dtos0 = dtos@;
        let connected = has_connection_exec(store, user, &store.chats[ci].key);
        if connected {
            match find_other(store, &store.chats[ci].key, user) {
                Some(p) => {
                    let msgs = sort_messages(&store.chats[ci].messages);
                    proof {
                        store.lemma_chat_index(ci as int);
                    }
                    let dto = ChatDto {
                        chat_id: store.chats[ci].key.clone(),
                        participant: p,
                        messages: msgs,
                    };
                    dtos.push(dto);
                    proof {
                        assert forall|cj: int|
                            #![trigger store.chats@[cj]]
                            0 <= cj < ci as int + 1 && store.has_connection(
                                user@,
                                store.chats@[cj].key@,
                            ) && store.has_other_participant(
                                store.chats@[cj].key@,
                                user@,
                            ) implies exists|ri: int|
                            0 <= ri < dtos@.len() && dtos@[ri].chat_id@
                                == store.chats@[cj].key@ by {
                            if cj < ci as int {
                                let ri = choose|ri: int|
                                    0 <= ri < dtos0.len() && dtos0[ri].chat_id@
                                        == store.chats@[cj].key@;
                                assert(dtos@[ri].chat_id@ == store.chats@[cj].key@);
                            } else {
                                assert(dtos@[dtos@.len() - 1].chat_id@
                                    == store.chats@[cj].key@);
                            }
                        }
                        assert forall|a: int|
                            0 <= a < dtos@.len() - 1 implies dtos@[a].chat_id@
                            != store.chats@[ci as int].key@ by {
                            let cj = choose|cj: int|
                                0 <= cj < ci as int && dtos0[a].chat_id@
                                    == store.chats@[cj].key@;
                            assert(store.chat_keys()[cj] == store.chats@[cj].key@);
                            assert(store.chat_keys()[ci as int] == store.chats@[ci as int].key@);
                            assert(store.chat_keys()[cj] != store.chat_keys()[ci as int]);
                        }
                        assert(dtos@[dtos@.len() - 1].chat_id@ == store.chats@[ci as int].key@);
                    }
                },
                None => {
                },
            }
        }
        ci = ci + 1;
    }
    dtos
}

} // verus!
