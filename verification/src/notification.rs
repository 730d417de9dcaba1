//! Durable, typed event records and their dispatcher.
//!
//! A notification is created unread with the event's timestamp, and is
//! only ever mutated by read-state toggling, singly or in bulk.  At
//! read time the kind is translated into one of five fixed phrases and
//! the timestamp into a relative-time rendering.

use vstd::prelude::*;
use vstd::string::StringExecFns;

use crate::clock::humanize_seconds;
use crate::clock::now_seconds;
use crate::error::AppError;
use crate::profile::ProfileThumbnail;
use crate::store::ConversationStore;
use crate::store::lemma_keys_wf_remove;

verus! {

/// The kind of life-cycle event a notification records.
#[derive(Clone, Copy, Debug, PartialEq, Eq, Structural)]
pub enum NotificationType {
    Like,
    Visit,
    Message,
    LikeBack,
    Unlike,
}

/// A persisted notification document.
///
/// `key` is assigned by the store on creation and is empty before that;
/// `read` starts out false and is the only field that is ever patched.
#[derive(Debug, Clone, PartialEq)]
pub struct Notification {
    pub key: String,
    pub notification_type: NotificationType,
    pub timestamp: i64,
    pub target_profile: String,
    pub source_profile: String,
    pub read: bool,
}

/// A reduced notification for bulk patching: only the key and the
/// read flag travel.
#[derive(Debug, Clone, PartialEq)]
pub struct NotificationSlice {
    pub key: String,
    pub read: bool,
}

impl NotificationSlice {
    /// A slice from a bare notification id: always marks it read —
    /// this conversion exists solely for "mark all as read".
    pub fn from(id: String) -> (r: Self)
        ensures
            r.key == id,
            r.read == true,
    {
        NotificationSlice { key: id, read: true }
    }
}

/// The read flag the bulk patch `s` leaves for key `k`: the last slice
/// naming `k` wins; `None` when no slice names `k`.
pub open spec fn last_read(s: Seq<NotificationSlice>, k: Seq<char>) -> Option<bool>
    decreases s.len(),
{
    if s.len() == 0 {
        None
    } else if s.last().key@ == k {
        Some(s.last().read)
    } else {
        last_read(s.drop_last(), k)
    }
}

/// The notifications of `s` addressed to `k`, in store order.
pub open spec fn targeted(s: Seq<Notification>, k: Seq<char>) -> Seq<Notification>
    decreases s.len(),
{
    if s.len() == 0 {
        Seq::empty()
    } else if s.last().target_profile@ == k {
        targeted(s.drop_last(), k).push(s.last())
    } else {
        targeted(s.drop_last(), k)
    }
}

/// The position of the notification keyed `key`, if any.
fn find_notification(ns: &Vec<Notification>, key: &String) -> (r: Option<usize>)
    ensures
        match r {
            Some(i) => i < ns@.len() && ns@[i as int].key@ == key@,
            None => forall|i: int| 0 <= i < ns@.len() ==> ns@[i].key@ != key@,
        },
{
    let mut i: usize = 0;
    while i < ns.len()
        invariant
            i <= ns@.len(),
            forall|j: int| 0 <= j < i ==> ns@[j].key@ != key@,
        decreases ns@.len() - i,
    {
        if ns[i].key == *key {
            return Some(i);
        }
        i = i + 1;
    }
    None
}

impl Notification {
    /// A fresh, unread notification for the given event, stamped with
    /// the current server time; its key is empty until `create`.
    pub fn new(
        notification_type: NotificationType,
        target_profile: &str,
        source_profile: &str,
    ) -> (r: Self)
        ensures
            r.key@.len() == 0,
            r.notification_type == notification_type,
            r.target_profile@ == target_profile@,
            r.source_profile@ == source_profile@,
            r.read == false,
    {
        let now = now_seconds();
        Self::new_at(notification_type, target_profile, source_profile, now)
    }

    /// As `new`, but with the event time supplied by the caller.
    pub fn new_at(
        notification_type: NotificationType,
        target_profile: &str,
        source_profile: &str,
        timestamp: i64,
    ) -> (r: Self)
        ensures
            r.key@.len() == 0,
            r.notification_type == notification_type,
            r.timestamp == timestamp,
            r.target_profile@ == target_profile@,
            r.source_profile@ == source_profile@,
            r.read == false,
    {
        Notification {
            key: String::new(),
            notification_type,
            timestamp,
            target_profile: target_profile.to_owned(),
            source_profile: source_profile.to_owned(),
            read: false,
        }
    }

    /// The store document URL for this notification under `db_url`.
    pub fn key_url(&self, db_url: &str) -> (r: String)
        ensures
            r@ == db_url@ + "_api/document/notifications/"@ + self.key@,
    {
        let mut url = db_url.to_owned();
        url.append("_api/document/notifications/");
        url.append(self.key.as_str());
        url
    }

    /// Persists this notification: the store assigns its key, which is
    /// written back into `self`.
    pub fn create(&mut self, store: &mut ConversationStore) -> (r: Result<(), AppError>)
        requires
            old(store).wf(),
            old(store).next_key < u64::MAX,
        ensures
            final(store).wf(),
            r is Ok,
            final(self).key@ == crate::keys::decimal(old(store).next_key),
            final(self).notification_type == old(self).notification_type,
            final(self).timestamp == old(self).timestamp,
            final(self).target_profile == old(self).target_profile,
            final(self).source_profile == old(self).source_profile,
            final(self).read == old(self).read,
            final(store).next_key == old(store).next_key + 1,
            final(store).notifications@.len() == old(store).notifications@.len() + 1,
            forall|i: int|
                0 <= i < old(store).notifications@.len() ==> final(store).notifications@[i] == old(
                    store,
                ).notifications@[i],
            final(store).notifications@.last().key@ == final(self).key@,
            final(store).notifications@.last().notification_type == old(self).notification_type,
            final(store).notifications@.last().timestamp == old(self).timestamp,
            final(store).notifications@.last().target_profile == old(self).target_profile,
            final(store).notifications@.last().source_profile == old(self).source_profile,
            final(store).notifications@.last().read == old(self).read,
            final(store).chats == old(store).chats,
            final(store).connections == old(store).connections,
    {
        let doc = Notification {
            key: String::new(),
            notification_type: self.notification_type,
            timestamp: self.timestamp,
            target_profile: self.target_profile.clone(),
            source_profile: self.source_profile.clone(),
            read: self.read,
        };
        let assigned = store.new_notification(doc);
        self.key = assigned;
        Ok(())
    }

    /// Patches the stored document keyed like `self` to carry exactly
    /// `self`'s fields.  An unknown key is a reported failure and
    /// leaves the store untouched.
    pub fn update(&self, store: &mut ConversationStore) -> (r: Result<(), AppError>)
        requires
            old(store).wf(),
        ensures
            final(store).wf(),
            r is Ok <==> old(store).has_notification(self.key@),
            r is Ok ==> final(store).notifications@.len() == old(store).notifications@.len(),
            r is Ok ==> forall|i: int|
                #![trigger final(store).notifications@[i]]
                0 <= i < old(store).notifications@.len() ==> if old(
                    store,
                ).notifications@[i].key@ == self.key@ {
                    &&& final(store).notifications@[i].key@ == self.key@
                    &&& final(store).notifications@[i].notification_type
                        == self.notification_type
                    &&& final(store).notifications@[i].timestamp == self.timestamp
                    &&& final(store).notifications@[i].target_profile@ == self.target_profile@
                    &&& final(store).notifications@[i].source_profile@ == self.source_profile@
                    &&& final(store).notifications@[i].read == self.read
                } else {
                    final(store).notifications@[i] == old(store).notifications@[i]
                },
            r is Err ==> *final(store) == *old(store) && r == Err::<(), AppError>(
                AppError::NotFound,
            ),
            final(store).chats == old(store).chats,
            final(store).connections == old(store).connections,
            final(store).next_key == old(store).next_key,
    {
        let idx = match find_notification(&store.notifications, &self.key) {
            Some(idx) => idx,
            None => {
                return Err(AppError::NotFound);
            },
        };
        let ghost pre = *old(store);
        let stored = store.notifications.remove(idx);
        let doc = Notification {
            key: stored.key,
            notification_type: self.notification_type,
            timestamp: self.timestamp,
            target_profile: self.target_profile.clone(),
            source_profile: self.source_profile.clone(),
            read: self.read,
        };
        store.notifications.insert(idx, doc);
        proof {
            assert forall|i: int|
                #![trigger store.notifications@[i]]
                0 <= i < store.notifications@.len() && i != idx as int implies store
                .notifications@[i] == pre.notifications@[i] by {
                assert(store.notifications@ == pre.notifications@.remove(idx as int).insert(
                    idx as int,
                    store.notifications@[idx as int],
                ));
            }
            assert(store.notification_keys() =~= pre.notification_keys());
            assert(store.wf());
            assert forall|i: int|
                #![trigger store.notifications@[i]]
                0 <= i < pre.notifications@.len() && pre.notifications@[i].key@ == self.key@
                    implies i == idx as int by {
                pre.lemma_notification_index(i);
                pre.lemma_notification_index(idx as int);
            }
        }
        Ok(())
    }

    /// Applies a bulk read-state patch in order, without reordering or
    /// dropping entries: for every stored notification the last slice
    /// naming its key decides its read flag, and nothing else changes.
    /// A slice naming an unknown key patches nothing.
    pub fn update_many(store: &mut ConversationStore, notifications: Vec<NotificationSlice>) -> (r:
        Result<(), AppError>)
        requires
            old(store).wf(),
        ensures
            final(store).wf(),
            r is Ok,
            final(store).notifications@.len() == old(store).notifications@.len(),
            forall|i: int|
                #![trigger final(store).notifications@[i]]
                0 <= i < old(store).notifications@.len() ==> {
                    &&& final(store).notifications@[i].key == old(store).notifications@[i].key
                    &&& final(store).notifications@[i].notification_type == old(
                        store,
                    ).notifications@[i].notification_type
                    &&& final(store).notifications@[i].timestamp == old(
                        store,
                    ).notifications@[i].timestamp
                    &&& final(store).notifications@[i].target_profile == old(
                        store,
                    ).notifications@[i].target_profile
                    &&& final(store).notifications@[i].source_profile == old(
                        store,
                    ).notifications@[i].source_profile
                    &&& final(store).notifications@[i].read == match last_read(
                        notifications@,
                        old(store).notifications@[i].key@,
                    ) {
                        Some(b) => b,
                        None => old(store).notifications@[i].read,
                    }
                },
            final(store).chats == old(store).chats,
            final(store).connections == old(store).connections,
            final(store).next_key == old(store).next_key,
    {
        let ghost pre = *old(store);
        let mut j: usize = 0;
        while j < notifications.len()
            invariant
                j <= notifications@.len(),
                store.wf(),
                store.notifications@.len() == pre.notifications@.len(),
                store.chats == pre.chats,
                store.connections == pre.connections,
                store.next_key == pre.next_key,
                pre.wf(),
                forall|i: int|
                    #![trigger store.notifications@[i]]
                    0 <= i < pre.notifications@.len() ==> {
                        &&& store.notifications@[i].key == pre.notifications@[i].key
                        &&& store.notifications@[i].notification_type == pre.notifications@[i].notification_type
                        &&& store.notifications@[i].timestamp == pre.notifications@[i].timestamp
                        &&& store.notifications@[i].target_profile == pre.notifications@[i].target_profile
                        &&& store.notifications@[i].source_profile == pre.notifications@[i].source_profile
                        &&& store.notifications@[i].read == match last_read(
                            notifications@.take(j as int),
                            pre.notifications@[i].key@,
                        ) {
                            Some(b) => b,
                            None => pre.notifications@[i].read,
                        }
                    },
            decreases notifications@.len() - j,
        {
            let ghost mid = *store;
            let slice = &notifications[j];
            match find_notification(&store.notifications, &slice.key) {
                Some(idx) => {
                    let mut doc = store.notifications.remove(idx);
                    doc.read = slice.read;
                    store.notifications.insert(idx, doc);
                    proof {
                        assert forall|i: int|
                            #![trigger store.notifications@[i]]
                            0 <= i < store.notifications@.len() && i != idx as int implies store
                            .notifications@[i] == mid.notifications@[i] by {
                            assert(store.notifications@ == mid.notifications@.remove(
                                idx as int,
                            ).insert(idx as int, store.notifications@[idx as int]));
                        }
                        assert(store.notification_keys() =~= mid.notification_keys());
                        assert(store.wf());
                        assert forall|i: int|
                            #![trigger mid.notifications@[i]]
                            0 <= i < mid.notifications@.len() && mid.notifications@[i].key@
                                == slice.key@ implies i == idx as int by {
                            mid.lemma_notification_index(i);
                            mid.lemma_notification_index(idx as int);
                        }
                    }
                },
                None => {
                },
            }
            proof {
                assert(notifications@.take(j as int + 1).drop_last() =~= notifications@.take(
                    j as int,
                ));
                assert(notifications@.take(j as int + 1).last() == notifications@[j as int]);
            }
            j = j + 1;
        }
        proof {
            assert(notifications@.take(notifications@.len() as int) =~= notifications@);
        }
        Ok(())
    }

    /// The stored notification keyed `key`; an unknown key is a
    /// reported failure.
    pub fn get(store: &ConversationStore, key: &str) -> (r: Result<Notification, AppError>)
        requires
            store.wf(),
        ensures
            match r {
                Ok(n) => store.has_notification(key@) && n == store.notifications@[store.notification_index(key@)],
                Err(e) => !store.has_notification(key@) && e == AppError::NotFound,
            },
    {
        let owned = key.to_owned();
        let idx = match find_notification(&store.notifications, &owned) {
            Some(idx) => idx,
            None => {
                return Err(AppError::NotFound);
            },
        };
        proof {
            store.lemma_notification_index(idx as int);
        }
        let doc = &store.notifications[idx];
        Ok(
            Notification {
                key: doc.key.clone(),
                notification_type: doc.notification_type,
                timestamp: doc.timestamp,
                target_profile: doc.target_profile.clone(),
                source_profile: doc.source_profile.clone(),
                read: doc.read,
            },
        )
    }

    /// Deletes the stored document keyed like `self`; an unknown key is
    /// a reported failure and leaves the store untouched.
    pub fn delete(&self, store: &mut ConversationStore) -> (r: Result<(), AppError>)
        requires
            old(store).wf(),
        ensures
            final(store).wf(),
            r is Ok <==> old(store).has_notification(self.key@),
            r is Ok ==> final(store).notifications@ == old(store).notifications@.remove(
                old(store).notification_index(self.key@),
            ),
            r is Err ==> *final(store) == *old(store) && r == Err::<(), AppError>(
                AppError::NotFound,
            ),
            final(store).chats == old(store).chats,
            final(store).connections == old(store).connections,
            final(store).next_key == old(store).next_key,
    {
        let idx = match find_notification(&store.notifications, &self.key) {
            Some(idx) => idx,
            None => {
                return Err(AppError::NotFound);
            },
        };
        proof {
            old(store).lemma_notification_index(idx as int);
        }
        let _ = store.notifications.remove(idx);
        proof {
            assert(store.notification_keys() =~= old(store).notification_keys().remove(
                idx as int,
            ));
            lemma_keys_wf_remove(old(store).notification_keys(), old(store).next_key, idx as int);
        }
        Ok(())
    }

    /// Every notification addressed to `profile_key`, in store order —
    /// no implicit sort.
    pub fn get_profile_notifications(store: &ConversationStore, profile_key: &str) -> (r: Vec<
        Notification,
    >)
        ensures
            r@ == targeted(store.notifications@, profile_key@),
    {
        let target = profile_key.to_owned();
        let mut out: Vec<Notification> = Vec::new();
        let mut i: usize = 0;
        while i < store.notifications.len()
            invariant
                i <= store.notifications@.len(),
                target@ == profile_key@,
                out@ == targeted(store.notifications@.take(i as int), profile_key@),
            decreases store.notifications@.len() - i,
        {
            let doc = &store.notifications[i];
            if doc.target_profile == target {
                let copy = Notification {
                    key: doc.key.clone(),
                    notification_type: doc.notification_type,
                    timestamp: doc.timestamp,
                    target_profile: doc.target_profile.clone(),
                    source_profile: doc.source_profile.clone(),
                    read: doc.read,
                };
                proof {
                    assert(copy == store.notifications@[i as int]);
                }
                out.push(copy);
            }
            proof {
                assert(store.notifications@.take(i as int + 1).drop_last() =~= store
                    .notifications@.take(i as int));
                assert(store.notifications@.take(i as int + 1).last() == store.notifications@[i as int]);
            }
            i = i + 1;
        }
        proof {
            assert(store.notifications@.take(store.notifications@.len() as int) =~= store
                .notifications@);
        }
        out
    }
}

/// The fixed phrase for each notification kind.  The match is
/// exhaustive: adding a kind without a phrase fails the build.
pub open spec fn phrase_spec(t: NotificationType) -> Seq<char> {
    match t {
        NotificationType::Like => "liked you"@,
        NotificationType::LikeBack => "liked you back"@,
        NotificationType::Message => "messaged you"@,
        NotificationType::Unlike => "unliked you. You are no longer matched and cannot chat with them"@,
        NotificationType::Visit => "checked you out"@,
    }
}

/// The executable counterpart of `phrase_spec`.
pub fn phrase(t: NotificationType) -> (r: String)
    ensures
        r@ == phrase_spec(t),
{
    match t {
        NotificationType::Like => "liked you".to_owned(),
        NotificationType::LikeBack => "liked you back".to_owned(),
        NotificationType::Message => "messaged you".to_owned(),
        NotificationType::Unlike => "unliked you. You are no longer matched and cannot chat with them".to_owned(),
        NotificationType::Visit => "checked you out".to_owned(),
    }
}

/// The user-facing rendering of a notification.
#[derive(Debug, Clone, PartialEq)]
pub struct NotificationDto {
    pub id: String,
    pub sent: String,
    pub profile: Option<ProfileThumbnail>,
    pub message: String,
    pub read: bool,
}

impl NotificationDto {
    /// Renders `notification`: the kind becomes its fixed phrase and
    /// the timestamp a relative-time string.  `sent` depends on the
    /// clock, so nothing is promised of it.
    pub fn from(notification: Notification) -> (r: NotificationDto)
        ensures
            r.id == notification.key,
            r.message@ == phrase_spec(notification.notification_type),
            r.read == notification.read,
            r.profile is None,
    {
        let sent = match humanize_seconds(notification.timestamp) {
            Some(s) => s,
            None => String::new(),
        };
        NotificationDto {
            id: notification.key,
            sent,
            profile: None,
            message: phrase(notification.notification_type),
            read: notification.read,
        }
    }
}

} // verus!
