use matcha_chat::chat;
use matcha_chat::chat::WsChatMessage;
use matcha_chat::error::AppError;
use matcha_chat::notification::Notification;
use matcha_chat::notification::NotificationType;
use matcha_chat::store::ConversationStore;
use matcha_chat::store::Message;

fn wire(chat_id: &str, from: &str, to: &str, body: &str) -> WsChatMessage {
    WsChatMessage {
        chat_id: chat_id.to_owned(),
        from: from.to_owned(),
        to: to.to_owned(),
        body: body.to_owned(),
    }
}

#[test]
fn scenario_alice_bob() {
    let mut store = ConversationStore::new();
    chat::create(&mut store, "alice", "bob").unwrap();

    let chats = chat::get_all(&store, &"bob".to_owned());
    assert_eq!(chats.len(), 1);
    let k = chats[0].chat_id.clone();
    assert_eq!(chats[0].participant.id, "alice");
    assert_eq!(chats[0].messages.len(), 0);

    chat::message(&mut store, &wire(&k, "alice", "bob", "hi")).unwrap();

    let chats = chat::get_all(&store, &"bob".to_owned());
    assert_eq!(chats.len(), 1);
    assert_eq!(chats[0].chat_id, k);
    assert_eq!(chats[0].messages.len(), 1);
    assert_eq!(chats[0].messages[0].from, "alice");
    assert_eq!(chats[0].messages[0].to, "bob");
    assert_eq!(chats[0].messages[0].body, "hi");

    let ns = Notification::get_profile_notifications(&store, "bob");
    assert_eq!(ns.len(), 1);
    assert!(matches!(ns[0].notification_type, NotificationType::Message));
    assert_eq!(ns[0].source_profile, "alice");
    assert_eq!(ns[0].target_profile, "bob");
    assert!(!ns[0].read);
}

#[test]
fn create_makes_exactly_two_edges() {
    let mut store = ConversationStore::new();
    chat::create(&mut store, "alice", "bob").unwrap();
    assert_eq!(store.chats.len(), 1);
    let k = store.chats[0].key.clone();
    assert_eq!(store.chats[0].messages.len(), 0);
    let edges: Vec<_> = store.connections.iter().filter(|e| e.chat_key == k).collect();
    assert_eq!(edges.len(), 2);
    assert_eq!(edges[0].profile_id, "alice");
    assert_eq!(edges[1].profile_id, "bob");
    assert_eq!(store.connections.len(), 2);
}

#[test]
fn get_all_never_lists_the_requesting_user() {
    let mut store = ConversationStore::new();
    chat::create(&mut store, "alice", "bob").unwrap();
    chat::create(&mut store, "carol", "alice").unwrap();
    let chats = chat::get_all(&store, &"alice".to_owned());
    assert_eq!(chats.len(), 2);
    for c in &chats {
        assert_ne!(c.participant.id, "alice");
    }
    let chats = chat::get_all(&store, &"dave".to_owned());
    assert_eq!(chats.len(), 0);
}

#[test]
fn get_all_sorts_messages_by_timestamp() {
    let mut store = ConversationStore::new();
    chat::create(&mut store, "alice", "bob").unwrap();
    // Simulate history that was persisted out of order.
    for ts in [50, 20, 90, 20, 10] {
        let m = Message {
            from: "alice".to_owned(),
            to: "bob".to_owned(),
            body: format!("m{}", ts),
            timestamp: ts,
        };
        store.chats[0].messages.push(m);
    }
    let chats = chat::get_all(&store, &"bob".to_owned());
    assert_eq!(chats.len(), 1);
    let stamps: Vec<i64> = chats[0].messages.iter().map(|m| m.timestamp).collect();
    assert_eq!(stamps, vec![10, 20, 20, 50, 90]);
    assert_eq!(chats[0].messages.len(), 5);
}

#[test]
fn message_to_unknown_chat_is_not_found() {
    let mut store = ConversationStore::new();
    chat::create(&mut store, "alice", "bob").unwrap();
    let before_chats = store.chats.clone();
    let before_notifications = store.notifications.clone();
    let r = chat::message(&mut store, &wire("999", "alice", "bob", "hi"));
    assert_eq!(r, Err(AppError::NotFound));
    assert_eq!(store.chats, before_chats);
    assert_eq!(store.notifications, before_notifications);
}

#[test]
fn message_appends_one_message_and_one_notification() {
    let mut store = ConversationStore::new();
    chat::create(&mut store, "alice", "bob").unwrap();
    let k = store.chats[0].key.clone();
    let messages_before = store.chats[0].messages.len();
    let notifications_before = store.notifications.len();
    chat::message(&mut store, &wire(&k, "alice", "bob", "hello")).unwrap();
    assert_eq!(store.chats[0].messages.len(), messages_before + 1);
    assert_eq!(store.notifications.len(), notifications_before + 1);
    let n = store.notifications.last().unwrap();
    assert!(matches!(n.notification_type, NotificationType::Message));
    assert_eq!(n.target_profile, "bob");
    assert_eq!(n.source_profile, "alice");
    assert!(!n.read);
}

#[test]
fn messages_to_different_chats_do_not_interfere() {
    let mut store = ConversationStore::new();
    chat::create(&mut store, "alice", "bob").unwrap();
    chat::create(&mut store, "carol", "dave").unwrap();
    let k1 = store.chats[0].key.clone();
    let k2 = store.chats[1].key.clone();
    chat::message(&mut store, &wire(&k1, "alice", "bob", "one")).unwrap();
    let chat2_after_first = store.chats[1].clone();
    chat::message(&mut store, &wire(&k2, "carol", "dave", "two")).unwrap();
    // The second routing left the first chat alone, and vice versa.
    assert_eq!(store.chats[0].messages.len(), 1);
    assert_eq!(store.chats[0].messages[0].body, "one");
    assert_eq!(store.chats[1].messages.len(), 1);
    assert_eq!(store.chats[1].messages[0].body, "two");
    assert_eq!(chat2_after_first.messages.len(), 0);
}

#[test]
fn messages_to_the_same_chat_lose_neither() {
    let mut store = ConversationStore::new();
    chat::create(&mut store, "alice", "bob").unwrap();
    let k = store.chats[0].key.clone();
    chat::message(&mut store, &wire(&k, "alice", "bob", "first")).unwrap();
    chat::message(&mut store, &wire(&k, "bob", "alice", "second")).unwrap();
    assert_eq!(store.chats[0].messages.len(), 2);
    assert_eq!(store.chats[0].messages[0].body, "first");
    assert_eq!(store.chats[0].messages[1].body, "second");
}

#[test]
fn get_all_skips_a_chat_without_another_participant() {
    let mut store = ConversationStore::new();
    // A degenerate chat whose two edges both belong to the same profile.
    chat::create(&mut store, "alice", "alice").unwrap();
    assert_eq!(chat::get_all(&store, &"alice".to_owned()).len(), 0);
    // Another profile is not connected to it at all.
    assert_eq!(chat::get_all(&store, &"bob".to_owned()).len(), 0);
}

#[test]
fn get_all_lists_each_chat_once() {
    let mut store = ConversationStore::new();
    chat::create(&mut store, "alice", "bob").unwrap();
    chat::create(&mut store, "alice", "bob").unwrap();
    let chats = chat::get_all(&store, &"alice".to_owned());
    assert_eq!(chats.len(), 2);
    assert_ne!(chats[0].chat_id, chats[1].chat_id);
}
