use matcha_chat::error::AppError;
use matcha_chat::notification::Notification;
use matcha_chat::notification::NotificationDto;
use matcha_chat::notification::NotificationSlice;
use matcha_chat::notification::NotificationType;
use matcha_chat::store::ConversationStore;

fn sample(kind: NotificationType, target: &str, source: &str, ts: i64) -> Notification {
    Notification::new_at(kind, target, source, ts)
}

#[test]
fn new_is_unread_and_unkeyed() {
    let n = Notification::new(NotificationType::Like, "bob", "alice");
    assert_eq!(n.key, "");
    assert!(matches!(n.notification_type, NotificationType::Like));
    assert_eq!(n.target_profile, "bob");
    assert_eq!(n.source_profile, "alice");
    assert!(!n.read);
}

#[test]
fn create_assigns_the_store_key() {
    let mut store = ConversationStore::new();
    let mut n = sample(NotificationType::Visit, "bob", "alice", 7);
    n.create(&mut store).unwrap();
    assert_eq!(n.key, "1");
    assert_eq!(store.notifications.len(), 1);
    assert_eq!(store.notifications[0].key, "1");
    assert_eq!(store.notifications[0].timestamp, 7);
    let mut m = sample(NotificationType::Like, "carol", "bob", 8);
    m.create(&mut store).unwrap();
    assert_eq!(m.key, "2");
}

#[test]
fn get_finds_by_key_and_reports_unknown() {
    let mut store = ConversationStore::new();
    let mut n = sample(NotificationType::Unlike, "bob", "alice", 3);
    n.create(&mut store).unwrap();
    let fetched = Notification::get(&store, "1").unwrap();
    assert_eq!(fetched, store.notifications[0]);
    assert_eq!(Notification::get(&store, "42"), Err(AppError::NotFound));
}

#[test]
fn update_patches_the_read_state() {
    let mut store = ConversationStore::new();
    let mut n = sample(NotificationType::Message, "bob", "alice", 3);
    n.create(&mut store).unwrap();
    n.read = true;
    n.update(&mut store).unwrap();
    assert!(store.notifications[0].read);
    let stray = sample(NotificationType::Message, "bob", "alice", 3);
    assert_eq!(stray.update(&mut store), Err(AppError::NotFound));
}

#[test]
fn update_many_marks_all_in_order() {
    let mut store = ConversationStore::new();
    for ts in 0..3 {
        let mut n = sample(NotificationType::Like, "bob", "alice", ts);
        n.create(&mut store).unwrap();
    }
    let slices = vec![
        NotificationSlice::from("1".to_owned()),
        NotificationSlice::from("3".to_owned()),
    ];
    Notification::update_many(&mut store, slices).unwrap();
    assert!(store.notifications[0].read);
    assert!(!store.notifications[1].read);
    assert!(store.notifications[2].read);
}

#[test]
fn update_many_last_slice_wins_and_unknown_keys_patch_nothing() {
    let mut store = ConversationStore::new();
    let mut n = sample(NotificationType::Like, "bob", "alice", 1);
    n.create(&mut store).unwrap();
    let slices = vec![
        NotificationSlice { key: "1".to_owned(), read: true },
        NotificationSlice { key: "77".to_owned(), read: true },
        NotificationSlice { key: "1".to_owned(), read: false },
    ];
    Notification::update_many(&mut store, slices).unwrap();
    assert!(!store.notifications[0].read);
    assert_eq!(store.notifications.len(), 1);
}

#[test]
fn delete_removes_only_the_keyed_document() {
    let mut store = ConversationStore::new();
    let mut a = sample(NotificationType::Like, "bob", "alice", 1);
    a.create(&mut store).unwrap();
    let mut b = sample(NotificationType::Visit, "bob", "carol", 2);
    b.create(&mut store).unwrap();
    a.delete(&mut store).unwrap();
    assert_eq!(store.notifications.len(), 1);
    assert_eq!(store.notifications[0].key, "2");
    assert_eq!(a.delete(&mut store), Err(AppError::NotFound));
}

#[test]
fn profile_notifications_filter_by_target_in_store_order() {
    let mut store = ConversationStore::new();
    for (target, source, ts) in [("bob", "alice", 1), ("carol", "alice", 2), ("bob", "dave", 3)] {
        let mut n = sample(NotificationType::Visit, target, source, ts);
        n.create(&mut store).unwrap();
    }
    let ns = Notification::get_profile_notifications(&store, "bob");
    assert_eq!(ns.len(), 2);
    assert_eq!(ns[0].source_profile, "alice");
    assert_eq!(ns[1].source_profile, "dave");
    assert!(Notification::get_profile_notifications(&store, "erin").is_empty());
}

#[test]
fn slice_from_bare_id_always_marks_read() {
    let s = NotificationSlice::from("17".to_owned());
    assert_eq!(s.key, "17");
    assert!(s.read);
}

#[test]
fn dto_translates_every_kind_into_its_phrase() {
    let cases = [
        (NotificationType::Like, "liked you"),
        (NotificationType::LikeBack, "liked you back"),
        (NotificationType::Message, "messaged you"),
        (
            NotificationType::Unlike,
            "unliked you. You are no longer matched and cannot chat with them",
        ),
        (NotificationType::Visit, "checked you out"),
    ];
    for (kind, phrase) in cases {
        let mut n = sample(kind, "bob", "alice", 1_600_000_000);
        n.key = "9".to_owned();
        n.read = true;
        let dto = NotificationDto::from(n);
        assert_eq!(dto.id, "9");
        assert_eq!(dto.message, phrase);
        assert!(dto.read);
        assert!(dto.profile.is_none());
    }
}

#[test]
fn notification_key_url_appends_collection_and_key() {
    let mut n = sample(NotificationType::Like, "bob", "alice", 1);
    n.key = "12".to_owned();
    assert_eq!(
        n.key_url("http://localhost:8529/"),
        "http://localhost:8529/_api/document/notifications/12"
    );
}
