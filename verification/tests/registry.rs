use matcha_chat::registry::ConnectionRegistry;

#[test]
fn lookup_of_unregistered_profile_is_absent() {
    let reg = ConnectionRegistry::new();
    assert_eq!(reg.lookup(&"alice".to_owned()), None);
}

#[test]
fn register_then_lookup() {
    let mut reg = ConnectionRegistry::new();
    reg.register("alice".to_owned(), 7);
    reg.register("bob".to_owned(), 8);
    assert_eq!(reg.lookup(&"alice".to_owned()), Some(7));
    assert_eq!(reg.lookup(&"bob".to_owned()), Some(8));
    assert_eq!(reg.lookup(&"carol".to_owned()), None);
}

#[test]
fn last_registration_wins() {
    let mut reg = ConnectionRegistry::new();
    reg.register("alice".to_owned(), 7);
    reg.register("alice".to_owned(), 9);
    assert_eq!(reg.lookup(&"alice".to_owned()), Some(9));
    assert_eq!(reg.entries.len(), 1);
}

#[test]
fn unregister_removes_and_is_idempotent() {
    let mut reg = ConnectionRegistry::new();
    reg.register("alice".to_owned(), 7);
    reg.register("bob".to_owned(), 8);
    reg.unregister(&"alice".to_owned());
    assert_eq!(reg.lookup(&"alice".to_owned()), None);
    assert_eq!(reg.lookup(&"bob".to_owned()), Some(8));
    reg.unregister(&"alice".to_owned());
    assert_eq!(reg.lookup(&"alice".to_owned()), None);
    assert_eq!(reg.lookup(&"bob".to_owned()), Some(8));
}
