use waepic::jid::Jid;
use waepic::session::{ChatEntry, MemorySession};

fn test_jid() -> Jid {
    Jid::pn("5511999998888")
}

fn test_chat_entry() -> ChatEntry {
    ChatEntry { jid: test_jid(), name: Some("Test User".into()), kind: "user".into() }
}

#[test]
fn cache_and_get_chat() {
    let mut session = MemorySession::new();
    let entry = test_chat_entry();
    session.cache_chat(&entry);

    let result = session.get_chat(&test_jid());
    assert!(result.is_some());

    let cached = result.unwrap();
    assert_eq!(cached.name, Some("Test User".to_string()));
    assert_eq!(cached.kind, "user");
}

#[test]
fn get_chat_nonexistent() {
    let session = MemorySession::new();

    let result = session.get_chat(&test_jid());
    assert!(result.is_none());
}

#[test]
fn is_contact_unknown() {
    let session = MemorySession::new();

    let result = session.is_contact(&test_jid());
    assert!(!result);
}

#[test]
fn is_contact_after_add() {
    let mut session = MemorySession::new();
    session.add_contact(&test_jid());

    let result = session.is_contact(&test_jid());
    assert!(result);
}

#[test]
fn remove_chat() {
    let mut session = MemorySession::new();
    let entry = test_chat_entry();

    session.cache_chat(&entry);
    assert!(session.get_chat(&test_jid()).is_some());

    session.remove_chat(&test_jid());
    assert!(session.get_chat(&test_jid()).is_none());
}

#[test]
fn get_chats() {
    let mut session = MemorySession::new();
    let entry = test_chat_entry();
    session.cache_chat(&entry);

    let chats = session.get_chats();
    assert_eq!(chats.len(), 1);
    assert_eq!(chats[0].name, Some("Test User".into()));
}

#[test]
fn caching_again_replaces_the_entry() {
    let mut session = MemorySession::new();
    session.cache_chat(&test_chat_entry());
    session.cache_chat(&ChatEntry { jid: test_jid(), name: Some("Renamed".into()), kind: "user".into() });
    session.cache_chat(&ChatEntry { jid: Jid::group("42"), name: None, kind: "group".into() });

    assert_eq!(session.get_chats().len(), 2);
    assert_eq!(session.get_chat(&test_jid()).unwrap().name.as_deref(), Some("Renamed"));

    session.remove_chat(&Jid::group("42"));
    assert!(session.get_chat(&Jid::group("42")).is_none());
    assert!(session.get_chat(&test_jid()).is_some());
}
