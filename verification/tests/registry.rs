use wallet_gateway::registry::Registry;
use wallet_gateway::session::Session;

fn session(wallet: &str, endpoint: &str) -> Session {
    Session {
        wallet: wallet.to_string(),
        endpoint: endpoint.to_string(),
        user: "user".to_string(),
        password: "secret".to_string(),
    }
}

#[test]
fn a_new_registry_is_empty() {
    let registry = Registry::new();
    assert_eq!(registry.len(), 0);
    assert!(!registry.contains("alice"));
    assert_eq!(registry.get("alice"), None);
}

#[test]
fn a_registered_session_is_found() {
    let mut registry = Registry::new();
    registry.insert("alice".to_string(), session("alice", "http://node/wallet/alice"));
    assert!(registry.contains("alice"));
    assert_eq!(registry.get("alice"), Some(session("alice", "http://node/wallet/alice")));
    assert_eq!(registry.len(), 1);
}

#[test]
fn other_names_stay_unknown() {
    let mut registry = Registry::new();
    registry.insert("alice".to_string(), session("alice", "a"));
    assert_eq!(registry.get("bob"), None);
    assert_eq!(registry.get("Alice"), None);
    assert_eq!(registry.get("alice "), None);
    assert_eq!(registry.get(""), None);
}

#[test]
fn the_last_writer_wins() {
    let mut registry = Registry::new();
    registry.insert("alice".to_string(), session("alice", "first"));
    registry.insert("alice".to_string(), session("alice", "second"));
    assert_eq!(registry.len(), 1);
    assert_eq!(registry.get("alice"), Some(session("alice", "second")));
}

#[test]
fn replacing_one_entry_leaves_the_others() {
    let mut registry = Registry::new();
    registry.insert("alice".to_string(), session("alice", "a"));
    registry.insert("bob".to_string(), session("bob", "b"));
    registry.insert("alice".to_string(), session("alice", "a2"));
    assert_eq!(registry.len(), 2);
    assert_eq!(registry.get("bob"), Some(session("bob", "b")));
    assert_eq!(registry.get("alice"), Some(session("alice", "a2")));
}

#[test]
fn distinct_names_are_all_kept() {
    let mut registry = Registry::new();
    let count = 200;
    for i in 0..count {
        let name = format!("wallet-{}", i);
        registry.insert(name.clone(), session(&name, &format!("http://node/wallet/{}", name)));
    }
    assert_eq!(registry.len(), count);
    for i in 0..count {
        let name = format!("wallet-{}", i);
        let found = registry.get(&name);
        assert_eq!(found, Some(session(&name, &format!("http://node/wallet/{}", name))));
    }
}

#[test]
fn a_copy_of_a_session_is_equal_to_it() {
    let first = session("alice", "http://node/wallet/alice");
    assert_eq!(first.duplicate(), first);
}
