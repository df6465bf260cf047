use sitegen::websocket::{reload_all, WebSocketServer, RELOAD_SIGNAL};

fn name(s: &str) -> String {
    s.to_string()
}

#[test]
fn reload_signal_is_the_word_reload() {
    assert_eq!(RELOAD_SIGNAL, "reload");
}

#[test]
fn new_hub_has_no_clients() {
    let hub: WebSocketServer<u32> = WebSocketServer::new();
    assert_eq!(hub.len(), 0);
    assert!(reload_all(&hub).is_empty());
    assert!(hub.client(&name("127.0.0.1:4000")).is_none());
}

#[test]
fn registered_clients_get_the_reload_in_order() {
    let mut hub: WebSocketServer<u32> = WebSocketServer::new();
    hub.add_client(name("127.0.0.1:4000"), 1);
    hub.add_client(name("127.0.0.1:4001"), 2);
    hub.add_client(name("127.0.0.1:4002"), 3);
    assert_eq!(hub.len(), 3);
    assert_eq!(
        reload_all(&hub),
        vec![name("127.0.0.1:4000"), name("127.0.0.1:4001"), name("127.0.0.1:4002")]
    );
    assert_eq!(hub.addresses(), reload_all(&hub));
    assert_eq!(hub.client(&name("127.0.0.1:4001")), Some(&2));
}

#[test]
fn unregistered_client_gets_no_reload() {
    let mut hub: WebSocketServer<u32> = WebSocketServer::new();
    hub.add_client(name("a"), 1);
    hub.add_client(name("b"), 2);
    hub.remove_client(&name("a"));
    assert_eq!(reload_all(&hub), vec![name("b")]);
    assert!(hub.client(&name("a")).is_none());
    assert_eq!(hub.client(&name("b")), Some(&2));
}

#[test]
fn register_then_unregister_leaves_nothing() {
    let mut hub: WebSocketServer<&str> = WebSocketServer::new();
    hub.add_client(name("10.0.0.1:5555"), "writer");
    hub.remove_client(&name("10.0.0.1:5555"));
    assert_eq!(hub.len(), 0);
    assert!(reload_all(&hub).is_empty());
}

#[test]
fn registering_twice_keeps_one_entry_and_the_last_writer() {
    let mut hub: WebSocketServer<u32> = WebSocketServer::new();
    hub.add_client(name("a"), 1);
    hub.add_client(name("b"), 2);
    hub.add_client(name("a"), 3);
    assert_eq!(hub.len(), 2);
    let targets = reload_all(&hub);
    assert_eq!(targets.iter().filter(|t| t.as_str() == "a").count(), 1);
    assert_eq!(hub.client(&name("a")), Some(&3));
    assert_eq!(hub.client(&name("b")), Some(&2));
}

#[test]
fn unregistering_an_unknown_client_changes_nothing() {
    let mut hub: WebSocketServer<u32> = WebSocketServer::new();
    hub.add_client(name("a"), 1);
    hub.remove_client(&name("z"));
    hub.remove_client(&name("z"));
    assert_eq!(reload_all(&hub), vec![name("a")]);
    assert_eq!(hub.client(&name("a")), Some(&1));
}

#[test]
fn failed_client_is_removed_and_the_other_stays() {
    let mut hub: WebSocketServer<u32> = WebSocketServer::new();
    hub.add_client(name("a"), 1);
    hub.add_client(name("b"), 2);
    // the reload goes to both, whatever happens to the send to "a"
    let targets = reload_all(&hub);
    assert_eq!(targets, vec![name("a"), name("b")]);
    // the send to "a" failed
    hub.remove_client(&name("a"));
    assert_eq!(hub.client(&name("b")), Some(&2));
    assert_eq!(reload_all(&hub), vec![name("b")]);
}
