use mee_node::did::DidProvider;
use mee_node::node::{AxumNode, InboxDeliveryError, LocalNode, Node};
use mee_node::store::{Key, Namespace};
use mee_node::store_mem::MemKvStore;
use mee_node::transport::{ProfileName, Ticket};
use mee_node::types::DidMethod;

fn node_a() -> AxumNode {
    AxumNode::new(ProfileName("alice".to_string()), "http://host".to_string())
}

#[test]
fn end_to_end_ping_reaches_the_inbox() {
    // Node A issues its ticket.
    let mut a = node_a();
    let ticket = a.local_ticket();
    assert_eq!(ticket.0, "http://host/profiles/alice/inbox");

    // Node B opens a session against A's ticket and prepares a ping.
    let b = AxumNode::new(ProfileName("bob".to_string()), "http://other".to_string());
    let request = b.ping_request(&ticket, None);
    assert_eq!(request.url, "http://host/profiles/alice/inbox");

    // The transport delivers the payload to A's inbox endpoint.
    let payload: serde_json::Value = serde_json::from_str(&request.json_body).unwrap();
    let from = payload["from"].as_str().unwrap();
    let kind = payload["kind"].as_str().unwrap();
    let body_b64 = payload["body_b64"].as_str().unwrap();
    a.deliver_inbox("alice", from, kind, body_b64).unwrap();

    // A's store now holds one inbox item under (inbox, items).
    let stored = a
        .store()
        .get_entry(&Namespace("inbox".to_string()), &Key("items".to_string()))
        .unwrap();
    assert!(!stored.0.is_empty());
    let items = a.list_inbox();
    assert_eq!(items.len(), 1);
    assert_eq!(items[0].from, "bob");
    assert_eq!(items[0].kind, "ping");
    assert_eq!(items[0].body_b64, "");
}

#[test]
fn deliver_appends_in_order() {
    let mut a = node_a();
    a.deliver_inbox("alice", "bob", "ping", "").unwrap();
    a.deliver_inbox("alice", "carol", "text", "aGk=").unwrap();
    let items = a.list_inbox();
    assert_eq!(items.len(), 2);
    assert_eq!(items[0].from, "bob");
    assert_eq!(items[1].from, "carol");
    assert_eq!(items[1].kind, "text");
    assert_eq!(items[1].body_b64, "aGk=");
}

#[test]
fn deliver_survives_delimiter_like_field_text() {
    let mut a = node_a();
    a.deliver_inbox("alice", "a:5:x", "7:", "").unwrap();
    a.deliver_inbox("alice", "", "3:abc", "").unwrap();
    let items = a.list_inbox();
    assert_eq!(items.len(), 2);
    assert_eq!(items[0].from, "a:5:x");
    assert_eq!(items[0].kind, "7:");
    assert_eq!(items[1].from, "");
    assert_eq!(items[1].kind, "3:abc");
}

#[test]
fn deliver_to_wrong_profile_is_rejected() {
    let mut a = node_a();
    let r = a.deliver_inbox("mallory", "bob", "ping", "");
    assert_eq!(r, Err(InboxDeliveryError::WrongProfile));
    assert_eq!(a.list_inbox().len(), 0);
}

#[test]
fn malformed_base64_is_rejected_and_leaves_the_inbox_unchanged() {
    let mut a = node_a();
    a.deliver_inbox("alice", "bob", "ping", "aGk=").unwrap();
    let before = a.list_inbox();
    let r = a.deliver_inbox("alice", "eve", "ping", "!!!not-base64!!!");
    assert_eq!(r, Err(InboxDeliveryError::InvalidBody));
    assert_eq!(a.list_inbox(), before);
}

#[test]
fn non_canonical_base64_padding_is_rejected() {
    let mut a = node_a();
    let r = a.deliver_inbox("alice", "bob", "ping", "aGk");
    assert_eq!(r, Err(InboxDeliveryError::InvalidBody));
    assert_eq!(a.list_inbox().len(), 0);
}

#[test]
fn delivered_bodies_are_stored_canonically() {
    let mut a = node_a();
    a.deliver_inbox("alice", "bob", "text", "aGVsbG8=").unwrap();
    let items = a.list_inbox();
    assert_eq!(items[0].body_b64, "aGVsbG8=");
}

#[test]
fn ping_request_carries_an_optional_body() {
    let a = node_a();
    let ticket = Ticket("http://x/profiles/y/inbox".to_string());
    let with_body = a.ping_request(&ticket, Some("aGk="));
    let payload: serde_json::Value = serde_json::from_str(&with_body.json_body).unwrap();
    assert_eq!(payload["from"].as_str().unwrap(), "alice");
    assert_eq!(payload["kind"].as_str().unwrap(), "ping");
    assert_eq!(payload["body_b64"].as_str().unwrap(), "aGk=");
}

#[test]
fn ping_request_tolerates_invalid_body_b64() {
    let a = node_a();
    let ticket = Ticket("http://x/profiles/y/inbox".to_string());
    let request = a.ping_request(&ticket, Some("***"));
    let payload: serde_json::Value = serde_json::from_str(&request.json_body).unwrap();
    assert_eq!(payload["body_b64"].as_str().unwrap(), "");
}

#[test]
fn axum_node_exposes_its_capabilities() {
    let a = node_a();
    assert_eq!(a.profile().0, "alice");
    assert_eq!(a.node_id().0, "did:key:zaxum");
    assert!(a.user_id().is_none());
    assert_eq!(a.transport().base_url, "http://host");
    assert_eq!(a.did_manager().method(), DidMethod::Key);
}

#[test]
fn local_node_satisfies_the_node_contract() {
    let node = LocalNode::new(ProfileName("local".to_string()));
    assert_eq!(Node::profile(&node).0, "local");
    assert_eq!(Node::node_id(&node).0, "did:key:zlocal");
    assert!(Node::user_id(&node).is_none());
    assert_eq!(Node::did_manager(&node).method(), DidMethod::Key);
    let store: &MemKvStore = Node::store(&node);
    assert!(store
        .get_entry(&Namespace("inbox".to_string()), &Key("items".to_string()))
        .is_none());
}
