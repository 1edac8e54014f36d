use mee_node::types::{Did, DidMethod, DidUrl};

#[test]
fn method_round_trip_known_tokens() {
    assert_eq!(DidMethod::parse("key").as_str(), "key");
    assert_eq!(DidMethod::parse("web").as_str(), "web");
    assert_eq!(DidMethod::parse("peer").as_str(), "peer");
    assert!(matches!(DidMethod::parse("key"), DidMethod::Key));
    assert!(matches!(DidMethod::parse("web"), DidMethod::Web));
    assert!(matches!(DidMethod::parse("peer"), DidMethod::Peer));
}

#[test]
fn method_round_trip_unknown_tokens() {
    assert_eq!(DidMethod::parse("ion").as_str(), "ion");
    assert_eq!(DidMethod::parse("KEY").as_str(), "KEY");
    assert_eq!(DidMethod::parse("").as_str(), "");
    assert!(matches!(DidMethod::parse("ion"), DidMethod::Unknown(s) if s == "ion"));
}

#[test]
fn did_method_well_formed() {
    assert_eq!(Did("did:key:z6MkhaXg".to_string()).method().as_str(), "key");
    assert_eq!(Did("did:web:example.com".to_string()).method(), DidMethod::Web);
    assert_eq!(Did("did:peer:2.Ez6".to_string()).method(), DidMethod::Peer);
    assert_eq!(Did("did:ion:abc".to_string()).method().as_str(), "ion");
}

#[test]
fn did_method_without_separator_runs_to_end() {
    assert_eq!(Did("did:key".to_string()).method(), DidMethod::Key);
    assert_eq!(Did("did:odd".to_string()).method().as_str(), "odd");
}

#[test]
fn did_method_malformed_yields_empty_unknown() {
    assert_eq!(Did("not-a-did".to_string()).method(), DidMethod::Unknown(String::new()));
    assert_eq!(Did("".to_string()).method(), DidMethod::Unknown(String::new()));
    assert_eq!(Did("did".to_string()).method(), DidMethod::Unknown(String::new()));
    assert_eq!(Did("did:".to_string()).method(), DidMethod::Unknown(String::new()));
    assert_eq!(Did("did::rest".to_string()).method(), DidMethod::Unknown(String::new()));
    assert_eq!(Did("DID:key:z".to_string()).method(), DidMethod::Unknown(String::new()));
}

#[test]
fn did_url_splits_at_first_hash() {
    let url = DidUrl("did:key:z6Mk#key-1".to_string());
    assert_eq!(url.did().0, "did:key:z6Mk");
    assert_eq!(url.fragment(), Some("key-1"));
}

#[test]
fn did_url_without_fragment() {
    let url = DidUrl("did:key:z6Mk".to_string());
    assert_eq!(url.did().0, "did:key:z6Mk");
    assert_eq!(url.fragment(), None);
}

#[test]
fn did_url_multiple_hashes_split_at_first() {
    let url = DidUrl("did:a:b#x#y".to_string());
    assert_eq!(url.did().0, "did:a:b");
    assert_eq!(url.fragment(), Some("x#y"));
}

#[test]
fn did_url_empty_fragment() {
    let url = DidUrl("did:a:b#".to_string());
    assert_eq!(url.did().0, "did:a:b");
    assert_eq!(url.fragment(), Some(""));
}
