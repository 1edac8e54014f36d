use mee_node::did::{
    DidCreateParams, DidError, DidKeyCreateOptions, DidProvider, DidResolver,
    DidWebCreateOptions,
};
use mee_node::did_key::KeyDidManager;
use mee_node::types::{Did, DidMethod};

#[test]
fn key_manager_declares_the_key_method() {
    assert_eq!(KeyDidManager.method(), DidMethod::Key);
    assert_eq!(KeyDidManager.method().as_str(), "key");
}

#[test]
fn create_with_key_params_returns_a_key_did() {
    let params = DidCreateParams::Key(DidKeyCreateOptions {
        jwk: String::new(),
        use_jcs_pub: false,
    });
    let did = KeyDidManager.create(&params).unwrap();
    assert_eq!(did.0, "did:key:zraw");
    assert_eq!(did.method(), DidMethod::Key);
}

#[test]
fn create_records_the_requested_key_encoding() {
    let params = DidCreateParams::Key(DidKeyCreateOptions {
        jwk: String::new(),
        use_jcs_pub: true,
    });
    let did = KeyDidManager.create(&params).unwrap();
    assert_eq!(did.0, "did:key:zjcs");
    assert_eq!(did.method(), DidMethod::Key);
}

#[test]
fn create_with_web_params_fails_with_method_and_no_did() {
    let params = DidCreateParams::Web(DidWebCreateOptions {
        domain: "example.com".to_string(),
        path: "alice".to_string(),
    });
    let r = KeyDidManager.create(&params);
    assert!(matches!(r, Err(DidError::Method(_))));
}

#[test]
fn resolve_returns_a_document_owning_the_did() {
    let did = Did("did:key:z6Mk".to_string());
    let doc = KeyDidManager.resolve(&did).unwrap();
    assert_eq!(doc.id.0, "did:key:z6Mk");
    assert_eq!(doc.verification_method_ids.len(), 1);
    assert_eq!(doc.verification_method_ids[0].0, "did:key:z6Mk#key-1");
    let vm = &doc.verification_method_ids[0];
    assert_eq!(vm.did().0, "did:key:z6Mk");
    assert_eq!(vm.fragment(), Some("key-1"));
}
