use mee_node::transport::{
    Message, MessageKind, NoopSession, NoopTransport, ProfileName, Session, Ticket, Transport,
};
use mee_node::transport_http::HttpTransport;

#[test]
fn message_kind_round_trip() {
    assert_eq!(MessageKind::parse("ping"), MessageKind::Ping);
    assert_eq!(MessageKind::parse("text"), MessageKind::Text);
    assert_eq!(MessageKind::parse("caps"), MessageKind::Caps);
    assert_eq!(MessageKind::parse("ping").as_str(), "ping");
    assert_eq!(MessageKind::parse("text").as_str(), "text");
    assert_eq!(MessageKind::parse("caps").as_str(), "caps");
    assert_eq!(MessageKind::parse("hello").as_str(), "hello");
    assert_eq!(MessageKind::parse(""), MessageKind::Unknown(String::new()));
}

#[test]
fn http_ticket_is_the_profile_inbox_url() {
    let transport = HttpTransport::new("http://host".to_string());
    let ticket = transport.ticket(&ProfileName("alice".to_string())).unwrap();
    assert_eq!(ticket.0, "http://host/profiles/alice/inbox");
}

#[test]
fn http_ticket_trims_trailing_slashes() {
    let transport = HttpTransport::new("http://host///".to_string());
    let ticket = transport.ticket(&ProfileName("alice".to_string())).unwrap();
    assert_eq!(ticket.0, "http://host/profiles/alice/inbox");
}

#[test]
fn http_ticket_is_deterministic() {
    let transport = HttpTransport::new("http://host:8080".to_string());
    let profile = ProfileName("alice".to_string());
    let first = transport.ticket(&profile).unwrap();
    let second = transport.ticket(&profile).unwrap();
    assert_eq!(first, second);
}

#[test]
fn http_session_takes_the_ticket_as_inbox_url() {
    let transport = HttpTransport::new("http://b".to_string());
    let sess = transport
        .open_session(
            &ProfileName("bob".to_string()),
            &Ticket("http://host/profiles/alice/inbox".to_string()),
        )
        .unwrap();
    assert_eq!(sess.remote_inbox_url, "http://host/profiles/alice/inbox");
    assert_eq!(sess.local.0, "bob");
    let req = sess.outbound_request(&Message {
        from: ProfileName("bob".to_string()),
        kind: MessageKind::Ping,
        body: Vec::new(),
    });
    assert_eq!(req.url, "http://host/profiles/alice/inbox");
    assert_eq!(req.json_body, "{\"from\":\"bob\",\"kind\":\"ping\",\"body_b64\":\"\"}");
}

#[test]
fn http_session_has_no_inbound_path() {
    let transport = HttpTransport::new("http://b".to_string());
    let mut sess = transport
        .open_session(&ProfileName("bob".to_string()), &Ticket("t".to_string()))
        .unwrap();
    assert!(matches!(sess.recv(), Ok(None)));
}

#[test]
fn outbound_request_encodes_the_body_as_base64() {
    let transport = HttpTransport::new("http://b".to_string());
    let sess = transport
        .open_session(&ProfileName("bob".to_string()), &Ticket("t".to_string()))
        .unwrap();
    let req = sess.outbound_request(&Message {
        from: ProfileName("bob".to_string()),
        kind: MessageKind::Text,
        body: vec![104, 105],
    });
    assert_eq!(req.json_body, "{\"from\":\"bob\",\"kind\":\"text\",\"body_b64\":\"aGk=\"}");
}

#[test]
fn outbound_request_escapes_json_text() {
    let transport = HttpTransport::new("http://b".to_string());
    let sess = transport
        .open_session(&ProfileName("bo\"b\\".to_string()), &Ticket("t".to_string()))
        .unwrap();
    let req = sess.outbound_request(&Message {
        from: ProfileName("bo\"b\\".to_string()),
        kind: MessageKind::Unknown("li\nne".to_string()),
        body: Vec::new(),
    });
    let parsed: serde_json::Value = serde_json::from_str(&req.json_body).unwrap();
    assert_eq!(parsed["from"].as_str().unwrap(), "bo\"b\\");
    assert_eq!(parsed["kind"].as_str().unwrap(), "li\nne");
    assert_eq!(parsed["body_b64"].as_str().unwrap(), "");
}

#[test]
fn noop_transport_models_the_contract() {
    let transport = NoopTransport;
    let profile = ProfileName("p".to_string());
    let ticket = transport.ticket(&profile).unwrap();
    assert_eq!(ticket.0, "noop");
    let mut sess: NoopSession = transport.open_session(&profile, &ticket).unwrap();
    let msg = Message {
        from: ProfileName("p".to_string()),
        kind: MessageKind::Ping,
        body: Vec::new(),
    };
    assert!(sess.send(&msg).is_ok());
    assert!(matches!(sess.recv(), Ok(None)));
}
