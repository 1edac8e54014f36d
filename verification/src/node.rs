//! Node composition: the capability aggregate binding one transport, one
//! identity manager and one store behind a single accessor surface, and
//! the control-plane core acting through it — issuing the local ticket,
//! delivering inbound messages into the persisted inbox, listing the
//! inbox, and preparing an outbound ping.

use vstd::pervasive::unreached;
use vstd::prelude::*;
use vstd::string::*;
use crate::b64::{b64_decode, b64_decoded, b64_encode, b64_of};
use crate::did::DidManager;
use crate::did_key::KeyDidManager;
use crate::inbox::{
    enc_items, encode_inbox, parse_inbox, spec_parse_items, views_of, InboxItem, InboxItemView,
};
use crate::json::message_payload_view;
use crate::store::{Key, KvStore, Namespace, Value};
use crate::store_mem::MemKvStore;
use crate::transport::{
    Message, MessageKind, NoopTransport, ProfileName, Ticket, Transport,
};
use crate::transport_http::{http_ticket_view, HttpTransport, OutboundRequest};
use crate::types::{NodeId, UserId};

verus! {

/// The capability aggregate: accessors for the profile, the identifiers,
/// and the three subsystems. It performs no logic of its own; constructing
/// one is the composing application's responsibility.
pub trait Node: Sized {
    type Transport: Transport;

    type DidManager: DidManager;

    type Store: KvStore;

    fn profile(&self) -> &ProfileName;

    fn node_id(&self) -> &NodeId;

    fn user_id(&self) -> Option<&UserId>;

    fn transport(&self) -> &Self::Transport;

    fn did_manager(&self) -> &Self::DidManager;

    fn store(&self) -> &Self::Store;
}

/// A self-contained node for hosts without a network path: the degenerate
/// transport, the key-method manager and an in-memory store.
pub struct LocalNode {
    pub profile: ProfileName,
    pub node_id: NodeId,
    pub transport: NoopTransport,
    pub manager: KeyDidManager,
    pub store: MemKvStore,
}

impl LocalNode {
    pub fn new(profile: ProfileName) -> (r: LocalNode)
        ensures
            r.profile == profile,
            r.node_id.0@ == "did:key:zlocal"@,
            r.store.contents() == Map::<(Seq<char>, Seq<char>), Seq<char>>::empty(),
    {
        LocalNode {
            profile,
            node_id: NodeId(String::from_str("did:key:zlocal")),
            transport: NoopTransport,
            manager: KeyDidManager,
            store: MemKvStore::new(),
        }
    }
}

impl Node for LocalNode {
    type Transport = NoopTransport;

    type DidManager = KeyDidManager;

    type Store = MemKvStore;

    fn profile(&self) -> (r: &ProfileName)
        ensures
            *r == self.profile,
    {
        &self.profile
    }

    fn node_id(&self) -> (r: &NodeId)
        ensures
            *r == self.node_id,
    {
        &self.node_id
    }

    /// This node is not owned by a user account.
    fn user_id(&self) -> (r: Option<&UserId>)
        ensures
            r is None,
    {
        None
    }

    fn transport(&self) -> (r: &NoopTransport) {
        &self.transport
    }

    fn did_manager(&self) -> (r: &KeyDidManager) {
        &self.manager
    }

    fn store(&self) -> (r: &MemKvStore)
        ensures
            *r == self.store,
    {
        &self.store
    }
}

/// The items a stored inbox value denotes: the parsed list, or empty when
/// the value is not a framed item list.
pub open spec fn items_denoted(v: Seq<char>) -> Seq<InboxItemView> {
    match spec_parse_items(v) {
        Some(items) => items,
        None => Seq::empty(),
    }
}

/// The inbox items a store holds, under namespace `inbox` and key `items`.
pub open spec fn inbox_items_of(m: Map<(Seq<char>, Seq<char>), Seq<char>>) -> Seq<
    InboxItemView,
> {
    if m.contains_key(("inbox"@, "items"@)) {
        items_denoted(m[("inbox"@, "items"@)])
    } else {
        Seq::empty()
    }
}

/// A successful delivery is retrievable: writing the encoding of the old
/// inbox items extended by one item makes the inbox denote exactly those
/// items, whatever the store held before.
pub proof fn lemma_delivery_appends(
    m: Map<(Seq<char>, Seq<char>), Seq<char>>,
    item: InboxItemView,
)
    ensures
        inbox_items_of(
            m.insert(("inbox"@, "items"@), enc_items(inbox_items_of(m).push(item))),
        ) == inbox_items_of(m).push(item),
{
    crate::inbox::lemma_inbox_round_trip(inbox_items_of(m).push(item));
}

/// Why a delivery was rejected.
#[derive(Clone, Copy, Debug, PartialEq, Eq)]
pub enum InboxDeliveryError {
    /// The addressed profile is not this node's.
    WrongProfile,
    /// The message body is not valid base64.
    InvalidBody,
}

/// The node behind the HTTP control plane: reachable under its profile via
/// the HTTP transport, persisting received messages in an in-memory store.
/// The transport's live POST is executed by the host binding; everything
/// the node decides or records is here.
pub struct AxumNode {
    pub profile: ProfileName,
    pub node_id: NodeId,
    pub transport: HttpTransport,
    pub manager: KeyDidManager,
    pub store: MemKvStore,
}

/// Shared state handed to the HTTP control plane.
pub struct AppState {
    pub node: AxumNode,
}

impl AxumNode {
    pub fn new(profile: ProfileName, base_url: String) -> (r: AxumNode)
        ensures
            r.profile == profile,
            r.node_id.0@ == "did:key:zaxum"@,
            r.transport.base_url@ == base_url@,
            r.store.contents() == Map::<(Seq<char>, Seq<char>), Seq<char>>::empty(),
    {
        AxumNode {
            profile,
            node_id: NodeId(String::from_str("did:key:zaxum")),
            transport: HttpTransport::new(base_url),
            manager: KeyDidManager,
            store: MemKvStore::new(),
        }
    }

    pub fn profile(&self) -> (r: &ProfileName)
        ensures
            *r == self.profile,
    {
        &self.profile
    }

    pub fn node_id(&self) -> (r: &NodeId)
        ensures
            *r == self.node_id,
    {
        &self.node_id
    }

    /// This node is not owned by a user account.
    pub fn user_id(&self) -> (r: Option<&UserId>)
        ensures
            r is None,
    {
        None
    }

    pub fn transport(&self) -> (r: &HttpTransport)
        ensures
            *r == self.transport,
    {
        &self.transport
    }

    pub fn did_manager(&self) -> (r: &KeyDidManager) {
        &self.manager
    }

    pub fn store(&self) -> (r: &MemKvStore)
        ensures
            *r == self.store,
    {
        &self.store
    }

    /// The ticket under which this node's own profile is reachable.
    pub fn local_ticket(&self) -> (r: Ticket)
        ensures
            r.0@ == http_ticket_view(self.transport.base_url@, self.profile.0@),
    {
        match self.transport.ticket(&self.profile) {
            Ok(t) => t,
            Err(_) => unreached(),
        }
    }

    /// Deliver one inbound message. The addressed profile must be this
    /// node's and the body must be valid base64; the item is then appended
    /// to the persisted inbox list, its body re-encoded canonically. A
    /// rejected delivery leaves the node unchanged.
    pub fn deliver_inbox(
        &mut self,
        name: &str,
        from: &str,
        kind: &str,
        body_b64: &str,
    ) -> (r: Result<(), InboxDeliveryError>)
        ensures
            r == Err::<(), InboxDeliveryError>(InboxDeliveryError::WrongProfile) <==> name@
                != old(self).profile.0@,
            r == Err::<(), InboxDeliveryError>(InboxDeliveryError::InvalidBody) <==> (name@
                == old(self).profile.0@ && b64_decoded(body_b64@) is None),
            r is Err ==> *final(self) == *old(self),
            r is Ok ==> (b64_decoded(body_b64@) matches Some(bytes)
                && final(self).store.contents() == old(self).store.contents().insert(
                ("inbox"@, "items"@),
                enc_items(
                    inbox_items_of(old(self).store.contents()).push(
                        InboxItemView { from: from@, kind: kind@, body_b64: b64_of(bytes) },
                    ),
                ),
            )),
            final(self).profile == old(self).profile,
            final(self).node_id == old(self).node_id,
            final(self).transport == old(self).transport,
    {
        let nm = String::from_str(name);
        if !(nm == self.profile.0) {
            return Err(InboxDeliveryError::WrongProfile);
        }
        let decoded = match b64_decode(body_b64) {
            Some(b) => b,
            None => {
                return Err(InboxDeliveryError::InvalidBody);
            },
        };
        let canonical = b64_encode(&decoded);
        let item = InboxItem {
            from: String::from_str(from),
            kind: String::from_str(kind),
            body_b64: canonical,
        };
        let ns = Namespace(String::from_str("inbox"));
        let key = Key(String::from_str("items"));
        let ghost m0 = self.store.contents();
        let ghost pair = ("inbox"@, "items"@);
        let mut list: Vec<InboxItem> = Vec::new();
        proof {
            assert(views_of(list@) =~= Seq::<InboxItemView>::empty());
        }
        match self.store.get_entry(&ns, &key) {
            Some(v) => {
                match parse_inbox(v.0.as_str()) {
                    Some(l) => {
                        proof {
                            assert(views_of(l@) == items_denoted(m0[pair]));
                        }
                        list = l;
                    },
                    None => {},
                }
            },
            None => {},
        }
        proof {
            assert(views_of(list@) == inbox_items_of(m0));
        }
        let ghost before_push = views_of(list@);
        list.push(item);
        proof {
            assert(views_of(list@) =~= before_push.push(item@));
        }
        let encoded = encode_inbox(&list);
        self.store.set_entry(&ns, &key, &Value(encoded));
        Ok(())
    }

    /// The items currently in this node's persisted inbox.
    pub fn list_inbox(&self) -> (r: Vec<InboxItem>)
        ensures
            views_of(r@) == inbox_items_of(self.store.contents()),
    {
        let ns = Namespace(String::from_str("inbox"));
        let key = Key(String::from_str("items"));
        let ghost m0 = self.store.contents();
        let ghost pair = ("inbox"@, "items"@);
        let mut list: Vec<InboxItem> = Vec::new();
        proof {
            assert(views_of(list@) =~= Seq::<InboxItemView>::empty());
        }
        match self.store.get_entry(&ns, &key) {
            Some(v) => {
                match parse_inbox(v.0.as_str()) {
                    Some(l) => {
                        proof {
                            assert(views_of(l@) == items_denoted(m0[pair]));
                        }
                        list = l;
                    },
                    None => {},
                }
            },
            None => {},
        }
        list
    }

    /// The ping body an optional base64 input denotes: the decoded bytes,
    /// or empty when the input is absent or not valid base64.
    pub open spec fn ping_body_bytes(b: Option<Seq<char>>) -> Seq<u8> {
        match b {
            Some(s) => match b64_decoded(s) {
                Some(bytes) => bytes,
                None => Seq::empty(),
            },
            None => Seq::empty(),
        }
    }

    /// The request whose execution sends this node's ping to a remote
    /// ticket: a session is opened from this node's profile against the
    /// ticket, and the message is a ping whose body is the decoded
    /// optional base64 input.
    pub fn ping_request(&self, to_ticket: &Ticket, body_b64: Option<&str>) -> (r:
        OutboundRequest)
        ensures
            r.url@ == to_ticket.0@,
            r.json_body@ == message_payload_view(
                self.profile.0@,
                "ping"@,
                b64_of(
                    AxumNode::ping_body_bytes(
                        match body_b64 {
                            Some(s) => Some(s@),
                            None => None,
                        },
                    ),
                ),
            ),
    {
        let sess = match self.transport.open_session(&self.profile, to_ticket) {
            Ok(s) => s,
            Err(_) => unreached(),
        };
        let body: Vec<u8> = match body_b64 {
            Some(s) => match b64_decode(s) {
                Some(b) => b,
                None => Vec::new(),
            },
            None => Vec::new(),
        };
        let msg = Message {
            from: ProfileName(String::from_str(self.profile.0.as_str())),
            kind: MessageKind::Ping,
            body,
        };
        sess.outbound_request(&msg)
    }
}

} // verus!
