//! The transport/session contract: a transport issues a reachable address
//! (a ticket) for a local profile and opens sessions against remote
//! tickets; a session exchanges typed messages. The message kind is an open
//! enumeration so unknown kinds are carried verbatim, never rejected.

use vstd::prelude::*;
use vstd::string::*;
use crate::errs::IoError;

verus! {

/// A transport-level name under which a node is reachable.
#[derive(Clone, Debug, PartialEq, Eq, Hash)]
pub struct ProfileName(pub String);

/// An opaque, transport-issued token sufficient to address a remote
/// profile; meaningful only to the transport that issued it.
#[derive(Clone, Debug, PartialEq, Eq, Hash)]
pub struct Ticket(pub String);

/// The semantic type of a message, as an open enumeration.
#[derive(Clone, Debug, PartialEq, Eq, Hash)]
pub enum MessageKind {
    Ping,
    Text,
    Caps,
    Unknown(String),
}

/// Mathematical form of a `MessageKind`: the `Unknown` case carries the
/// kind token as a character sequence.
pub enum KindView {
    Ping,
    Text,
    Caps,
    Unknown(Seq<char>),
}

impl View for MessageKind {
    type V = KindView;

    open spec fn view(&self) -> KindView {
        match self {
            MessageKind::Ping => KindView::Ping,
            MessageKind::Text => KindView::Text,
            MessageKind::Caps => KindView::Caps,
            MessageKind::Unknown(s) => KindView::Unknown(s@),
        }
    }
}

/// The kind a given token names.
pub open spec fn kind_of_token(s: Seq<char>) -> KindView {
    if s == "ping"@ {
        KindView::Ping
    } else if s == "text"@ {
        KindView::Text
    } else if s == "caps"@ {
        KindView::Caps
    } else {
        KindView::Unknown(s)
    }
}

/// The token a kind prints as.
pub open spec fn kind_token(k: KindView) -> Seq<char> {
    match k {
        KindView::Ping => "ping"@,
        KindView::Text => "text"@,
        KindView::Caps => "caps"@,
        KindView::Unknown(s) => s,
    }
}

/// Round-trip law for the open enumeration: parsing any kind token and
/// printing the result gives the token back.
pub proof fn lemma_kind_token_round_trip(s: Seq<char>)
    ensures
        kind_token(kind_of_token(s)) == s,
{
}

impl MessageKind {
    /// Parse a kind token; unrecognized tokens are preserved verbatim.
    pub fn parse(s: &str) -> (r: MessageKind)
        ensures
            r@ == kind_of_token(s@),
    {
        let owned = String::from_str(s);
        if owned == String::from_str("ping") {
            MessageKind::Ping
        } else if owned == String::from_str("text") {
            MessageKind::Text
        } else if owned == String::from_str("caps") {
            MessageKind::Caps
        } else {
            MessageKind::Unknown(owned)
        }
    }

    /// The token this kind prints as.
    pub fn as_str(&self) -> (r: &str)
        ensures
            r@ == kind_token(self@),
    {
        match self {
            MessageKind::Ping => "ping",
            MessageKind::Text => "text",
            MessageKind::Caps => "caps",
            MessageKind::Unknown(s) => s.as_str(),
        }
    }
}

/// One unit of peer-to-peer communication. The body is opaque binary;
/// framing and encoding are a transport concern.
#[derive(Clone, Debug)]
pub struct Message {
    pub from: ProfileName,
    pub kind: MessageKind,
    pub body: Vec<u8>,
}

/// A channel opened against a ticket. `send` returns once the transport
/// has accepted the message for delivery; `recv` returns the next inbound
/// message, or none when the transport has no inbound path.
pub trait Session: Sized {
    fn send(&mut self, msg: &Message) -> (r: Result<(), IoError>);

    fn recv(&mut self) -> (r: Result<Option<Message>, IoError>);
}

/// The transport capability. A ticket is a function of the profile and the
/// transport's current configuration alone, so issuing is deterministic; it
/// must suffice, on its own, for a remote party to reach the profile.
pub trait Transport: Sized {
    type Sess: Session;

    /// The ticket this transport issues for a profile under its current
    /// configuration.
    spec fn ticket_view(&self, profile: Seq<char>) -> Seq<char>;

    fn ticket(&self, profile: &ProfileName) -> (r: Result<Ticket, IoError>)
        ensures
            r matches Ok(t) ==> t.0@ == self.ticket_view(profile.0@),
    ;

    fn open_session(&self, local: &ProfileName, remote: &Ticket) -> (r: Result<
        Self::Sess,
        IoError,
    >);
}

/// Determinism law: with no intervening configuration change, two issued
/// tickets for the same profile are the same value.
pub proof fn lemma_ticket_deterministic<T: Transport>(
    t: &T,
    profile: Seq<char>,
    r1: Seq<char>,
    r2: Seq<char>,
)
    requires
        r1 == t.ticket_view(profile),
        r2 == t.ticket_view(profile),
    ensures
        r1 == r2,
{
}

/// The degenerate transport: a fixed ticket, and sessions that accept every
/// message and never deliver one inbound. It is the trivial model of the
/// contract, for hosts with no network path.
pub struct NoopTransport;

/// A session of the degenerate transport.
pub struct NoopSession;

impl Session for NoopSession {
    /// Accepts and drops the message.
    fn send(&mut self, msg: &Message) -> (r: Result<(), IoError>)
        ensures
            r is Ok,
    {
        Ok(())
    }

    /// There is no inbound path: always none.
    fn recv(&mut self) -> (r: Result<Option<Message>, IoError>)
        ensures
            r matches Ok(m) && m is None,
    {
        Ok(None)
    }
}

impl Transport for NoopTransport {
    type Sess = NoopSession;

    open spec fn ticket_view(&self, profile: Seq<char>) -> Seq<char> {
        "noop"@
    }

    fn ticket(&self, profile: &ProfileName) -> (r: Result<Ticket, IoError>)
        ensures
            r matches Ok(t) ==> t.0@ == self.ticket_view(profile.0@),
    {
        Ok(Ticket(String::from_str("noop")))
    }

    fn open_session(&self, local: &ProfileName, remote: &Ticket) -> (r: Result<
        NoopSession,
        IoError,
    >)
        ensures
            r is Ok,
    {
        Ok(NoopSession)
    }
}

} // verus!
