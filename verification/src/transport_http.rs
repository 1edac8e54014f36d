//! The HTTP binding of the transport contract. A ticket is the remote
//! profile's inbox URL, derived from the transport's base URL alone, and a
//! session delivers a message as one JSON POST to that URL. Computing the
//! ticket, the session state and the outbound request is verified here;
//! performing the actual POST is network I/O and belongs to the host
//! binding, which executes the returned request as it stands.

use vstd::prelude::*;
use vstd::string::*;
use crate::b64::{b64_encode, b64_of};
use crate::errs::IoError;
use crate::json::{message_payload_json, message_payload_view};
use crate::transport::{kind_token, Message, ProfileName, Ticket};

verus! {

/// A base URL with its trailing slashes removed.
pub open spec fn trim_trailing_slashes(s: Seq<char>) -> Seq<char>
    decreases s.len(),
{
    if s.len() > 0 && s.last() == '/' {
        trim_trailing_slashes(s.drop_last())
    } else {
        s
    }
}

/// The ticket the HTTP transport issues: `<base>/profiles/<name>/inbox`.
pub open spec fn http_ticket_view(base: Seq<char>, profile: Seq<char>) -> Seq<char> {
    trim_trailing_slashes(base) + "/profiles/"@ + profile + "/inbox"@
}

/// The HTTP transport: configured by its public base URL.
#[derive(Clone, Debug)]
pub struct HttpTransport {
    pub base_url: String,
}

/// An open HTTP session: pushes to the remote inbox URL on behalf of the
/// local profile.
pub struct HttpSession {
    pub remote_inbox_url: String,
    pub local: ProfileName,
}

/// The one HTTP request that delivers a message: a POST of a JSON message
/// payload to the remote inbox URL.
pub struct OutboundRequest {
    pub url: String,
    pub json_body: String,
}

impl HttpTransport {
    pub fn new(base_url: String) -> (r: HttpTransport)
        ensures
            r.base_url@ == base_url@,
    {
        HttpTransport { base_url }
    }

    /// Issue the ticket for a profile: deterministic in the base URL and
    /// the profile, and sufficient on its own to reach the profile's inbox.
    pub fn ticket(&self, profile: &ProfileName) -> (r: Result<Ticket, IoError>)
        ensures
            r is Ok,
            r matches Ok(t) ==> t.0@ == http_ticket_view(self.base_url@, profile.0@),
    {
        let s: &str = self.base_url.as_str();
        let n = s.unicode_len();
        let mut k: usize = n;
        proof {
            assert(s@.take(n as int) =~= s@);
        }
        while k > 0 && s.get_char(k - 1) == '/'
            invariant
                k <= n,
                n == s@.len(),
                trim_trailing_slashes(s@) == trim_trailing_slashes(s@.take(k as int)),
            decreases k,
        {
            proof {
                assert(s@.take(k as int).drop_last() =~= s@.take(k - 1 as int));
            }
            k = k - 1;
        }
        let mut out = String::from_str(s.substring_char(0, k));
        out.append("/profiles/");
        out.append(profile.0.as_str());
        out.append("/inbox");
        proof {
            assert(trim_trailing_slashes(s@.take(k as int)) == s@.take(k as int));
            assert(out@ =~= http_ticket_view(self.base_url@, profile.0@));
        }
        Ok(Ticket(out))
    }

    /// Open a session against a remote ticket: only the minimal
    /// interpretation needed — the ticket is taken as the remote inbox URL.
    /// No message exchange happens here.
    pub fn open_session(&self, local: &ProfileName, remote: &Ticket) -> (r: Result<
        HttpSession,
        IoError,
    >)
        ensures
            r is Ok,
            r matches Ok(sess) ==> sess.remote_inbox_url@ == remote.0@ && sess.local.0@
                == local.0@,
    {
        Ok(
            HttpSession {
                remote_inbox_url: String::from_str(remote.0.as_str()),
                local: ProfileName(String::from_str(local.0.as_str())),
            },
        )
    }
}

impl HttpSession {
    /// The request whose execution delivers `msg` on this session: a POST
    /// of the JSON message payload, body base64-encoded, to the remote
    /// inbox URL.
    pub fn outbound_request(&self, msg: &Message) -> (r: OutboundRequest)
        ensures
            r.url@ == self.remote_inbox_url@,
            r.json_body@ == message_payload_view(
                msg.from.0@,
                kind_token(msg.kind@),
                b64_of(msg.body@),
            ),
    {
        let body_b64 = b64_encode(&msg.body);
        let json_body = message_payload_json(
            msg.from.0.as_str(),
            msg.kind.as_str(),
            body_b64.as_str(),
        );
        OutboundRequest { url: String::from_str(self.remote_inbox_url.as_str()), json_body }
    }

    /// HTTP delivery is push-only: a session never sees an inbound
    /// message. This is the legitimate terminal state for receiving, not
    /// an error.
    pub fn recv(&mut self) -> (r: Result<Option<Message>, IoError>)
        ensures
            r matches Ok(m) && m is None,
    {
        Ok(None)
    }
}

} // verus!
