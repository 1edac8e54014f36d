//! Identifier value types: node and user identifiers, decentralized
//! identifiers (DIDs) of the form `did:<method>:<id>`, DID URLs with an
//! optional `#fragment`, and the open enumeration of DID methods.

use vstd::prelude::*;
use vstd::string::*;

verus! {

/// Stable identifier of a node instance.
#[derive(Clone, Debug, PartialEq, Eq, Hash)]
pub struct NodeId(pub String);

/// Identifier of a human or account owning a node; a node may have none.
#[derive(Clone, Debug, PartialEq, Eq, Hash)]
pub struct UserId(pub String);

/// A decentralized identifier string, `did:<method>:<method-specific-id>`.
#[derive(Clone, Debug, PartialEq, Eq, Hash)]
pub struct Did(pub String);

/// A DID plus an optional fragment, `did:...#frag`.
#[derive(Clone, Debug, PartialEq, Eq, Hash)]
pub struct DidUrl(pub String);

/// The method token of a DID, as an open enumeration: the three methods the
/// framework knows about, and `Unknown` carrying any other token verbatim so
/// that future method names are tolerated rather than rejected.
#[derive(Clone, Debug, PartialEq, Eq, Hash)]
pub enum DidMethod {
    Key,
    Web,
    Peer,
    Unknown(String),
}

/// Mathematical form of a `DidMethod`: the `Unknown` case carries the token
/// as a character sequence.
pub enum MethodView {
    Key,
    Web,
    Peer,
    Unknown(Seq<char>),
}

impl View for DidMethod {
    type V = MethodView;

    open spec fn view(&self) -> MethodView {
        match self {
            DidMethod::Key => MethodView::Key,
            DidMethod::Web => MethodView::Web,
            DidMethod::Peer => MethodView::Peer,
            DidMethod::Unknown(s) => MethodView::Unknown(s@),
        }
    }
}

/// The method a given token names.
pub open spec fn method_of_token(s: Seq<char>) -> MethodView {
    if s == "key"@ {
        MethodView::Key
    } else if s == "web"@ {
        MethodView::Web
    } else if s == "peer"@ {
        MethodView::Peer
    } else {
        MethodView::Unknown(s)
    }
}

/// The token a method prints as.
pub open spec fn method_token(m: MethodView) -> Seq<char> {
    match m {
        MethodView::Key => "key"@,
        MethodView::Web => "web"@,
        MethodView::Peer => "peer"@,
        MethodView::Unknown(s) => s,
    }
}

/// Round-trip law for the open enumeration: parsing any token and printing
/// the result gives the token back, for known and unknown tokens alike.
pub proof fn lemma_method_token_round_trip(s: Seq<char>)
    ensures
        method_token(method_of_token(s)) == s,
{
}

impl DidMethod {
    /// Parse a method token; unrecognized tokens are preserved verbatim.
    pub fn parse(s: &str) -> (r: DidMethod)
        ensures
            r@ == method_of_token(s@),
    {
        let owned = String::from_str(s);
        if owned == String::from_str("key") {
            DidMethod::Key
        } else if owned == String::from_str("web") {
            DidMethod::Web
        } else if owned == String::from_str("peer") {
            DidMethod::Peer
        } else {
            DidMethod::Unknown(owned)
        }
    }

    /// The token this method prints as.
    pub fn as_str(&self) -> (r: &str)
        ensures
            r@ == method_token(self@),
    {
        match self {
            DidMethod::Key => "key",
            DidMethod::Web => "web",
            DidMethod::Peer => "peer",
            DidMethod::Unknown(s) => s.as_str(),
        }
    }
}

/// Index of the first occurrence of `c` in `s` at or after position `i`, or
/// `s.len()` when there is none.
pub open spec fn first_at_or_after(s: Seq<char>, c: char, i: int) -> int
    decreases s.len() - i,
{
    if i >= s.len() {
        s.len() as int
    } else if s[i] == c {
        i
    } else {
        first_at_or_after(s, c, i + 1)
    }
}

pub proof fn lemma_first_at_or_after_bounds(s: Seq<char>, c: char, i: int)
    requires
        0 <= i <= s.len(),
    ensures
        i <= first_at_or_after(s, c, i) <= s.len(),
        first_at_or_after(s, c, i) < s.len() ==> s[first_at_or_after(s, c, i)] == c,
        forall|k: int| i <= k < first_at_or_after(s, c, i) ==> s[k] != c,
    decreases s.len() - i,
{
    if i < s.len() && s[i] != c {
        lemma_first_at_or_after_bounds(s, c, i + 1);
    }
}

/// If no occurrence lies in `[i, j)` and `j` is an occurrence or the end,
/// the first occurrence from `i` is exactly `j`.
pub proof fn lemma_first_at_or_after_is(s: Seq<char>, c: char, i: int, j: int)
    requires
        0 <= i <= j <= s.len(),
        forall|k: int| i <= k < j ==> s[k] != c,
        j == s.len() || s[j] == c,
    ensures
        first_at_or_after(s, c, i) == j,
    decreases j - i,
{
    if i < j {
        lemma_first_at_or_after_is(s, c, i + 1, j);
    }
}

/// The method a DID string carries: the token between `did:` and the next
/// `:` (or the end). A string without the `did:` prefix, or with an empty
/// token, yields the unknown method with an empty token — never an error.
pub open spec fn did_method_view(s: Seq<char>) -> MethodView {
    if s.len() >= 4 && s.subrange(0, 4) == "did:"@ && first_at_or_after(s, ':', 4) > 4 {
        method_of_token(s.subrange(4, first_at_or_after(s, ':', 4)))
    } else {
        MethodView::Unknown(Seq::<char>::empty())
    }
}

impl Did {
    /// Derive the method token from the `did:` prefix; malformed strings
    /// yield `Unknown("")`, never an error.
    pub fn method(&self) -> (r: DidMethod)
        ensures
            r@ == did_method_view(self.0@),
    {
        let s: &str = self.0.as_str();
        let n = s.unicode_len();
        if n < 4 {
            return DidMethod::Unknown(String::new());
        }
        let prefix = String::from_str(s.substring_char(0, 4));
        if !(prefix == String::from_str("did:")) {
            return DidMethod::Unknown(String::new());
        }
        let mut j: usize = 4;
        while j < n && s.get_char(j) != ':'
            invariant
                4 <= j <= n,
                n == s@.len(),
                forall|k: int| 4 <= k < j ==> s@[k] != ':',
            decreases n - j,
        {
            j = j + 1;
        }
        proof {
            lemma_first_at_or_after_is(s@, ':', 4, j as int);
        }
        if j == 4 {
            return DidMethod::Unknown(String::new());
        }
        DidMethod::parse(s.substring_char(4, j))
    }
}

/// For a well-formed DID `did:<m>:<rest>` with a non-empty, colon-free
/// method token `m`, the derived method prints back as `m`.
pub proof fn lemma_did_method_of_well_formed(m: Seq<char>, rest: Seq<char>)
    requires
        m.len() > 0,
        forall|i: int| 0 <= i < m.len() ==> m[i] != ':',
    ensures
        method_token(did_method_view("did:"@ + m + ":"@ + rest)) == m,
{
    reveal_strlit("did:");
    reveal_strlit(":");
    let s = "did:"@ + m + ":"@ + rest;
    assert(s.subrange(0, 4) =~= "did:"@);
    assert(forall|k: int| 4 <= k < 4 + m.len() ==> s[k] == m[k - 4] && s[k] != ':');
    assert(s[4 + m.len() as int] == ':');
    lemma_first_at_or_after_is(s, ':', 4, 4 + m.len() as int);
    assert(s.subrange(4, 4 + m.len() as int) =~= m);
    lemma_method_token_round_trip(m);
}

/// A string without the `did:` prefix yields the unknown method with an
/// empty token.
pub proof fn lemma_did_method_without_prefix(s: Seq<char>)
    requires
        s.len() < 4 || s.subrange(0, 4) != "did:"@,
    ensures
        did_method_view(s) == MethodView::Unknown(Seq::<char>::empty()),
{
}

/// The part of a DID URL before the first `#`, or all of it if none.
pub open spec fn did_part(s: Seq<char>) -> Seq<char> {
    s.subrange(0, first_at_or_after(s, '#', 0))
}

/// The part of a DID URL after the first `#`, or none.
pub open spec fn fragment_part(s: Seq<char>) -> Option<Seq<char>> {
    if first_at_or_after(s, '#', 0) < s.len() {
        Some(s.subrange(first_at_or_after(s, '#', 0) + 1, s.len() as int))
    } else {
        None
    }
}

impl DidUrl {
    /// The base DID: everything from `#` onward is stripped.
    pub fn did(&self) -> (r: Did)
        ensures
            r.0@ == did_part(self.0@),
    {
        let s: &str = self.0.as_str();
        let n = s.unicode_len();
        let mut j: usize = 0;
        while j < n && s.get_char(j) != '#'
            invariant
                0 <= j <= n,
                n == s@.len(),
                forall|k: int| 0 <= k < j ==> s@[k] != '#',
            decreases n - j,
        {
            j = j + 1;
        }
        proof {
            lemma_first_at_or_after_is(s@, '#', 0, j as int);
        }
        Did(String::from_str(s.substring_char(0, j)))
    }

    /// The substring after the first `#`, or none when there is no `#`.
    pub fn fragment(&self) -> (r: Option<&str>)
        ensures
            match r {
                Some(f) => fragment_part(self.0@) == Some(f@),
                None => fragment_part(self.0@) is None,
            },
    {
        let s: &str = self.0.as_str();
        let n = s.unicode_len();
        let mut j: usize = 0;
        while j < n && s.get_char(j) != '#'
            invariant
                0 <= j <= n,
                n == s@.len(),
                forall|k: int| 0 <= k < j ==> s@[k] != '#',
            decreases n - j,
        {
            j = j + 1;
        }
        proof {
            lemma_first_at_or_after_is(s@, '#', 0, j as int);
        }
        if j < n {
            Some(s.substring_char(j + 1, n))
        } else {
            None
        }
    }
}

/// Splitting a DID URL loses nothing: the base DID, a `#`, and the fragment
/// reassemble to the original string, and a URL without a fragment is its
/// own base DID.
pub proof fn lemma_did_url_split(s: Seq<char>)
    ensures
        match fragment_part(s) {
            Some(f) => did_part(s) + "#"@ + f == s,
            None => did_part(s) == s,
        },
{
    reveal_strlit("#");
    lemma_first_at_or_after_bounds(s, '#', 0);
    let j = first_at_or_after(s, '#', 0);
    match fragment_part(s) {
        Some(f) => {
            assert(did_part(s) + "#"@ + f =~= s);
        },
        None => {
            assert(did_part(s) =~= s);
        },
    }
}

} // verus!
