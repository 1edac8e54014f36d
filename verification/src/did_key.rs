//! A stateless manager for key-based DIDs. Resolution returns a minimal
//! document with one verification-method URL; creation mints a placeholder
//! identifier that records whether a JCS-encoded public key was requested.
//! Cryptographic derivation of the identifier is an extension point.

use vstd::prelude::*;
use vstd::string::*;
use crate::did::{
    DidCreateParams, DidDocument, DidError, DidProvider, DidResolver,
};
use crate::types::{
    Did, DidMethod, DidUrl, MethodView, did_method_view, first_at_or_after,
    lemma_first_at_or_after_is, method_of_token,
};

verus! {

/// The zero-sized key-method manager.
pub struct KeyDidManager;

/// The identifier this provider mints: a fixed `did:key:z` stem and a
/// suffix recording the requested key encoding.
pub open spec fn key_did_string(use_jcs_pub: bool) -> Seq<char> {
    "did:key:z"@ + (if use_jcs_pub {
        "jcs"@
    } else {
        "raw"@
    })
}

/// Any `did:key:z...` string whose suffix is free of colons carries the
/// key method.
proof fn lemma_key_did_method(suffix: Seq<char>)
    requires
        forall|i: int| 0 <= i < suffix.len() ==> suffix[i] != ':',
    ensures
        did_method_view("did:key:z"@ + suffix) == MethodView::Key,
{
    reveal_strlit("did:key:z");
    reveal_strlit("did:");
    reveal_strlit("key");
    let s = "did:key:z"@ + suffix;
    assert(s.subrange(0, 4) =~= "did:"@);
    assert(forall|k: int| 4 <= k < 7 ==> s[k] != ':');
    assert(s[7] == ':');
    lemma_first_at_or_after_is(s, ':', 4, 7);
    assert(s.subrange(4, 7) =~= "key"@);
}

impl DidResolver for KeyDidManager {
    /// A minimal document: the DID itself, and one verification-method URL
    /// formed by appending the fragment `#key-1`.
    fn resolve(&self, did: &Did) -> (r: Result<DidDocument, DidError>)
        ensures
            r matches Ok(doc) ==> doc.id.0@ == did.0@
                && doc.verification_method_ids@.len() == 1
                && doc.verification_method_ids@[0].0@ == did.0@ + "#key-1"@,
            r is Ok,
    {
        let mut url = String::from_str(did.0.as_str());
        url.append("#key-1");
        Ok(
            DidDocument {
                id: Did(String::from_str(did.0.as_str())),
                verification_method_ids: vec![DidUrl(url)],
            },
        )
    }
}

impl DidProvider for KeyDidManager {
    open spec fn provided_method(&self) -> MethodView {
        MethodView::Key
    }

    fn method(&self) -> (r: DidMethod)
        ensures
            r@ == self.provided_method(),
    {
        DidMethod::Key
    }

    /// Creation succeeds exactly on key-tagged parameters; parameters
    /// tagged for any other method fail with `Method` and return no DID.
    fn create(&self, params: &DidCreateParams) -> (r: Result<Did, DidError>)
        ensures
            match params {
                DidCreateParams::Key(opts) => r matches Ok(did) && did.0@ == key_did_string(
                    opts.use_jcs_pub,
                ),
                _ => r matches Err(e) && e matches DidError::Method(_),
            },
    {
        match params {
            DidCreateParams::Key(opts) => {
                let mut s = String::from_str("did:key:z");
                if opts.use_jcs_pub {
                    s.append("jcs");
                } else {
                    s.append("raw");
                }
                proof {
                    reveal_strlit("jcs");
                    reveal_strlit("raw");
                    if opts.use_jcs_pub {
                        lemma_key_did_method("jcs"@);
                    } else {
                        lemma_key_did_method("raw"@);
                    }
                }
                Ok(Did(s))
            },
            _ => Err(
                DidError::Method(String::from_str("unsupported create params for did:key")),
            ),
        }
    }
}

} // verus!
