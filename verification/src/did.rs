//! The DID resolution/provisioning contract: a `DidResolver` turns a DID
//! into its document, a `DidProvider` mints a new DID of the method it
//! implements, and a manager is anything that does both. The two are
//! decoupled so a backend may implement one without the other.

use vstd::prelude::*;
use crate::types::{Did, DidMethod, DidUrl, MethodView, did_method_view};

verus! {

/// A resolved identity record: the owning DID and its ordered
/// verification-method URLs. Produced only by a resolver and immutable once
/// returned.
#[derive(Clone, Debug)]
pub struct DidDocument {
    pub id: Did,
    pub verification_method_ids: Vec<DidUrl>,
}

/// The relationship a verification method may stand in to its DID.
#[derive(Copy, Clone, Debug)]
pub enum VerificationRelationship {
    Authentication,
    AssertionMethod,
    KeyAgreement,
    CapabilityInvocation,
    CapabilityDelegation,
}

/// Identity-subsystem failures.
#[derive(Clone, Debug, PartialEq, Eq)]
pub enum DidError {
    /// Unsupported create-parameter variant for this provider.
    Method(String),
    /// A method-specific lookup could not complete.
    Resolve(String),
    /// The identifier does not exist.
    NotFound(String),
    /// The identifier or parameters are malformed for the method.
    Invalid(String),
    /// Uncategorized.
    Other(String),
}

/// Creation options for key-based DIDs.
#[derive(Clone, Debug)]
pub struct DidKeyCreateOptions {
    pub jwk: String,
    pub use_jcs_pub: bool,
}

/// Creation options for web-based DIDs.
#[derive(Clone, Debug)]
pub struct DidWebCreateOptions {
    pub domain: String,
    pub path: String,
}

/// Creation options for peer-based DIDs: an extension point with no
/// options yet.
#[derive(Clone, Debug)]
pub struct DidPeerCreateOptions {}

/// Method-specific creation parameters, one case per supported method.
#[derive(Clone, Debug)]
pub enum DidCreateParams {
    Key(DidKeyCreateOptions),
    Web(DidWebCreateOptions),
    Peer(DidPeerCreateOptions),
}

/// The resolution capability: DID to document. A resolved document owns the
/// DID it was resolved from.
pub trait DidResolver: Sized {
    fn resolve(&self, did: &Did) -> (r: Result<DidDocument, DidError>)
        ensures
            r matches Ok(doc) ==> doc.id.0@ == did.0@,
    ;
}

/// The provisioning capability: mint a new DID of this provider's method.
/// A provider refuses parameters tagged for a method it does not implement,
/// and a successful creation returns a DID whose method token matches the
/// provider's declared method.
pub trait DidProvider: Sized {
    /// The method this provider implements.
    spec fn provided_method(&self) -> MethodView;

    fn method(&self) -> (r: DidMethod)
        ensures
            r@ == self.provided_method(),
    ;

    fn create(&self, params: &DidCreateParams) -> (r: Result<Did, DidError>)
        ensures
            r matches Ok(did) ==> did_method_view(did.0@) == self.provided_method(),
    ;
}

/// A combined capability: anything that both resolves and provides.
pub trait DidManager: DidProvider + DidResolver {

}

impl<T: DidProvider + DidResolver> DidManager for T {

}

} // verus!
