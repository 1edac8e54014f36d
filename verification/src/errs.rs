//! The single generic failure category shared by the store and transport
//! contracts: callers distinguish cases only by message text.

use vstd::prelude::*;

verus! {

/// A generic I/O-style failure, carrying only a message.
#[derive(Clone, Debug, PartialEq, Eq)]
pub struct IoError(pub String);

} // verus!
