//! Trust in identities.

use vstd::prelude::*;

verus! {

/// Whether to trust or reject new identities
#[derive(Clone, Copy, Debug, PartialEq, Eq, Structural)]
pub enum OnNewIdentity {
    Reject,
    Trust,
    /// Trust replacements for receiving and for unverified contacts, while
    /// keeping verified-contact replacements pending for explicit approval.
    TrustUnverified,
}

} // verus!
