//! Deterministic identity-to-address derivation.
//!
//! Every persisted record lives at an address derived from a namespace tag
//! and an owner identity. In a deployed system the derivation would hash the
//! tag together with the identity; here the address is modeled as the pair
//! itself, which is deterministic, side-effect free, and collision-free by
//! construction — `lemma_derive_address_injective` states the collision
//! freedom that the "one record per identity and namespace" invariant rests
//! on.

use vstd::prelude::*;

verus! {

/// An authenticated principal, able to sign and issue operations.
pub type Identity = u64;

/// The two record namespaces of the ledger.
#[derive(Clone, Copy, Debug, PartialEq, Eq, Structural)]
pub enum Namespace {
    /// Account records: one per owner identity.
    CashAccount,
    /// Pending-request records: one per recipient identity.
    PendingRequest,
}

/// A derived storage address: the namespace tag paired with the identity the
/// record is keyed on.
#[derive(Clone, Copy, Debug, PartialEq, Eq, Structural)]
pub struct Address {
    /// Which kind of record the address locates.
    pub namespace: Namespace,
    /// The identity the record is keyed on: the owner of an account, or the
    /// recipient of a pending request.
    pub identity: Identity,
}

/// Derives the storage address of the record of `identity` in `namespace`.
///
/// The derivation is a pure function of its arguments: calling it twice with
/// the same arguments yields the same address.
pub fn derive_address(namespace: Namespace, identity: Identity) -> (a: Address)
    ensures
        a == (Address { namespace, identity }),
{
    Address { namespace, identity }
}

/// Address derivation is collision-resistant: two derived addresses are equal
/// exactly when both the namespace and the identity agree. A second record
/// for the same identity in the same namespace therefore always targets the
/// same address, and records of distinct identities or namespaces never
/// collide.
pub proof fn lemma_derive_address_injective(n1: Namespace, i1: Identity, n2: Namespace, i2: Identity)
    ensures
        (Address { namespace: n1, identity: i1 }) == (Address { namespace: n2, identity: i2 })
            <==> (n1 == n2 && i1 == i2),
{
}

} // verus!
