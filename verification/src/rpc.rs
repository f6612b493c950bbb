//! Delivery policies of the replicated-call convention.
//!
//! A replicated call names an operation on a remote peer's copy of an entity.
//! The policy is a property of the callee operation, not of the caller; it
//! decides on which peers a received call is applied. Authority checks are
//! made centrally through [`DeliveryPolicy::applies`] instead of being
//! scattered per operation.

use vstd::prelude::*;

verus! {

/// How a replicated operation is gated when a peer receives it.
#[derive(Clone, Copy, PartialEq, Eq, Structural, Debug)]
pub enum DeliveryPolicy {
    /// Applied only where the executing peer is the target entity's
    /// authority. Entities parented under the shared world default their
    /// authority to the host, so for those this means "host only".
    OwnerOnly,
    /// Applied on every peer that executes it, whoever sent it.
    AnyPeer,
    /// Pure state mirroring: applied only on peers that are *not* the
    /// entity's authority, which apply the update without re-validating it.
    MirrorOnly,
}

impl DeliveryPolicy {
    /// Whether a call under this policy is applied on a peer for which
    /// `executor_is_owner` says whether that peer is the entity's authority.
    pub open spec fn spec_applies(self, executor_is_owner: bool) -> bool {
        match self {
            DeliveryPolicy::OwnerOnly => executor_is_owner,
            DeliveryPolicy::AnyPeer => true,
            DeliveryPolicy::MirrorOnly => !executor_is_owner,
        }
    }

    /// Central authority check: may the executing peer apply a call gated by
    /// this policy?
    pub fn applies(self, executor_is_owner: bool) -> (r: bool)
        ensures
            r == self.spec_applies(executor_is_owner),
    {
        match self {
            DeliveryPolicy::OwnerOnly => executor_is_owner,
            DeliveryPolicy::AnyPeer => true,
            DeliveryPolicy::MirrorOnly => !executor_is_owner,
        }
    }
}

} // verus!
