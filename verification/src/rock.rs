//! Destructible rocks: obstacles parented under the shared world, so their
//! authority defaults to the host. When a bomb's explosion reaches a rock,
//! the owner-restricted "exploded" call relays the explosion to every
//! replica, credits the attacking peer through the replicated score
//! increment, and plays its own explosion so the obstacle disappears.

use crate::rpc::DeliveryPolicy;
use vstd::prelude::*;

verus! {

/// What an exploding rock asks the engine to do.
pub struct RockEffects {
    /// Re-send the mirror-only explosion to the other peers' replicas.
    pub broadcast_explosion: bool,
    /// Credit this attacker: run the replicated score increment locally and
    /// broadcast it to every peer.
    pub score_for: Option<u64>,
}

/// One peer's copy of a rock.
pub struct Rock {
    exploding: bool,
}

impl Rock {
    /// Whether this copy is playing its explosion and about to disappear.
    pub closed spec fn exploding(self) -> bool {
        self.exploding
    }

    pub fn new() -> (r: Rock)
        ensures
            !r.exploding(),
    {
        Rock { exploding: false }
    }

    pub fn get_exploding(&self) -> (r: bool)
        ensures
            r == self.exploding(),
    {
        self.exploding
    }

    /// The mirror-only explosion: non-owning replicas play it; the
    /// authority's own copy ignores the mirrored call.
    pub fn do_explosion(&mut self, executor_is_owner: bool)
        ensures
            DeliveryPolicy::MirrorOnly.spec_applies(executor_is_owner) ==> final(self).exploding(),
            !DeliveryPolicy::MirrorOnly.spec_applies(executor_is_owner) ==> final(self).exploding()
                == old(self).exploding(),
    {
        if DeliveryPolicy::MirrorOnly.applies(executor_is_owner) {
            self.exploding = true;
        }
    }

    /// The owner-restricted "exploded" call, received where the executing
    /// peer is the rock's authority: relay the explosion to the replicas,
    /// credit `by_who`, and explode locally. Rejected anywhere else.
    pub fn exploded(&mut self, executor_is_owner: bool, by_who: u64) -> (fx: RockEffects)
        ensures
            DeliveryPolicy::OwnerOnly.spec_applies(executor_is_owner) ==> {
                &&& fx.broadcast_explosion
                &&& fx.score_for == Some(by_who)
                &&& final(self).exploding()
            },
            !DeliveryPolicy::OwnerOnly.spec_applies(executor_is_owner) ==> {
                &&& !fx.broadcast_explosion
                &&& fx.score_for is None
                &&& final(self).exploding() == old(self).exploding()
            },
    {
        if !DeliveryPolicy::OwnerOnly.applies(executor_is_owner) {
            return RockEffects { broadcast_explosion: false, score_for: None };
        }
        self.exploding = true;
        RockEffects { broadcast_explosion: true, score_for: Some(by_who) }
    }
}

} // verus!
