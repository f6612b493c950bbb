//! Player entities: input is sampled only on the owning peer, whose local
//! simulation is canonical; every tick the owner broadcasts its position
//! and animation tag as a mirror-only update that non-owners apply without
//! re-deriving. The owner also places bombs on a rising edge of the bomb
//! input and propagates its stun to every replica.

use crate::bomb::{Bomb, BombPhase};
use crate::rpc::DeliveryPolicy;
use crate::world::{EntityName, Pos, WorldEntity};
use crate::HOST_ID;
use vstd::prelude::*;

verus! {

/// The directional and action input sampled on the owning peer for one
/// physics tick.
#[derive(Clone, Copy, PartialEq, Eq, Structural, Debug)]
pub struct InputState {
    pub left: bool,
    pub right: bool,
    pub up: bool,
    pub down: bool,
    pub place_bomb: bool,
}

/// Animation tag of a player entity.
#[derive(Clone, Copy, PartialEq, Eq, Structural, Debug)]
pub enum Anim {
    Standing,
    WalkUp,
    WalkDown,
    WalkLeft,
    WalkRight,
    Stunned,
}

/// Horizontal direction the input asks for: right minus left.
pub open spec fn spec_motion_x(i: InputState) -> int {
    (if i.right {
        1int
    } else {
        0int
    }) - (if i.left {
        1int
    } else {
        0int
    })
}

/// Vertical direction the input asks for: down minus up (screen axes).
pub open spec fn spec_motion_y(i: InputState) -> int {
    (if i.down {
        1int
    } else {
        0int
    }) - (if i.up {
        1int
    } else {
        0int
    })
}

/// The fixed animation decision table: stunned overrides everything,
/// vertical motion beats horizontal, idle comes last.
pub open spec fn spec_anim(stunned: bool, mx: int, my: int) -> Anim {
    if stunned {
        Anim::Stunned
    } else if my < 0 {
        Anim::WalkUp
    } else if my > 0 {
        Anim::WalkDown
    } else if mx < 0 {
        Anim::WalkLeft
    } else if mx > 0 {
        Anim::WalkRight
    } else {
        Anim::Standing
    }
}

/// A replicated bomb spawn: run locally by the placing player and
/// broadcast so every peer's copy exists identically.
#[derive(Clone, Copy, PartialEq, Eq, Structural, Debug)]
pub struct BombSpawn {
    /// Unique bomb name: the owner entity's name plus its bomb index.
    pub name: EntityName,
    /// The placing player's position at the moment of placement.
    pub pos: Pos,
    /// The peer that placed the bomb.
    pub from_player_id: u64,
}

/// The owner's per-tick mirrored state: position and animation tag.
#[derive(Clone, Copy, PartialEq, Eq, Structural, Debug)]
pub struct NetUpdate {
    pub pos: Pos,
    pub anim: Anim,
}

/// Everything one physics tick on the owning peer asks the engine to do.
pub struct TickEffects {
    /// Direction to move the body this tick, each axis in -1..=1.
    pub motion_x: i8,
    pub motion_y: i8,
    /// Animation to start playing locally, where the tag changed this tick.
    pub play_anim: Option<Anim>,
    /// Replicated bomb spawn to run locally and broadcast.
    pub spawn: Option<BombSpawn>,
    /// Mirror-only update to broadcast to every peer.
    pub update: Option<NetUpdate>,
}

/// One peer's copy of a player entity.
pub struct Player {
    owner: u64,
    display_name: String,
    pos: Pos,
    anim: Option<Anim>,
    prev_bombing: bool,
    bomb_index: u64,
    stunned: bool,
}

impl Player {
    /// The peer whose local simulation of this entity is canonical.
    pub closed spec fn owner(self) -> u64 {
        self.owner
    }

    pub closed spec fn display_name(self) -> Seq<char> {
        self.display_name@
    }

    pub closed spec fn pos(self) -> Pos {
        self.pos
    }

    /// The animation played last, none before the first tick.
    pub closed spec fn anim(self) -> Option<Anim> {
        self.anim
    }

    /// Whether the bomb input was held on the previous tick.
    pub closed spec fn prev_bombing(self) -> bool {
        self.prev_bombing
    }

    /// Strictly increasing per-instance counter naming this player's bombs.
    pub closed spec fn bomb_index(self) -> u64 {
        self.bomb_index
    }

    pub closed spec fn stunned(self) -> bool {
        self.stunned
    }

    /// A player entity as the world build creates it, at its start position.
    pub fn new(owner: u64, pos: Pos) -> (p: Player)
        ensures
            p.owner() == owner,
            p.display_name().len() == 0,
            p.pos() == pos,
            p.anim() is None,
            !p.prev_bombing(),
            p.bomb_index() == 0,
            !p.stunned(),
    {
        Player {
            owner,
            display_name: String::new(),
            pos,
            anim: None,
            prev_bombing: false,
            bomb_index: 0,
            stunned: false,
        }
    }

    pub fn get_stunned(&self) -> (r: bool)
        ensures
            r == self.stunned(),
    {
        self.stunned
    }

    pub fn get_pos(&self) -> (r: Pos)
        ensures
            r == self.pos(),
    {
        self.pos
    }

    pub fn get_anim(&self) -> (r: Option<Anim>)
        ensures
            r == self.anim(),
    {
        self.anim
    }

    pub fn get_bomb_index(&self) -> (r: u64)
        ensures
            r == self.bomb_index(),
    {
        self.bomb_index
    }

    /// Label this entity with the display name from the registry.
    pub fn set_player_name(&mut self, name: String)
        ensures
            final(self).display_name() == name@,
            final(self).owner() == old(self).owner(),
            final(self).pos() == old(self).pos(),
            final(self).anim() == old(self).anim(),
            final(self).prev_bombing() == old(self).prev_bombing(),
            final(self).bomb_index() == old(self).bomb_index(),
            final(self).stunned() == old(self).stunned(),
    {
        self.display_name = name;
    }

    /// One physics tick. On the owning peer (`is_owner`), with the sampled
    /// `input` and the body's current position `pos`: motion and animation
    /// come from the fixed decision table, a stunned player neither moves
    /// nor bombs, a rising edge of the bomb input spawns a uniquely named
    /// bomb, and the position and animation tag are broadcast to every
    /// peer. On any other peer the tick does nothing.
    pub fn tick(&mut self, is_owner: bool, input: InputState, pos: Pos) -> (fx: TickEffects)
        requires
            old(self).bomb_index() < u64::MAX,
        ensures
            final(self).owner() == old(self).owner(),
            final(self).display_name() == old(self).display_name(),
            final(self).stunned() == old(self).stunned(),
            !is_owner ==> {
                &&& *final(self) == *old(self)
                &&& fx.motion_x == 0 && fx.motion_y == 0
                &&& fx.play_anim is None
                &&& fx.spawn is None
                &&& fx.update is None
            },
            is_owner ==> {
                let bombing = input.place_bomb && !old(self).stunned();
                let mx = if old(self).stunned() {
                    0int
                } else {
                    spec_motion_x(input)
                };
                let my = if old(self).stunned() {
                    0int
                } else {
                    spec_motion_y(input)
                };
                let new_anim = spec_anim(old(self).stunned(), mx, my);
                &&& fx.motion_x as int == mx
                &&& fx.motion_y as int == my
                &&& final(self).prev_bombing() == bombing
                &&& (if bombing && !old(self).prev_bombing() {
                    &&& (fx.spawn matches Some(sp) && sp == (BombSpawn {
                        name: EntityName::BombOf(old(self).owner(), old(self).bomb_index()),
                        pos,
                        from_player_id: old(self).owner(),
                    }))
                    &&& final(self).bomb_index() == old(self).bomb_index() + 1
                } else {
                    &&& fx.spawn is None
                    &&& final(self).bomb_index() == old(self).bomb_index()
                })
                &&& final(self).anim() == Some(new_anim)
                &&& (if old(self).anim() == Some(new_anim) {
                    fx.play_anim is None
                } else {
                    fx.play_anim == Some(new_anim)
                })
                &&& final(self).pos() == pos
                &&& fx.update == Some(NetUpdate { pos, anim: new_anim })
            },
    {
        if !is_owner {
            return TickEffects {
                motion_x: 0,
                motion_y: 0,
                play_anim: None,
                spawn: None,
                update: None,
            };
        }

        let mut motion_x: i8 = 0;
        let mut motion_y: i8 = 0;
        if input.left {
            motion_x = motion_x - 1;
        }
        if input.right {
            motion_x = motion_x + 1;
        }
        if input.up {
            motion_y = motion_y - 1;
        }
        if input.down {
            motion_y = motion_y + 1;
        }

        let mut bombing = input.place_bomb;
        if self.stunned {
            bombing = false;
            motion_x = 0;
            motion_y = 0;
        }

        let spawn: Option<BombSpawn> = if bombing && !self.prev_bombing {
            let sp = BombSpawn {
                name: EntityName::BombOf(self.owner, self.bomb_index),
                pos,
                from_player_id: self.owner,
            };
            self.bomb_index = self.bomb_index + 1;
            Some(sp)
        } else {
            None
        };
        self.prev_bombing = bombing;

        let new_anim = if self.stunned {
            Anim::Stunned
        } else if motion_y < 0 {
            Anim::WalkUp
        } else if motion_y > 0 {
            Anim::WalkDown
        } else if motion_x < 0 {
            Anim::WalkLeft
        } else if motion_x > 0 {
            Anim::WalkRight
        } else {
            Anim::Standing
        };

        let play_anim: Option<Anim> = match self.anim {
            Some(a) if a == new_anim => None,
            _ => Some(new_anim),
        };
        self.anim = Some(new_anim);
        self.pos = pos;

        TickEffects {
            motion_x,
            motion_y,
            play_anim,
            spawn,
            update: Some(NetUpdate { pos, anim: new_anim }),
        }
    }

    /// The mirror-only per-tick update: non-owning peers apply the owner's
    /// position and animation tag without re-deriving them; the owner's own
    /// copy ignores it.
    pub fn update_network(&mut self, executor_is_owner: bool, pos: Pos, anim: Anim)
        ensures
            final(self).owner() == old(self).owner(),
            final(self).display_name() == old(self).display_name(),
            final(self).prev_bombing() == old(self).prev_bombing(),
            final(self).bomb_index() == old(self).bomb_index(),
            final(self).stunned() == old(self).stunned(),
            DeliveryPolicy::MirrorOnly.spec_applies(executor_is_owner) ==> final(self).pos() == pos
                && final(self).anim() == Some(anim),
            !DeliveryPolicy::MirrorOnly.spec_applies(executor_is_owner) ==> *final(self) == *old(
                self,
            ),
    {
        if DeliveryPolicy::MirrorOnly.applies(executor_is_owner) {
            self.pos = pos;
            self.anim = Some(anim);
        }
    }

    /// The mirror-only stun: freeze this replica so every peer shows the
    /// player stunned.
    pub fn stun(&mut self, executor_is_owner: bool)
        ensures
            final(self).owner() == old(self).owner(),
            final(self).display_name() == old(self).display_name(),
            final(self).pos() == old(self).pos(),
            final(self).anim() == old(self).anim(),
            final(self).prev_bombing() == old(self).prev_bombing(),
            final(self).bomb_index() == old(self).bomb_index(),
            DeliveryPolicy::MirrorOnly.spec_applies(executor_is_owner) ==> final(self).stunned(),
            !DeliveryPolicy::MirrorOnly.spec_applies(executor_is_owner) ==> final(self).stunned()
                == old(self).stunned(),
    {
        if DeliveryPolicy::MirrorOnly.applies(executor_is_owner) {
            self.stunned = true;
        }
    }

    /// The owner-restricted "exploded" call, receivable only by the peer
    /// owning this player. A player not yet stunned becomes stunned and the
    /// stun is propagated to every other peer's copy; a stunned player
    /// ignores the hit. Returns whether to broadcast the stun.
    pub fn exploded(&mut self, executor_is_owner: bool, _by_who: u64) -> (broadcast_stun: bool)
        ensures
            final(self).owner() == old(self).owner(),
            final(self).display_name() == old(self).display_name(),
            final(self).pos() == old(self).pos(),
            final(self).anim() == old(self).anim(),
            final(self).prev_bombing() == old(self).prev_bombing(),
            final(self).bomb_index() == old(self).bomb_index(),
            broadcast_stun == (DeliveryPolicy::OwnerOnly.spec_applies(executor_is_owner) && !old(
                self,
            ).stunned()),
            final(self).stunned() == (old(self).stunned() || broadcast_stun),
    {
        if !DeliveryPolicy::OwnerOnly.applies(executor_is_owner) {
            return false;
        }
        if self.stunned {
            return false;
        }
        self.stunned = true;
        true
    }
}

/// The replicated bomb-spawn operation, executable by any peer: create the
/// bomb entity under the shared world, named and positioned by the spawn,
/// owned by the placing peer. Its containing area keeps the world's
/// default authority, the host, since no authority is assigned explicitly.
pub fn setup_bomb(spawn: &BombSpawn) -> (r: (Bomb, WorldEntity))
    ensures
        r.0.owner_peer() == spawn.from_player_id,
        r.0@.len() == 0,
        r.0.wf(),
        r.0.phase() == BombPhase::Armed,
        r.1.name == spawn.name,
        r.1.pos == spawn.pos,
        r.1.owner == HOST_ID,
        r.1.display_name@.len() == 0,
{
    let bomb = Bomb::new(spawn.from_player_id);
    let entity = WorldEntity {
        name: spawn.name,
        owner: HOST_ID,
        pos: spawn.pos,
        display_name: String::new(),
    };
    (bomb, entity)
}

} // verus!
