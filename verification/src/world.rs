//! Round bootstrap: the replicated world-build operation.
//!
//! Run once per round on every peer, from the host's canonical registry
//! snapshot: one movable entity per registered peer, named by that peer's
//! id, owned by that peer. Only the entity owned by the locally executing
//! peer is placed, at one of the twelve predefined spawn points chosen
//! uniformly at random; every other entity waits at the origin for its
//! owner's first mirrored update.

use crate::registry::PeerRegistry;
use vstd::prelude::*;

verus! {

/// Number of predefined spawn points the world offers.
pub const SPAWN_POINT_COUNT: usize = 12;

/// A position in the world plane.
#[derive(Clone, Copy, PartialEq, Eq, Structural, Debug)]
pub struct Pos {
    pub x: i64,
    pub y: i64,
}

/// The unique name of a replicated entity, derived from its owner peer:
/// a player entity carries the owner's id; a bomb adds the owner's
/// monotonically increasing bomb index.
#[derive(Clone, Copy, PartialEq, Eq, Structural, Debug)]
pub enum EntityName {
    PlayerOf(u64),
    BombOf(u64, u64),
}

/// One replicated entity created by the world build.
pub struct WorldEntity {
    /// Unique name, derived from the owner peer id.
    pub name: EntityName,
    /// The single peer whose local simulation of this entity is canonical.
    pub owner: u64,
    pub pos: Pos,
    /// Display name from the registry, shown over the entity.
    pub display_name: String,
}

/// Thread-local random generator of the rand crate; opaque here.
#[verifier::external_type_specification]
#[verifier::external_body]
pub struct ExThreadRng(rand::rngs::ThreadRng);

/// Relies on rand::thread_rng: a handle to the calling thread's generator.
/// Nothing is assumed about the values it will produce.
#[verifier::external_body]
pub fn new_rng() -> rand::rngs::ThreadRng {
    rand::thread_rng()
}

/// Relies on rand::Rng::gen_range: a sample from the nonempty range
/// `0..n` is below `n` (an empty range would panic, so `n >= 1`).
#[verifier::external_body]
pub fn gen_index(rng: &mut rand::rngs::ThreadRng, n: usize) -> (r: usize)
    requires
        n >= 1,
    ensures
        r < n,
{
    rand::Rng::gen_range(rng, 0..n)
}

/// The position an entity starts at: the chosen spawn point for the local
/// peer's own entity, the origin for every mirrored one.
pub open spec fn spec_start_pos(owner: u64, my_id: u64, spawn: Pos) -> Pos {
    if owner == my_id {
        spawn
    } else {
        Pos { x: 0, y: 0 }
    }
}

/// The world `w` is exactly what a build from the registry snapshot `reg`
/// creates on the peer `my_id` whose own entity spawns at `spawn`: one
/// entity per registry entry, in registry insertion order, each named by
/// and owned by its entry's peer id and labelled with its display name.
pub open spec fn world_built_from(
    w: Seq<WorldEntity>,
    reg: Seq<(u64, Seq<char>)>,
    my_id: u64,
    spawn: Pos,
) -> bool {
    &&& w.len() == reg.len()
    &&& forall|i: int|
        0 <= i < w.len() ==> {
            &&& (#[trigger] w[i]).owner == reg[i].0
            &&& w[i].name == EntityName::PlayerOf(reg[i].0)
            &&& w[i].display_name@ == reg[i].1
            &&& w[i].pos == spec_start_pos(reg[i].0, my_id, spawn)
        }
}

/// Build the round's entities from a registry snapshot, placing the local
/// peer's entity at `spawn_points[spawn_idx]`.
pub fn build_world(reg: &PeerRegistry, my_id: u64, spawn_points: &Vec<Pos>, spawn_idx: usize) -> (w:
    Vec<WorldEntity>)
    requires
        spawn_points@.len() == SPAWN_POINT_COUNT,
        spawn_idx < spawn_points@.len(),
    ensures
        world_built_from(w@, reg@, my_id, spawn_points@[spawn_idx as int]),
{
    let n = reg.len();
    let mut w: Vec<WorldEntity> = Vec::new();
    let mut k: usize = 0;
    while k < n
        invariant
            n == reg@.len(),
            k <= n,
            spawn_idx < spawn_points@.len(),
            w@.len() == k,
            forall|i: int|
                0 <= i < k ==> {
                    &&& (#[trigger] w@[i]).owner == reg@[i].0
                    &&& w@[i].name == EntityName::PlayerOf(reg@[i].0)
                    &&& w@[i].display_name@ == reg@[i].1
                    &&& w@[i].pos == spec_start_pos(
                        reg@[i].0,
                        my_id,
                        spawn_points@[spawn_idx as int],
                    )
                },
        decreases n - k,
    {
        let id = reg.id_at(k);
        let pos = if id == my_id {
            spawn_points[spawn_idx]
        } else {
            Pos { x: 0, y: 0 }
        };
        w.push(
            WorldEntity {
                name: EntityName::PlayerOf(id),
                owner: id,
                pos,
                display_name: reg.name_at(k).clone(),
            },
        );
        k += 1;
    }
    w
}

/// The world build as the replicated operation performs it: the spawn point
/// of the local peer's entity is drawn uniformly at random from the twelve
/// predefined ones.
pub fn build_world_random(
    reg: &PeerRegistry,
    my_id: u64,
    spawn_points: &Vec<Pos>,
    rng: &mut rand::rngs::ThreadRng,
) -> (w: Vec<WorldEntity>)
    requires
        spawn_points@.len() == SPAWN_POINT_COUNT,
    ensures
        w@.len() == reg@.len(),
        exists|si: int|
            0 <= si < spawn_points@.len() && world_built_from(
                w@,
                reg@,
                my_id,
                #[trigger] spawn_points@[si],
            ),
{
    let spawn_idx = gen_index(rng, SPAWN_POINT_COUNT);
    let w = build_world(reg, my_id, spawn_points, spawn_idx);
    proof {
        assert(world_built_from(w@, reg@, my_id, spawn_points@[spawn_idx as int]));
    }
    w
}

} // verus!
