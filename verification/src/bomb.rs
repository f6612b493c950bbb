//! Bomb entities: an area trigger that tracks which bodies currently overlap
//! it and, when its owner explodes it, notifies every overlapping body that
//! exposes the "exploded" capability, naming the peer that placed the bomb
//! as the attacker.
//!
//! Each peer tracks the overlap set from its own enter/exit collision
//! events, so the add is idempotent and the remove total: replaying any
//! interleaving of events yields the entered-and-not-yet-exited set.

use crate::rpc::DeliveryPolicy;
use vstd::prelude::*;

verus! {

/// What kind of body stands in the bomb's trigger area.
#[derive(Clone, Copy, PartialEq, Eq, Structural, Debug)]
pub enum BodyKind {
    /// A player entity; it exposes the "exploded" capability.
    Player,
    /// A destructible rock; it exposes the "exploded" capability.
    Rock,
    /// Anything else in the area; it exposes no such capability.
    Scenery,
}

/// Whether a body of this kind can receive an "exploded" call.
pub open spec fn spec_can_explode(k: BodyKind) -> bool {
    k != BodyKind::Scenery
}

/// A body overlapping the bomb's trigger area.
#[derive(Clone, Copy, PartialEq, Eq, Structural, Debug)]
pub struct Body {
    pub id: u64,
    pub kind: BodyKind,
}

/// One "exploded" notification sent when a bomb goes off.
#[derive(Clone, Copy, PartialEq, Eq, Structural, Debug)]
pub struct ExplodedCall {
    /// The overlapping body being notified.
    pub target: u64,
    /// The peer that placed the bomb.
    pub attacker: u64,
}

/// Lifecycle of a bomb: armed from placement until its owner explodes it,
/// then freed once the explosion is done.
#[derive(Clone, Copy, PartialEq, Eq, Structural, Debug)]
pub enum BombPhase {
    Armed,
    Exploding,
    Freed,
}

/// The ids of the bodies in a tracked overlap list.
pub open spec fn ids_of(s: Seq<Body>) -> Set<u64> {
    Set::new(|id: u64| exists|i: int| 0 <= i < s.len() && #[trigger] s[i].id == id)
}

/// The notifications an explosion sends for the overlap list `s`: one per
/// capable body, in tracking order, all naming `attacker`.
pub open spec fn hit_list(s: Seq<Body>, attacker: u64) -> Seq<ExplodedCall>
    decreases s.len(),
{
    if s.len() == 0 {
        Seq::empty()
    } else {
        let rest = hit_list(s.drop_last(), attacker);
        if spec_can_explode(s.last().kind) {
            rest.push(ExplodedCall { target: s.last().id, attacker })
        } else {
            rest
        }
    }
}

/// A replicated bomb entity on one peer.
pub struct Bomb {
    in_area: Vec<Body>,
    from_player_id: u64,
    phase: BombPhase,
}

impl View for Bomb {
    type V = Seq<Body>;

    closed spec fn view(&self) -> Seq<Body> {
        self.in_area@
    }
}

impl Bomb {
    /// The peer that placed this bomb.
    pub closed spec fn owner_peer(self) -> u64 {
        self.from_player_id
    }

    pub closed spec fn phase(self) -> BombPhase {
        self.phase
    }

    /// No body is tracked twice.
    pub open spec fn wf(self) -> bool {
        forall|i: int, j: int|
            0 <= i < j < self@.len() ==> #[trigger] self@[i].id != #[trigger] self@[j].id
    }

    /// Whether a body with this id is currently tracked.
    pub open spec fn tracks(self, id: u64) -> bool {
        ids_of(self@).contains(id)
    }

    /// A bomb as the replicated spawn operation creates it on every peer:
    /// armed, tracking nothing, owned by the placing peer.
    pub fn new(from_player_id: u64) -> (r: Self)
        ensures
            r@.len() == 0,
            r.wf(),
            r.owner_peer() == from_player_id,
            r.phase() == BombPhase::Armed,
    {
        Bomb { in_area: Vec::new(), from_player_id, phase: BombPhase::Armed }
    }

    pub fn get_owner_peer(&self) -> (r: u64)
        ensures
            r == self.owner_peer(),
    {
        self.from_player_id
    }

    pub fn get_phase(&self) -> (r: BombPhase)
        ensures
            r == self.phase(),
    {
        self.phase
    }

    /// How many bodies are currently tracked.
    pub fn tracked_len(&self) -> (n: usize)
        ensures
            n == self@.len(),
    {
        self.in_area.len()
    }

    /// Whether a body with this id is currently tracked.
    pub fn is_tracking(&self, id: u64) -> (r: bool)
        requires
            self.wf(),
        ensures
            r == self.tracks(id),
    {
        match self.position_of(id) {
            Some(_) => true,
            None => false,
        }
    }

    fn position_of(&self, id: u64) -> (r: Option<usize>)
        requires
            self.wf(),
        ensures
            match r {
                Some(i) => i < self@.len() && self@[i as int].id == id,
                None => forall|i: int| 0 <= i < self@.len() ==> #[trigger] self@[i].id != id,
            },
    {
        let n = self.in_area.len();
        let mut k: usize = 0;
        while k < n
            invariant
                n == self@.len(),
                k <= n,
                forall|i: int| 0 <= i < k ==> #[trigger] self@[i].id != id,
            decreases n - k,
        {
            if self.in_area[k].id == id {
                return Some(k);
            }
            k += 1;
        }
        None
    }

    /// Enter-overlap event: start tracking `body`. Idempotent: a body that
    /// is already tracked leaves the bomb unchanged.
    pub fn body_entered(&mut self, body: Body)
        requires
            old(self).wf(),
        ensures
            final(self).wf(),
            ids_of(final(self)@) == ids_of(old(self)@).insert(body.id),
            old(self).tracks(body.id) ==> final(self)@ == old(self)@,
            !old(self).tracks(body.id) ==> final(self)@ == old(self)@.push(body),
            final(self).owner_peer() == old(self).owner_peer(),
            final(self).phase() == old(self).phase(),
    {
        match self.position_of(body.id) {
            Some(_) => {
                proof {
                    assert(ids_of(self@) =~= ids_of(old(self)@).insert(body.id));
                }
            }
            None => {
                self.in_area.push(body);
                proof {
                    assert(self@ =~= old(self)@.push(body));
                    assert(self@[self@.len() - 1].id == body.id);
                    assert forall|id: u64| ids_of(self@).contains(id) <==> ids_of(
                        old(self)@,
                    ).insert(body.id).contains(id) by {
                        if ids_of(old(self)@).insert(body.id).contains(id) && id != body.id {
                            let w = choose|i: int|
                                0 <= i < old(self)@.len() && #[trigger] old(self)@[i].id == id;
                            assert(self@[w].id == id);
                        }
                        if ids_of(self@).contains(id) && id != body.id {
                            let w = choose|i: int|
                                0 <= i < self@.len() && #[trigger] self@[i].id == id;
                            assert(w < self@.len() - 1);
                            assert(old(self)@[w].id == id);
                        }
                    }
                    assert(ids_of(self@) =~= ids_of(old(self)@).insert(body.id));
                }
            }
        }
    }

    /// Exit-overlap event: stop tracking the body with this id. A body that
    /// is not tracked leaves the bomb unchanged.
    pub fn body_exited(&mut self, id: u64)
        requires
            old(self).wf(),
        ensures
            final(self).wf(),
            ids_of(final(self)@) == ids_of(old(self)@).remove(id),
            !old(self).tracks(id) ==> final(self)@ == old(self)@,
            final(self).owner_peer() == old(self).owner_peer(),
            final(self).phase() == old(self).phase(),
    {
        match self.position_of(id) {
            Some(i) => {
                self.in_area.remove(i);
                proof {
                    let w = i as int;
                    assert(self@ =~= old(self)@.remove(w));
                    assert forall|x: u64| ids_of(self@).contains(x) <==> ids_of(
                        old(self)@,
                    ).remove(id).contains(x) by {
                        if ids_of(self@).contains(x) {
                            let k = choose|i2: int|
                                0 <= i2 < self@.len() && #[trigger] self@[i2].id == x;
                            if k < w {
                                assert(old(self)@[k].id == x);
                            } else {
                                assert(old(self)@[k + 1].id == x);
                            }
                            assert(x != id) by {
                                if k < w {
                                    assert(old(self)@[k].id != old(self)@[w].id);
                                } else {
                                    assert(old(self)@[w].id != old(self)@[k + 1].id);
                                }
                            }
                        }
                        if ids_of(old(self)@).remove(id).contains(x) {
                            let k = choose|i2: int|
                                0 <= i2 < old(self)@.len() && #[trigger] old(self)@[i2].id == x;
                            assert(k != w);
                            if k < w {
                                assert(self@[k].id == x);
                            } else {
                                assert(self@[k - 1].id == x);
                            }
                        }
                    }
                    assert(ids_of(self@) =~= ids_of(old(self)@).remove(id));
                }
            }
            None => {
                proof {
                    assert(ids_of(self@) =~= ids_of(old(self)@).remove(id));
                }
            }
        }
    }

    /// Owner-restricted explosion. Applied only where the executing peer is
    /// the authority of the bomb's containing area (`executor_is_owner`);
    /// elsewhere the call is rejected and nothing happens. When applied, the
    /// bomb passes to the exploding phase and one "exploded" call goes to
    /// each tracked body that exposes the capability, naming the placing
    /// peer as the attacker.
    pub fn explode(&mut self, executor_is_owner: bool) -> (hits: Vec<ExplodedCall>)
        requires
            old(self).wf(),
            old(self).phase() == BombPhase::Armed,
        ensures
            final(self).wf(),
            final(self)@ == old(self)@,
            final(self).owner_peer() == old(self).owner_peer(),
            !DeliveryPolicy::OwnerOnly.spec_applies(executor_is_owner) ==> final(self).phase()
                == BombPhase::Armed && hits@.len() == 0,
            DeliveryPolicy::OwnerOnly.spec_applies(executor_is_owner) ==> final(self).phase()
                == BombPhase::Exploding && hits@ == hit_list(old(self)@, old(self).owner_peer()),
    {
        if !DeliveryPolicy::OwnerOnly.applies(executor_is_owner) {
            return Vec::new();
        }
        self.phase = BombPhase::Exploding;
        let n = self.in_area.len();
        let mut hits: Vec<ExplodedCall> = Vec::new();
        let mut k: usize = 0;
        while k < n
            invariant
                n == self@.len(),
                k <= n,
                hits@ == hit_list(self@.subrange(0, k as int), self.from_player_id),
            decreases n - k,
        {
            let body = self.in_area[k];
            if matches!(body.kind, BodyKind::Player | BodyKind::Rock) {
                hits.push(ExplodedCall { target: body.id, attacker: self.from_player_id });
            }
            proof {
                let pre = self@.subrange(0, k as int);
                let cur = self@.subrange(0, k as int + 1);
                assert(cur.drop_last() =~= pre);
                assert(cur.last() == self@[k as int]);
            }
            k += 1;
        }
        proof {
            assert(self@.subrange(0, n as int) =~= self@);
        }
        hits
    }

    /// Mark the explosion finished so the entity can be removed.
    pub fn done(&mut self)
        requires
            old(self).phase() == BombPhase::Exploding,
        ensures
            final(self)@ == old(self)@,
            final(self).owner_peer() == old(self).owner_peer(),
            final(self).phase() == BombPhase::Freed,
    {
        self.phase = BombPhase::Freed;
    }
}

/// One per-peer collision event on a bomb's trigger area.
pub enum OverlapEvent {
    Enter(Body),
    Exit(u64),
}

/// Whether `e` is an enter event for the body id `id`.
pub open spec fn is_enter_of(e: OverlapEvent, id: u64) -> bool {
    match e {
        OverlapEvent::Enter(b) => b.id == id,
        OverlapEvent::Exit(_) => false,
    }
}

/// Whether `e` is an exit event for the body id `id`.
pub open spec fn is_exit_of(e: OverlapEvent, id: u64) -> bool {
    match e {
        OverlapEvent::Enter(_) => false,
        OverlapEvent::Exit(x) => x == id,
    }
}

/// The overlap set a bomb tracks after a sequence of enter/exit events,
/// starting from nothing: enter inserts, exit removes.
pub open spec fn overlap_after(es: Seq<OverlapEvent>) -> Set<u64>
    decreases es.len(),
{
    if es.len() == 0 {
        Set::<u64>::empty()
    } else {
        let prev = overlap_after(es.drop_last());
        match es.last() {
            OverlapEvent::Enter(b) => prev.insert(b.id),
            OverlapEvent::Exit(id) => prev.remove(id),
        }
    }
}

/// Whether, somewhere in `es`, the body `id` enters and never exits again.
pub open spec fn entered_and_stayed(es: Seq<OverlapEvent>, id: u64) -> bool {
    exists|i: int|
        0 <= i < es.len() && is_enter_of(#[trigger] es[i], id) && (forall|j: int|
            i < j < es.len() ==> !is_exit_of(#[trigger] es[j], id))
}

/// Law: whatever the interleaving of enter/exit events, the tracked overlap
/// set holds exactly the bodies that entered and have not exited since.
pub proof fn lemma_overlap_tracking(es: Seq<OverlapEvent>, id: u64)
    ensures
        overlap_after(es).contains(id) <==> entered_and_stayed(es, id),
    decreases es.len(),
{
    if es.len() > 0 {
        let es0 = es.drop_last();
        lemma_overlap_tracking(es0, id);
        let last = es.last();
        if is_enter_of(last, id) {
            assert(overlap_after(es).contains(id));
            assert(is_enter_of(es[es.len() - 1], id));
            assert(entered_and_stayed(es, id));
        } else if is_exit_of(last, id) {
            assert(!overlap_after(es).contains(id));
            if entered_and_stayed(es, id) {
                let i = choose|i: int|
                    0 <= i < es.len() && is_enter_of(#[trigger] es[i], id) && (forall|j: int|
                        i < j < es.len() ==> !is_exit_of(#[trigger] es[j], id));
                assert(i < es.len() - 1);
                assert(!is_exit_of(es[es.len() - 1], id));
                assert(false);
            }
        } else {
            assert(overlap_after(es).contains(id) == overlap_after(es0).contains(id));
            if entered_and_stayed(es0, id) {
                let i = choose|i: int|
                    0 <= i < es0.len() && is_enter_of(#[trigger] es0[i], id) && (forall|j: int|
                        i < j < es0.len() ==> !is_exit_of(#[trigger] es0[j], id));
                assert(es[i] == es0[i]);
                assert forall|j: int| i < j < es.len() implies !is_exit_of(
                    #[trigger] es[j],
                    id,
                ) by {
                    if j < es.len() - 1 {
                        assert(es[j] == es0[j]);
                    }
                }
                assert(entered_and_stayed(es, id));
            }
            if entered_and_stayed(es, id) {
                let i = choose|i: int|
                    0 <= i < es.len() && is_enter_of(#[trigger] es[i], id) && (forall|j: int|
                        i < j < es.len() ==> !is_exit_of(#[trigger] es[j], id));
                assert(i < es.len() - 1) by {
                    assert(!is_enter_of(es[es.len() - 1], id));
                }
                assert(es0[i] == es[i]);
                assert forall|j: int| i < j < es0.len() implies !is_exit_of(
                    #[trigger] es0[j],
                    id,
                ) by {
                    assert(es0[j] == es[j]);
                }
                assert(entered_and_stayed(es0, id));
            }
        }
    }
}

} // verus!
