//! Per-peer score ledger and end-of-round detection.
//!
//! The board keeps one row per peer, created when that peer's entity is
//! spawned and incremented only through [`Score::increase_score`].
//! Every tick the board is shown how many destructible obstacles are left;
//! the win fires exactly when that count goes from nonzero to zero, and the
//! winner is the row with the strictly greatest score, the first such row
//! winning ties.

use vstd::prelude::*;

verus! {

/// One ledger row: a peer, its display name, and its score.
pub struct ScoreRow {
    pub id: u64,
    pub name: String,
    pub score: u64,
}

/// Mathematical model of one row: id, name, score.
pub type RowModel = (u64, Seq<char>, u64);

/// No peer id owns two rows.
pub open spec fn rows_wf(s: Seq<RowModel>) -> bool {
    forall|i: int, j: int| 0 <= i < j < s.len() ==> #[trigger] s[i].0 != #[trigger] s[j].0
}

/// Whether some row belongs to `id`.
pub open spec fn has_row(s: Seq<RowModel>, id: u64) -> bool {
    exists|i: int| 0 <= i < s.len() && #[trigger] s[i].0 == id
}

/// Position of `id`'s row (unique when `rows_wf` holds).
pub open spec fn row_index(s: Seq<RowModel>, id: u64) -> int {
    choose|i: int| 0 <= i < s.len() && #[trigger] s[i].0 == id
}

/// Score recorded for `id`.
pub open spec fn score_in(s: Seq<RowModel>, id: u64) -> u64 {
    s[row_index(s, id)].2
}

/// Display name recorded for `id`.
pub open spec fn name_in(s: Seq<RowModel>, id: u64) -> Seq<char> {
    s[row_index(s, id)].1
}

/// Row `i` holds the strictly greatest score, first such row on ties.
pub open spec fn first_max_at(s: Seq<RowModel>, i: int) -> bool {
    &&& 0 <= i < s.len()
    &&& forall|j: int| 0 <= j < s.len() ==> #[trigger] s[j].2 <= s[i].2
    &&& forall|j: int| 0 <= j < i ==> #[trigger] s[j].2 < s[i].2
}

/// The score ledger of one round, plus the obstacle count seen last tick.
pub struct Score {
    rows: Vec<ScoreRow>,
    prev_rocks: u64,
}

impl View for Score {
    type V = Seq<RowModel>;

    closed spec fn view(&self) -> Seq<RowModel> {
        Seq::new(
            self.rows@.len(),
            |i: int| (self.rows@[i].id, self.rows@[i].name@, self.rows@[i].score),
        )
    }
}

impl Score {
    /// Obstacle count the board saw at the previous tick (zero before any).
    pub closed spec fn last_rocks(self) -> u64 {
        self.prev_rocks
    }

    /// Whether a tick showing `rocks_left` obstacles ends the round: the
    /// count transitions from nonzero to zero.
    pub open spec fn fires(self, rocks_left: u64) -> bool {
        self.last_rocks() > 0 && rocks_left == 0
    }

    pub fn new() -> (r: Self)
        ensures
            r@.len() == 0,
            rows_wf(r@),
            r.last_rocks() == 0,
    {
        Score { rows: Vec::new(), prev_rocks: 0 }
    }

    pub fn len(&self) -> (n: usize)
        ensures
            n == self@.len(),
    {
        self.rows.len()
    }

    /// Id of the `i`-th row, in creation order.
    pub fn id_at(&self, i: usize) -> (id: u64)
        requires
            i < self@.len(),
        ensures
            id == self@[i as int].0,
    {
        self.rows[i].id
    }

    /// Display name of the `i`-th row.
    pub fn name_at(&self, i: usize) -> (name: &String)
        requires
            i < self@.len(),
        ensures
            name@ == self@[i as int].1,
    {
        &self.rows[i].name
    }

    /// Score of the `i`-th row.
    pub fn score_at(&self, i: usize) -> (sc: u64)
        requires
            i < self@.len(),
        ensures
            sc == self@[i as int].2,
    {
        self.rows[i].score
    }

    /// Position of `id`'s row, if any.
    pub fn position(&self, id: u64) -> (r: Option<usize>)
        requires
            rows_wf(self@),
        ensures
            match r {
                Some(i) => has_row(self@, id) && i == row_index(self@, id) && i < self@.len(),
                None => !has_row(self@, id),
            },
    {
        let n = self.rows.len();
        let mut k: usize = 0;
        while k < n
            invariant
                n == self@.len(),
                k <= n,
                rows_wf(self@),
                forall|i: int| 0 <= i < k ==> #[trigger] self@[i].0 != id,
            decreases n - k,
        {
            if self.rows[k].id == id {
                proof {
                    assert(self@[k as int].0 == id);
                    let w = row_index(self@, id);
                    assert(0 <= w < self@.len() && self@[w].0 == id);
                    assert(w == k as int);
                }
                return Some(k);
            }
            k += 1;
        }
        None
    }

    /// Create the row of a newly spawned peer, starting at zero.
    pub fn add_player(&mut self, id: u64, name: String)
        requires
            rows_wf(old(self)@),
            !has_row(old(self)@, id),
        ensures
            final(self)@ == old(self)@.push((id, name@, 0)),
            rows_wf(final(self)@),
            has_row(final(self)@, id),
            final(self).last_rocks() == old(self).last_rocks(),
    {
        self.rows.push(ScoreRow { id, name, score: 0 });
        proof {
            assert(self@ =~= old(self)@.push((id, name@, 0)));
            assert(self@[self@.len() - 1].0 == id);
        }
    }

    /// Apply the centrally coordinated increment: `for_who`'s score grows by
    /// one and nothing else changes.
    pub fn increase_score(&mut self, for_who: u64)
        requires
            rows_wf(old(self)@),
            has_row(old(self)@, for_who),
            score_in(old(self)@, for_who) < u64::MAX,
        ensures
            final(self)@ == old(self)@.update(
                row_index(old(self)@, for_who),
                (for_who, name_in(old(self)@, for_who), (score_in(old(self)@, for_who) + 1) as u64),
            ),
            rows_wf(final(self)@),
            final(self).last_rocks() == old(self).last_rocks(),
    {
        let i = self.position(for_who).unwrap();
        let sc = self.rows[i].score;
        self.rows[i].score = sc + 1;
        proof {
            let w = row_index(old(self)@, for_who);
            assert(self@ =~= old(self)@.update(
                w,
                (for_who, name_in(old(self)@, for_who), (score_in(old(self)@, for_who) + 1) as u64),
            ));
            assert forall|i2: int, j2: int|
                0 <= i2 < j2 < self@.len() implies #[trigger] self@[i2].0
                != #[trigger] self@[j2].0 by {
                assert(self@[i2].0 == old(self)@[i2].0);
                assert(self@[j2].0 == old(self)@[j2].0);
            }
        }
    }

    /// The winning row: the first one whose score no other row exceeds.
    pub fn winner(&self) -> (r: Option<usize>)
        ensures
            match r {
                Some(i) => first_max_at(self@, i as int),
                None => self@.len() == 0,
            },
    {
        let n = self.rows.len();
        if n == 0 {
            return None;
        }
        let mut best: usize = 0;
        let mut k: usize = 1;
        while k < n
            invariant
                n == self@.len(),
                1 <= k <= n,
                best < k,
                forall|j: int| 0 <= j < k ==> #[trigger] self@[j].2 <= self@[best as int].2,
                forall|j: int| 0 <= j < best ==> #[trigger] self@[j].2 < self@[best as int].2,
            decreases n - k,
        {
            if self.rows[k].score > self.rows[best].score {
                best = k;
            }
            k += 1;
        }
        Some(best)
    }

    /// One detection tick, shown the obstacle count under the known
    /// container. Returns the winning row exactly when the count transitions
    /// from nonzero to zero and the ledger is not empty.
    pub fn tick(&mut self, rocks_left: u64) -> (r: Option<usize>)
        ensures
            final(self)@ == old(self)@,
            final(self).last_rocks() == rocks_left,
            (r is Some) <==> old(self).fires(rocks_left) && old(self)@.len() > 0,
            match r {
                Some(i) => first_max_at(old(self)@, i as int),
                None => true,
            },
    {
        let fired = self.prev_rocks > 0 && rocks_left == 0;
        self.prev_rocks = rocks_left;
        if fired {
            self.winner()
        } else {
            None
        }
    }
}

/// One operation on the ledger: a row created at spawn, or the centrally
/// coordinated increment.
pub enum ScoreEvent {
    AddPlayer(u64, Seq<char>),
    Increase(u64),
}

/// What one ledger operation does to the rows, inapplicable operations
/// (re-adding a present peer, incrementing an absent or saturated one)
/// leaving them unchanged.
pub open spec fn apply_score_event(s: Seq<RowModel>, e: ScoreEvent) -> Seq<RowModel> {
    match e {
        ScoreEvent::AddPlayer(id, name) => if has_row(s, id) {
            s
        } else {
            s.push((id, name, 0))
        },
        ScoreEvent::Increase(id) => if has_row(s, id) && score_in(s, id) < u64::MAX {
            s.update(row_index(s, id), (id, name_in(s, id), (score_in(s, id) + 1) as u64))
        } else {
            s
        },
    }
}

/// The rows after a whole sequence of ledger operations, first one first.
pub open spec fn apply_score_events(s: Seq<RowModel>, es: Seq<ScoreEvent>) -> Seq<RowModel>
    decreases es.len(),
{
    if es.len() == 0 {
        s
    } else {
        apply_score_events(apply_score_event(s, es[0]), es.subrange(1, es.len() as int))
    }
}

/// Law, one step: an operation keeps ids unique, keeps every present row
/// present with its name, never lowers a score, and changes `id`'s score
/// only if it is the increment for `id`.
pub proof fn lemma_score_event_monotone(s: Seq<RowModel>, e: ScoreEvent, id: u64)
    requires
        rows_wf(s),
        has_row(s, id),
    ensures
        rows_wf(apply_score_event(s, e)),
        has_row(apply_score_event(s, e), id),
        name_in(apply_score_event(s, e), id) == name_in(s, id),
        score_in(apply_score_event(s, e), id) >= score_in(s, id),
        e != ScoreEvent::Increase(id) ==> score_in(apply_score_event(s, e), id) == score_in(
            s,
            id,
        ),
{
    let t = apply_score_event(s, e);
    let w = row_index(s, id);
    assert(0 <= w < s.len() && s[w].0 == id);
    match e {
        ScoreEvent::AddPlayer(id2, name2) => {
            if has_row(s, id2) {
                assert(t == s);
            } else {
                assert(id2 != id);
                assert(t == s.push((id2, name2, 0)));
                assert forall|i: int, j: int| 0 <= i < j < t.len() implies #[trigger] t[i].0
                    != #[trigger] t[j].0 by {
                    if j == t.len() - 1 {
                        assert(t[j].0 == id2);
                        assert(t[i].0 == s[i].0);
                        assert(!has_row(s, id2));
                    }
                }
                assert(t[w].0 == id);
                let w2 = row_index(t, id);
                assert(0 <= w2 < t.len() && t[w2].0 == id);
                if w2 == t.len() - 1 {
                    assert(t[w2].0 == id2);
                    assert(false);
                }
                assert(t[w2] == s[w2]);
                assert(w2 == w);
            }
        }
        ScoreEvent::Increase(id2) => {
            if has_row(s, id2) && score_in(s, id2) < u64::MAX {
                let u = row_index(s, id2);
                assert(0 <= u < s.len() && s[u].0 == id2);
                assert(t == s.update(u, (id2, name_in(s, id2), (score_in(s, id2) + 1) as u64)));
                assert forall|i: int, j: int| 0 <= i < j < t.len() implies #[trigger] t[i].0
                    != #[trigger] t[j].0 by {
                    assert(t[i].0 == s[i].0);
                    assert(t[j].0 == s[j].0);
                }
                if id2 == id {
                    assert(u == w);
                    assert(t[w].0 == id);
                    let w2 = row_index(t, id);
                    assert(0 <= w2 < t.len() && t[w2].0 == id);
                    if w2 != w {
                        assert(t[w2].0 == s[w2].0);
                        assert(s[w2].0 == id && s[w].0 == id);
                        assert(false);
                    }
                    assert(score_in(t, id) == score_in(s, id) + 1);
                } else {
                    assert(u != w);
                    assert(t[w] == s[w]);
                    let w2 = row_index(t, id);
                    assert(0 <= w2 < t.len() && t[w2].0 == id);
                    if w2 == u {
                        assert(t[w2].0 == id2);
                        assert(false);
                    }
                    assert(t[w2] == s[w2]);
                    assert(w2 == w);
                }
            } else {
                assert(t == s);
            }
        }
    }
}

/// Law: over any sequence of ledger operations, a present peer's score is
/// monotonically non-decreasing, and if no operation in the sequence is the
/// increment for that peer, its score does not change at all.
pub proof fn lemma_scores_monotone(s: Seq<RowModel>, es: Seq<ScoreEvent>, id: u64)
    requires
        rows_wf(s),
        has_row(s, id),
    ensures
        rows_wf(apply_score_events(s, es)),
        has_row(apply_score_events(s, es), id),
        score_in(apply_score_events(s, es), id) >= score_in(s, id),
        (forall|k: int| 0 <= k < es.len() ==> #[trigger] es[k] != ScoreEvent::Increase(id))
            ==> score_in(apply_score_events(s, es), id) == score_in(s, id),
    decreases es.len(),
{
    if es.len() > 0 {
        let s1 = apply_score_event(s, es[0]);
        lemma_score_event_monotone(s, es[0], id);
        lemma_scores_monotone(s1, es.subrange(1, es.len() as int), id);
        if forall|k: int| 0 <= k < es.len() ==> #[trigger] es[k] != ScoreEvent::Increase(id) {
            assert(es[0] != ScoreEvent::Increase(id));
            assert forall|k: int|
                0 <= k < es.subrange(1, es.len() as int).len() implies #[trigger] es.subrange(
                1,
                es.len() as int,
            )[k] != ScoreEvent::Increase(id) by {
                assert(es.subrange(1, es.len() as int)[k] == es[k + 1]);
            }
        }
    }
}

/// Whether the detection fires at tick `k` of a round that starts with
/// `l0` obstacles seen and then shows the counts `cs`, tick by tick.
pub open spec fn fires_at(l0: u64, cs: Seq<u64>, k: int) -> bool {
    &&& 0 <= k < cs.len()
    &&& (if k == 0 {
        l0
    } else {
        cs[k - 1]
    }) > 0
    &&& cs[k] == 0
}

/// Law: in a round whose obstacle count starts nonzero and never grows,
/// the win fires exactly once, at the first tick that shows zero.
pub proof fn lemma_win_fires_once(l0: u64, cs: Seq<u64>, k0: int)
    requires
        l0 > 0,
        forall|i: int, j: int| 0 <= i <= j < cs.len() ==> #[trigger] cs[i] >= #[trigger] cs[j],
        0 <= k0 < cs.len(),
        cs[k0] == 0,
        forall|j: int| 0 <= j < k0 ==> #[trigger] cs[j] > 0,
    ensures
        fires_at(l0, cs, k0),
        forall|k: int| #[trigger] fires_at(l0, cs, k) ==> k == k0,
{
    assert forall|k: int| #[trigger] fires_at(l0, cs, k) implies k == k0 by {
        if k < k0 {
            assert(cs[k] > 0);
        }
        if k > k0 {
            assert(cs[k0] >= cs[k - 1]);
        }
    }
}

} // verus!
