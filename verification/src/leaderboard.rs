//! The persisted scoreboard: win and podium counts keyed by participant
//! identity, with a verified descending sort for display.

use vstd::prelude::*;
use vstd::multiset::Multiset;

verus! {

/// Scores ordered lexicographically: wins first, podiums as tie-breaker.
pub open spec fn score_ge(a: (u32, u32), b: (u32, u32)) -> bool {
    a.0 > b.0 || (a.0 == b.0 && a.1 >= b.1)
}

/// Descending order by score.
pub open spec fn sorted_desc(s: Seq<(u64, (u32, u32))>) -> bool {
    forall|i: int, j: int|
        0 <= i <= j < s.len() ==> score_ge((#[trigger] s[i]).1, (#[trigger] s[j]).1)
}

/// First score stored under `id`, scanning front to back.
pub open spec fn score_lookup(s: Seq<(u64, (u32, u32))>, id: u64) -> Option<(u32, u32)>
    decreases s.len(),
{
    if s.len() == 0 {
        None
    } else if s[0].0 == id {
        Some(s[0].1)
    } else {
        score_lookup(s.drop_first(), id)
    }
}

/// No participant appears twice.
pub open spec fn unique_ids(s: Seq<(u64, (u32, u32))>) -> bool {
    forall|i: int, j: int| 0 <= i < j < s.len() ==> (#[trigger] s[i]).0 != (#[trigger] s[j]).0
}

pub proof fn lemma_score_lookup_push(s: Seq<(u64, (u32, u32))>, p: (u64, (u32, u32)), id: u64)
    ensures
        score_lookup(s, id) is Some ==> score_lookup(s.push(p), id) == score_lookup(s, id),
        score_lookup(s, id) is None && p.0 == id ==> score_lookup(s.push(p), id) == Some(p.1),
        score_lookup(s, id) is None && p.0 != id ==> score_lookup(s.push(p), id) is None,
    decreases s.len(),
{
    if s.len() == 0 {
        assert(s.push(p)[0] == p);
        assert(s.push(p).drop_first() =~= Seq::<(u64, (u32, u32))>::empty());
        assert(score_lookup(Seq::<(u64, (u32, u32))>::empty(), id) is None);
    } else {
        assert(s.push(p)[0] == s[0]);
        assert(s.push(p).drop_first() =~= s.drop_first().push(p));
        lemma_score_lookup_push(s.drop_first(), p, id);
    }
}

pub proof fn lemma_score_lookup_none(s: Seq<(u64, (u32, u32))>, id: u64)
    requires
        forall|k: int| 0 <= k < s.len() ==> (#[trigger] s[k]).0 != id,
    ensures
        score_lookup(s, id) is None,
    decreases s.len(),
{
    if s.len() > 0 {
        assert forall|k: int| 0 <= k < s.drop_first().len() implies (#[trigger] s.drop_first()[
        k]).0 != id by {
            assert(s.drop_first()[k] == s[k + 1]);
        }
        lemma_score_lookup_none(s.drop_first(), id);
    }
}

/// Updating the first entry that holds a key changes that key's score and
/// no other.
pub proof fn lemma_score_lookup_update(
    s: Seq<(u64, (u32, u32))>,
    i: int,
    p: (u64, (u32, u32)),
    id: u64,
)
    requires
        0 <= i < s.len(),
        p.0 == s[i].0,
        forall|k: int| 0 <= k < i ==> (#[trigger] s[k]).0 != s[i].0,
    ensures
        score_lookup(s.update(i, p), id) == (if id == p.0 {
            Some(p.1)
        } else {
            score_lookup(s, id)
        }),
    decreases i,
{
    let t = s.update(i, p);
    if i == 0 {
        assert(t[0] == p);
        if id != p.0 {
            assert(t.drop_first() =~= s.drop_first());
        }
    } else {
        assert(t[0] == s[0]);
        assert(t.drop_first() =~= s.drop_first().update(i - 1, p));
        assert forall|k: int| 0 <= k < i - 1 implies (#[trigger] s.drop_first()[k]).0 != s
            .drop_first()[i - 1].0 by {
            assert(s.drop_first()[k] == s[k + 1]);
        }
        lemma_score_lookup_update(s.drop_first(), i - 1, p, id);
    }
}

/// The scoreboard: the message it is shown in, and the per-participant
/// win and podium counts, when any have been recorded.
pub struct Leaderboard {
    pub channel_id: u64,
    pub message_id: u64,
    pub leaderboard: Option<Vec<(u64, (u32, u32))>>,
}

/// Index of the first entry holding `id`.
fn find_entry(lb: &Vec<(u64, (u32, u32))>, id: u64) -> (r: Option<usize>)
    ensures
        match r {
            Some(i) => i < lb@.len() && lb@[i as int].0 == id && forall|k: int|
                0 <= k < i ==> (#[trigger] lb@[k]).0 != id,
            None => forall|k: int| 0 <= k < lb@.len() ==> (#[trigger] lb@[k]).0 != id,
        },
{
    let n = lb.len();
    let mut i: usize = 0;
    while i < n
        invariant
            n == lb@.len(),
            i <= n,
            forall|k: int| 0 <= k < i ==> (#[trigger] lb@[k]).0 != id,
        decreases n - i,
    {
        if lb[i].0 == id {
            return Some(i);
        }
        i += 1;
    }
    None
}

/// Index of a maximal score.
fn max_index(src: &Vec<(u64, (u32, u32))>) -> (idx: usize)
    requires
        src@.len() > 0,
    ensures
        idx < src@.len(),
        forall|b: int| 0 <= b < src@.len() ==> score_ge(src@[idx as int].1, (#[trigger] src@[b]).1),
{
    let n = src.len();
    let mut idx: usize = 0;
    let mut b: usize = 1;
    while b < n
        invariant
            n == src@.len(),
            idx < b <= n,
            forall|k: int| 0 <= k < b ==> score_ge(src@[idx as int].1, (#[trigger] src@[k]).1),
        decreases n - b,
    {
        let cur = src[idx].1;
        let cand = src[b].1;
        if cand.0 > cur.0 || (cand.0 == cur.0 && cand.1 > cur.1) {
            idx = b;
        }
        b += 1;
    }
    idx
}

impl Leaderboard {
    /// The recorded entries; an absent board holds none.
    pub open spec fn entries(&self) -> Seq<(u64, (u32, u32))> {
        match self.leaderboard {
            Some(v) => v@,
            None => Seq::empty(),
        }
    }

    /// Each participant is recorded at most once.
    pub open spec fn wf(&self) -> bool {
        unique_ids(self.entries())
    }

    /// The entries ordered by descending score (wins, then podiums): a
    /// permutation of the recorded entries, sorted.
    pub fn get_sorted_results(&self) -> (r: Vec<(u64, (u32, u32))>)
        ensures
            r@.to_multiset() == self.entries().to_multiset(),
            sorted_desc(r@),
    {
        broadcast use vstd::seq_lib::group_to_multiset_ensures;
        broadcast use vstd::multiset::group_multiset_axioms;

        match &self.leaderboard {
            None => {
                let r: Vec<(u64, (u32, u32))> = Vec::new();
                proof {
                    assert(r@ =~= self.entries());
                }
                r
            },
            Some(lb) => {
                let n = lb.len();
                let mut src: Vec<(u64, (u32, u32))> = Vec::new();
                let mut i: usize = 0;
                while i < n
                    invariant
                        n == lb@.len(),
                        i <= n,
                        src@ == lb@.take(i as int),
                    decreases n - i,
                {
                    src.push(lb[i]);
                    proof {
                        assert(lb@.take(i as int + 1) =~= lb@.take(i as int).push(lb@[i as int]));
                    }
                    i += 1;
                }
                proof {
                    assert(lb@.take(n as int) =~= lb@);
                }
                let mut out: Vec<(u64, (u32, u32))> = Vec::new();
                while src.len() > 0
                    invariant
                        sorted_desc(out@),
                        forall|a: int, b: int|
                            0 <= a < out@.len() && 0 <= b < src@.len() ==> score_ge(
                                (#[trigger] out@[a]).1,
                                (#[trigger] src@[b]).1,
                            ),
                        out@.to_multiset().add(src@.to_multiset()) == lb@.to_multiset(),
                    decreases src@.len(),
                {
                    let ghost old_out = out@;
                    let ghost old_src = src@;
                    let idx = max_index(&src);
                    let x = src.remove(idx);
                    out.push(x);
                    proof {
                        broadcast use vstd::multiset::group_multiset_axioms;

                        vstd::seq_lib::to_multiset_build(old_out, x);
                        vstd::seq_lib::to_multiset_remove(old_src, idx as int);
                        vstd::seq_lib::to_multiset_contains(old_src, x);
                        assert(old_src[idx as int] == x);
                        assert(old_src.contains(x));
                        assert(out@.to_multiset() =~= old_out.to_multiset().insert(x));
                        assert(src@.to_multiset() =~= old_src.to_multiset().remove(x));
                        assert(old_src.to_multiset().count(x) > 0);
                        assert(out@.to_multiset().add(src@.to_multiset()) =~= old_out.to_multiset(
                        ).add(old_src.to_multiset()));
                        assert forall|a: int, b: int|
                            0 <= a < out@.len() && 0 <= b < src@.len() implies score_ge(
                            (#[trigger] out@[a]).1,
                            (#[trigger] src@[b]).1,
                        ) by {
                            assert(src@[b] == old_src[if b < idx {
                                b
                            } else {
                                b + 1
                            }]);
                            if a < old_out.len() {
                                assert(out@[a] == old_out[a]);
                            } else {
                                assert(out@[a] == x);
                            }
                        }
                        assert forall|i2: int, j2: int|
                            0 <= i2 <= j2 < out@.len() implies score_ge(
                            (#[trigger] out@[i2]).1,
                            (#[trigger] out@[j2]).1,
                        ) by {
                            if j2 == out@.len() - 1 && i2 < j2 {
                                assert(score_ge(old_out[i2].1, old_src[idx as int].1));
                            }
                        }
                    }
                }
                proof {
                    broadcast use vstd::multiset::group_multiset_axioms;

                    assert forall|a: (u64, (u32, u32))| src@.to_multiset().count(a) == 0 by {
                        vstd::seq_lib::to_multiset_contains(src@, a);
                    }
                    assert(out@.to_multiset().add(src@.to_multiset()) =~= out@.to_multiset());
                }
                out
            },
        }
    }

    /// Records one more win for `id`, creating the entry (one win, no
    /// podiums) when absent; an existing count saturates rather than wrap.
    pub fn add_win(&mut self, id: u64)
        requires
            old(self).wf(),
        ensures
            final(self).wf(),
            final(self).channel_id == old(self).channel_id,
            final(self).message_id == old(self).message_id,
            final(self).leaderboard is Some,
            score_lookup(final(self).entries(), id) == (match score_lookup(
                old(self).entries(),
                id,
            ) {
                None => Some((1u32, 0u32)),
                Some(s) => Some(
                    ((if s.0 == u32::MAX {
                        s.0
                    } else {
                        (s.0 + 1) as u32
                    }), s.1),
                ),
            }),
            forall|o: u64|
                o != id ==> #[trigger] score_lookup(final(self).entries(), o) == score_lookup(
                    old(self).entries(),
                    o,
                ),
    {
        let mut lb = match self.leaderboard.take() {
            Some(v) => v,
            None => Vec::new(),
        };
        let ghost s = lb@;
        proof {
            assert(s == old(self).entries());
        }
        match find_entry(&lb, id) {
            Some(i) => {
                let sc = lb[i].1;
                let w = if sc.0 == u32::MAX {
                    sc.0
                } else {
                    sc.0 + 1
                };
                lb[i] = (id, (w, sc.1));
                proof {
                    assert(lb@ == s.update(i as int, (id, (w, sc.1))));
                    assert forall|o: u64| true implies #[trigger] score_lookup(lb@, o) == (if o
                        == id {
                        Some((w, sc.1))
                    } else {
                        score_lookup(s, o)
                    }) by {
                        lemma_score_lookup_update(s, i as int, (id, (w, sc.1)), o);
                    }
                    lemma_first_match_is_value(s, i as int, id);
                }
            },
            None => {
                lb.push((id, (1, 0)));
                proof {
                    assert(lb@ =~= s.push((id, (1u32, 0u32))));
                    lemma_score_lookup_none(s, id);
                    assert forall|o: u64| true implies #[trigger] score_lookup(lb@, o) == (if o
                        == id {
                        Some((1u32, 0u32))
                    } else {
                        score_lookup(s, o)
                    }) by {
                        lemma_score_lookup_push(s, (id, (1u32, 0u32)), o);
                    }
                    assert forall|a: int, b: int| 0 <= a < b < lb@.len() implies (
                    #[trigger] lb@[a]).0 != (#[trigger] lb@[b]).0 by {
                        assert(lb@[a] == s[a]);
                        if b < s.len() {
                            assert(lb@[b] == s[b]);
                        }
                    }
                }
            },
        }
        self.leaderboard = Some(lb);
    }
}

impl Leaderboard {
    /// Takes one win away from `id`, never below zero; an unknown
    /// participant is left unrecorded.
    pub fn remove_win(&mut self, id: u64)
        requires
            old(self).wf(),
        ensures
            final(self).wf(),
            final(self).channel_id == old(self).channel_id,
            final(self).message_id == old(self).message_id,
            final(self).leaderboard is Some,
            score_lookup(final(self).entries(), id) == (match score_lookup(
                old(self).entries(),
                id,
            ) {
                None => None::<(u32, u32)>,
                Some(s) => Some(
                    ((if s.0 > 0 {
                        (s.0 - 1) as u32
                    } else {
                        s.0
                    }), s.1),
                ),
            }),
            forall|o: u64|
                o != id ==> #[trigger] score_lookup(final(self).entries(), o) == score_lookup(
                    old(self).entries(),
                    o,
                ),
    {
        let mut lb = match self.leaderboard.take() {
            Some(v) => v,
            None => Vec::new(),
        };
        let ghost s = lb@;
        proof {
            assert(s == old(self).entries());
        }
        match find_entry(&lb, id) {
            Some(i) => {
                let sc = lb[i].1;
                let w = if sc.0 > 0 {
                    sc.0 - 1
                } else {
                    sc.0
                };
                lb[i] = (id, (w, sc.1));
                proof {
                    assert(lb@ == s.update(i as int, (id, (w, sc.1))));
                    assert forall|o: u64| true implies #[trigger] score_lookup(lb@, o) == (if o
                        == id {
                        Some((w, sc.1))
                    } else {
                        score_lookup(s, o)
                    }) by {
                        lemma_score_lookup_update(s, i as int, (id, (w, sc.1)), o);
                    }
                    lemma_first_match_is_value(s, i as int, id);
                }
            },
            None => {
                proof {
                    lemma_score_lookup_none(s, id);
                }
            },
        }
        self.leaderboard = Some(lb);
    }

    /// Records one more podium for `id`, creating the entry (no wins, one
    /// podium) when absent; an existing count saturates rather than wrap.
    pub fn add_podium(&mut self, id: u64)
        requires
            old(self).wf(),
        ensures
            final(self).wf(),
            final(self).channel_id == old(self).channel_id,
            final(self).message_id == old(self).message_id,
            final(self).leaderboard is Some,
            score_lookup(final(self).entries(), id) == (match score_lookup(
                old(self).entries(),
                id,
            ) {
                None => Some((0u32, 1u32)),
                Some(s) => Some(
                    (s.0, (if s.1 == u32::MAX {
                        s.1
                    } else {
                        (s.1 + 1) as u32
                    })),
                ),
            }),
            forall|o: u64|
                o != id ==> #[trigger] score_lookup(final(self).entries(), o) == score_lookup(
                    old(self).entries(),
                    o,
                ),
    {
        let mut lb = match self.leaderboard.take() {
            Some(v) => v,
            None => Vec::new(),
        };
        let ghost s = lb@;
        proof {
            assert(s == old(self).entries());
        }
        match find_entry(&lb, id) {
            Some(i) => {
                let sc = lb[i].1;
                let p = if sc.1 == u32::MAX {
                    sc.1
                } else {
                    sc.1 + 1
                };
                lb[i] = (id, (sc.0, p));
                proof {
                    assert(lb@ == s.update(i as int, (id, (sc.0, p))));
                    assert forall|o: u64| true implies #[trigger] score_lookup(lb@, o) == (if o
                        == id {
                        Some((sc.0, p))
                    } else {
                        score_lookup(s, o)
                    }) by {
                        lemma_score_lookup_update(s, i as int, (id, (sc.0, p)), o);
                    }
                    lemma_first_match_is_value(s, i as int, id);
                }
            },
            None => {
                lb.push((id, (0, 1)));
                proof {
                    assert(lb@ =~= s.push((id, (0u32, 1u32))));
                    lemma_score_lookup_none(s, id);
                    assert forall|o: u64| true implies #[trigger] score_lookup(lb@, o) == (if o
                        == id {
                        Some((0u32, 1u32))
                    } else {
                        score_lookup(s, o)
                    }) by {
                        lemma_score_lookup_push(s, (id, (0u32, 1u32)), o);
                    }
                    assert forall|a: int, b: int| 0 <= a < b < lb@.len() implies (
                    #[trigger] lb@[a]).0 != (#[trigger] lb@[b]).0 by {
                        assert(lb@[a] == s[a]);
                        if b < s.len() {
                            assert(lb@[b] == s[b]);
                        }
                    }
                }
            },
        }
        self.leaderboard = Some(lb);
    }

    /// Takes one podium away from `id`, never below zero; an unknown
    /// participant is left unrecorded.
    pub fn remove_podium(&mut self, id: u64)
        requires
            old(self).wf(),
        ensures
            final(self).wf(),
            final(self).channel_id == old(self).channel_id,
            final(self).message_id == old(self).message_id,
            final(self).leaderboard is Some,
            score_lookup(final(self).entries(), id) == (match score_lookup(
                old(self).entries(),
                id,
            ) {
                None => None::<(u32, u32)>,
                Some(s) => Some(
                    (s.0, (if s.1 > 0 {
                        (s.1 - 1) as u32
                    } else {
                        s.1
                    })),
                ),
            }),
            forall|o: u64|
                o != id ==> #[trigger] score_lookup(final(self).entries(), o) == score_lookup(
                    old(self).entries(),
                    o,
                ),
    {
        let mut lb = match self.leaderboard.take() {
            Some(v) => v,
            None => Vec::new(),
        };
        let ghost s = lb@;
        proof {
            assert(s == old(self).entries());
        }
        match find_entry(&lb, id) {
            Some(i) => {
                let sc = lb[i].1;
                let p = if sc.1 > 0 {
                    sc.1 - 1
                } else {
                    sc.1
                };
                lb[i] = (id, (sc.0, p));
                proof {
                    assert(lb@ == s.update(i as int, (id, (sc.0, p))));
                    assert forall|o: u64| true implies #[trigger] score_lookup(lb@, o) == (if o
                        == id {
                        Some((sc.0, p))
                    } else {
                        score_lookup(s, o)
                    }) by {
                        lemma_score_lookup_update(s, i as int, (id, (sc.0, p)), o);
                    }
                    lemma_first_match_is_value(s, i as int, id);
                }
            },
            None => {
                proof {
                    lemma_score_lookup_none(s, id);
                }
            },
        }
        self.leaderboard = Some(lb);
    }
}

/// The first entry holding a key decides that key's score.
proof fn lemma_first_match_is_value(s: Seq<(u64, (u32, u32))>, i: int, id: u64)
    requires
        0 <= i < s.len(),
        s[i].0 == id,
        forall|k: int| 0 <= k < i ==> (#[trigger] s[k]).0 != id,
    ensures
        score_lookup(s, id) == Some(s[i].1),
    decreases i,
{
    if i > 0 {
        assert forall|k: int| 0 <= k < i - 1 implies (#[trigger] s.drop_first()[k]).0 != id by {
            assert(s.drop_first()[k] == s[k + 1]);
        }
        assert(s.drop_first()[i - 1] == s[i]);
        lemma_first_match_is_value(s.drop_first(), i - 1, id);
    }
}

} // verus!
