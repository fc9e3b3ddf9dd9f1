//! The bounded in-memory roll history: newest first, at most one entry per
//! roll id, capped at `ROLL_HISTORY_CAPACITY` entries.

use vstd::prelude::*;
use crate::bridge::types::{CanonicalRoll, CanonicalRollV};
use crate::text::str_eq;
use std::collections::VecDeque;

verus! {

/// Capacity of the roll-history ring.
pub const ROLL_HISTORY_CAPACITY: usize = 200;

/// `s` with every roll whose id is `id` taken out, the rest in order.
pub open spec fn without_id(s: Seq<CanonicalRollV>, id: Seq<char>) -> Seq<CanonicalRollV>
    decreases s.len(),
{
    if s.len() == 0 {
        s
    } else if s.last().source_id == id {
        without_id(s.drop_last(), id)
    } else {
        without_id(s.drop_last(), id).push(s.last())
    }
}

/// No two rolls share an id.
pub open spec fn ids_unique(s: Seq<CanonicalRollV>) -> bool {
    forall|i: int, j: int| 0 <= i < j < s.len() ==> s[i].source_id != s[j].source_id
}

/// What a history may hold: at most the capacity, each id once.
pub open spec fn history_wf(s: Seq<CanonicalRollV>) -> bool {
    s.len() <= ROLL_HISTORY_CAPACITY && ids_unique(s)
}

/// The history after `r` arrives: `r` in front, any older roll with its id
/// dropped, and the oldest entries cut off beyond the capacity.
pub open spec fn pushed(s: Seq<CanonicalRollV>, r: CanonicalRollV) -> Seq<CanonicalRollV> {
    let t = seq![r] + without_id(s, r.source_id);
    if t.len() > ROLL_HISTORY_CAPACITY {
        t.take(ROLL_HISTORY_CAPACITY as int)
    } else {
        t
    }
}

proof fn lemma_without_absent(s: Seq<CanonicalRollV>, id: Seq<char>)
    requires
        forall|i: int| 0 <= i < s.len() ==> s[i].source_id != id,
    ensures
        without_id(s, id) == s,
    decreases s.len(),
{
    if s.len() > 0 {
        lemma_without_absent(s.drop_last(), id);
        assert(s.drop_last().push(s.last()) =~= s);
    }
}

proof fn lemma_without_members(s: Seq<CanonicalRollV>, id: Seq<char>)
    ensures
        without_id(s, id).len() <= s.len(),
        forall|i: int|
            0 <= i < without_id(s, id).len() ==> (#[trigger] without_id(s, id)[i]).source_id != id
                && exists|j: int| 0 <= j < s.len() && s[j] == without_id(s, id)[i],
    decreases s.len(),
{
    if s.len() > 0 {
        let d = s.drop_last();
        lemma_without_members(d, id);
        let w = without_id(s, id);
        assert forall|i: int| 0 <= i < w.len() implies (#[trigger] w[i]).source_id != id
            && exists|j: int| 0 <= j < s.len() && s[j] == w[i] by {
            if i < without_id(d, id).len() {
                assert(w[i] == without_id(d, id)[i]);
                let j = choose|j: int| 0 <= j < d.len() && d[j] == without_id(d, id)[i];
                assert(s[j] == w[i]);
            } else {
                assert(w[i] == s.last());
                assert(s[s.len() - 1] == w[i]);
            }
        }
    }
}

proof fn lemma_without_unique(s: Seq<CanonicalRollV>, id: Seq<char>)
    requires
        ids_unique(s),
    ensures
        ids_unique(without_id(s, id)),
    decreases s.len(),
{
    if s.len() > 0 {
        let d = s.drop_last();
        assert(ids_unique(d));
        lemma_without_unique(d, id);
        lemma_without_members(d, id);
        let wd = without_id(d, id);
        if s.last().source_id != id {
            let w = wd.push(s.last());
            assert forall|i: int, j: int| 0 <= i < j < w.len() implies w[i].source_id
                != w[j].source_id by {
                if j == w.len() - 1 {
                    assert(wd[i] == w[i]);
                    let k = choose|k: int| 0 <= k < d.len() && d[k] == wd[i];
                    assert(s[k] == w[i]);
                    assert(s[s.len() - 1] == w[j]);
                } else {
                    assert(wd[i] == w[i] && wd[j] == w[j]);
                }
            }
        }
    }
}

/// With unique ids, dropping an id that sits at index `k` is removing `k`.
proof fn lemma_without_at(s: Seq<CanonicalRollV>, id: Seq<char>, k: int)
    requires
        ids_unique(s),
        0 <= k < s.len(),
        s[k].source_id == id,
    ensures
        without_id(s, id) == s.remove(k),
    decreases s.len(),
{
    let d = s.drop_last();
    if k == s.len() - 1 {
        assert forall|i: int| 0 <= i < d.len() implies d[i].source_id != id by {
            assert(d[i] == s[i]);
        }
        lemma_without_absent(d, id);
        assert(s.remove(k) =~= d);
    } else {
        assert(ids_unique(d));
        assert(d[k] == s[k]);
        lemma_without_at(d, id, k);
        assert(s.last().source_id != id);
        assert(d.remove(k).push(s.last()) =~= s.remove(k));
    }
}

/// Law: a history that holds at most the capacity and each id once keeps
/// both properties when a roll arrives, and the new roll is its newest entry.
pub proof fn lemma_pushed_wf(s: Seq<CanonicalRollV>, r: CanonicalRollV)
    requires
        history_wf(s),
    ensures
        history_wf(pushed(s, r)),
        pushed(s, r).len() > 0,
        pushed(s, r)[0] == r,
        pushed(s, r).len() == if without_id(s, r.source_id).len() + 1 > ROLL_HISTORY_CAPACITY {
            ROLL_HISTORY_CAPACITY as int
        } else {
            (without_id(s, r.source_id).len() + 1) as int
        },
{
    let w = without_id(s, r.source_id);
    lemma_without_members(s, r.source_id);
    lemma_without_unique(s, r.source_id);
    let t = seq![r] + w;
    assert(t[0] == r);
    assert forall|i: int, j: int| 0 <= i < j < t.len() implies t[i].source_id
        != t[j].source_id by {
        assert(t[j] == w[j - 1]);
        if i > 0 {
            assert(t[i] == w[i - 1]);
        }
    }
    let p = pushed(s, r);
    assert forall|i: int, j: int| 0 <= i < j < p.len() implies p[i].source_id
        != p[j].source_id by {
        assert(p[i] == t[i] && p[j] == t[j]);
    }
}

/// Law: a roll that arrives twice in a row is kept once; the second arrival
/// leaves the history as the first one left it.
pub proof fn lemma_push_twice_same(s: Seq<CanonicalRollV>, r: CanonicalRollV)
    requires
        history_wf(s),
    ensures
        pushed(pushed(s, r), r) == pushed(s, r),
{
    let p = pushed(s, r);
    lemma_pushed_wf(s, r);
    lemma_without_at(p, r.source_id, 0);
    assert(seq![r] + p.remove(0) =~= p);
}

/// Law: a roll whose id is new to the history goes in front of all of it,
/// the oldest entry falling off only when the history was full.
pub proof fn lemma_push_fresh(s: Seq<CanonicalRollV>, r: CanonicalRollV)
    requires
        history_wf(s),
        forall|i: int| 0 <= i < s.len() ==> s[i].source_id != r.source_id,
    ensures
        s.len() < ROLL_HISTORY_CAPACITY ==> pushed(s, r) == seq![r] + s,
        s.len() == ROLL_HISTORY_CAPACITY ==> pushed(s, r) == seq![r] + s.drop_last(),
{
    lemma_without_absent(s, r.source_id);
    if s.len() == ROLL_HISTORY_CAPACITY {
        assert((seq![r] + s).take(ROLL_HISTORY_CAPACITY as int) =~= seq![r] + s.drop_last());
    }
}

/// The roll history: a ring of rolls, newest at the front.
pub struct RollHistory {
    rolls: VecDeque<CanonicalRoll>,
}

impl View for RollHistory {
    type V = Seq<CanonicalRollV>;

    closed spec fn view(&self) -> Seq<CanonicalRollV> {
        Seq::new(self.rolls@.len(), |i: int| self.rolls@[i]@)
    }
}

impl RollHistory {
    #[verifier::type_invariant]
    spec fn inv(self) -> bool {
        history_wf(self@)
    }

    /// An empty history.
    pub fn new() -> (h: RollHistory)
        ensures
            h@ == Seq::<CanonicalRollV>::empty(),
    {
        let h = RollHistory { rolls: VecDeque::with_capacity(ROLL_HISTORY_CAPACITY) };
        assert(h@ =~= Seq::<CanonicalRollV>::empty());
        h
    }

    /// Number of rolls held.
    pub fn len(&self) -> (n: usize)
        ensures
            n == self@.len(),
            history_wf(self@),
    {
        proof {
            use_type_invariant(self);
        }
        self.rolls.len()
    }

    /// Records a roll: it becomes the newest entry, an older roll with the
    /// same id is dropped, and the oldest entry falls off past the capacity.
    pub fn push_roll(&mut self, roll: CanonicalRoll)
        ensures
            final(self)@ == pushed(old(self)@, roll@),
            history_wf(final(self)@),
            final(self)@[0] == roll@,
    {
        proof {
            use_type_invariant(&*self);
        }
        let ghost s = self@;
        let ghost r = roll@;
        proof {
            lemma_pushed_wf(s, r);
        }
        let mut rolls: VecDeque<CanonicalRoll> = VecDeque::new();
        std::mem::swap(&mut rolls, &mut self.rolls);
        assert(Seq::new(rolls@.len(), |i: int| rolls@[i]@) =~= s);
        let mut i: usize = 0;
        let mut found: Option<usize> = None;
        while i < rolls.len() && found.is_none()
            invariant
                i <= rolls@.len(),
                r == roll@,
                Seq::new(rolls@.len(), |k: int| rolls@[k]@) == s,
                found is None ==> forall|k: int| 0 <= k < i ==> s[k].source_id != r.source_id,
                found matches Some(k) ==> k < rolls@.len() && s[k as int].source_id == r.source_id,
            decreases rolls.len() - i,
        {
            assert(s[i as int] == rolls@[i as int]@);
            if str_eq(rolls[i].source_id.as_str(), roll.source_id.as_str()) {
                found = Some(i);
            }
            i += 1;
        }
        let ghost w = without_id(s, r.source_id);
        match found {
            Some(k) => {
                proof {
                    lemma_without_at(s, r.source_id, k as int);
                }
                let _ = rolls.remove(k);
                assert(Seq::new(rolls@.len(), |j: int| rolls@[j]@) =~= w);
            },
            None => {
                proof {
                    lemma_without_absent(s, r.source_id);
                }
            },
        }
        rolls.push_front(roll);
        assert(Seq::new(rolls@.len(), |j: int| rolls@[j]@) =~= seq![r] + w);
        rolls.truncate(ROLL_HISTORY_CAPACITY);
        assert(Seq::new(rolls@.len(), |j: int| rolls@[j]@) =~= pushed(s, r));
        self.rolls = rolls;
    }

    /// A newest-first copy of the history.
    pub fn get_rolls(&self) -> (out: Vec<CanonicalRoll>)
        ensures
            out@.len() == self@.len(),
            forall|i: int| 0 <= i < out@.len() ==> out@[i]@ == self@[i],
            history_wf(self@),
    {
        proof {
            use_type_invariant(self);
        }
        let mut out: Vec<CanonicalRoll> = Vec::new();
        let mut i: usize = 0;
        while i < self.rolls.len()
            invariant
                i <= self.rolls@.len(),
                out@.len() == i,
                forall|k: int| 0 <= k < i ==> out@[k]@ == self.rolls@[k]@,
            decreases self.rolls.len() - i,
        {
            let c = self.rolls[i].copy();
            out.push(c);
            i += 1;
        }
        out
    }
}

} // verus!
