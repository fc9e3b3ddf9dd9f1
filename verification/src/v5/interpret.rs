//! Reading a roll: successes, critical pairs and the hunger flags.

use vstd::prelude::*;
use crate::v5::types::{Die, DieKind, RollResult, Tally};

verus! {

/// Number of dice in `s` satisfying `p`.
pub open spec fn count_dice(s: Seq<Die>, p: spec_fn(Die) -> bool) -> nat
    decreases s.len(),
{
    if s.len() == 0 {
        0
    } else {
        count_dice(s.drop_last(), p) + if p(s.last()) { 1nat } else { 0nat }
    }
}

pub open spec fn is_ten(d: Die) -> bool {
    d.value == 10
}

pub open spec fn is_hunger_ten(d: Die) -> bool {
    d.kind == DieKind::Hunger && d.value == 10
}

pub open spec fn is_hunger_one(d: Die) -> bool {
    d.kind == DieKind::Hunger && d.value == 1
}

/// A plain success: 6 through 9 (tens are counted separately).
pub open spec fn is_plain_success(d: Die) -> bool {
    d.value != 10 && d.value >= 6
}

pub open spec fn tens(s: Seq<Die>) -> nat {
    count_dice(s, |d: Die| is_ten(d))
}

pub open spec fn hunger_tens(s: Seq<Die>) -> nat {
    count_dice(s, |d: Die| is_hunger_ten(d))
}

pub open spec fn hunger_ones(s: Seq<Die>) -> nat {
    count_dice(s, |d: Die| is_hunger_one(d))
}

pub open spec fn plain_successes(s: Seq<Die>) -> nat {
    count_dice(s, |d: Die| is_plain_success(d))
}

/// Successes of a roll: each die of 6 or more counts one, and every pair
/// of tens adds two more.
pub open spec fn total_successes(s: Seq<Die>) -> nat {
    plain_successes(s) + tens(s) + (tens(s) / 2) * 2
}

/// The tally fits the `u8` counters the reading keeps.
pub open spec fn tally_fits(s: Seq<Die>) -> bool {
    &&& tens(s) <= 255
    &&& hunger_ones(s) <= 255
    &&& plain_successes(s) + tens(s) <= 255
    &&& total_successes(s) <= 255
}

proof fn lemma_count_step(s: Seq<Die>, i: int, p: spec_fn(Die) -> bool)
    requires
        0 <= i < s.len(),
    ensures
        count_dice(s.take(i + 1), p) == count_dice(s.take(i), p) + if p(s[i]) { 1nat } else { 0nat },
{
    assert(s.take(i + 1).drop_last() =~= s.take(i));
}

proof fn lemma_count_prefix(s: Seq<Die>, i: int, p: spec_fn(Die) -> bool)
    requires
        0 <= i <= s.len(),
    ensures
        count_dice(s.take(i), p) <= count_dice(s, p),
    decreases s.len() - i,
{
    if i < s.len() {
        lemma_count_step(s, i, p);
        lemma_count_prefix(s, i + 1, p);
    } else {
        assert(s.take(i) =~= s);
    }
}

proof fn lemma_count_remove(s: Seq<Die>, j: int, p: spec_fn(Die) -> bool)
    requires
        0 <= j < s.len(),
    ensures
        count_dice(s, p) == count_dice(s.remove(j), p) + if p(s[j]) { 1nat } else { 0nat },
    decreases s.len(),
{
    if j == s.len() - 1 {
        assert(s.remove(j) =~= s.drop_last());
    } else {
        lemma_count_remove(s.drop_last(), j, p);
        assert(s.remove(j).drop_last() =~= s.drop_last().remove(j));
        assert(s.remove(j).last() == s.last());
    }
}

proof fn lemma_count_order_free(a: Seq<Die>, b: Seq<Die>, p: spec_fn(Die) -> bool)
    requires
        a.to_multiset() == b.to_multiset(),
    ensures
        count_dice(a, p) == count_dice(b, p),
    decreases a.len(),
{
    broadcast use vstd::seq_lib::group_to_multiset_ensures;
    broadcast use vstd::multiset::group_multiset_axioms;
    if a.len() == 0 {
        assert(a.to_multiset().len() == a.len());
        assert(b.to_multiset().len() == b.len());
        assert(b.len() == 0);
    } else {
        let x = a.last();
        assert(a =~= a.drop_last().push(x));
        assert(a.to_multiset().count(x) > 0);
        assert(b.contains(x));
        let j = choose|j: int| 0 <= j < b.len() && b[j] == x;
        assert(a.drop_last().to_multiset() =~= a.to_multiset().remove(x));
        assert(b.remove(j).to_multiset() =~= b.to_multiset().remove(x));
        lemma_count_order_free(a.drop_last(), b.remove(j), p);
        lemma_count_remove(b, j, p);
    }
}

/// Law: the reading of a roll depends only on which dice came up, not on
/// their order: two rolls holding the same dice (as a multiset) have the
/// same tens, hunger tens, hunger ones, plain and total successes, and the
/// same fit in the tally's counters.
pub proof fn lemma_tally_order_free(a: Seq<Die>, b: Seq<Die>)
    requires
        a.to_multiset() == b.to_multiset(),
    ensures
        tens(a) == tens(b),
        hunger_tens(a) == hunger_tens(b),
        hunger_ones(a) == hunger_ones(b),
        plain_successes(a) == plain_successes(b),
        total_successes(a) == total_successes(b),
        tally_fits(a) == tally_fits(b),
{
    lemma_count_order_free(a, b, |d: Die| is_ten(d));
    lemma_count_order_free(a, b, |d: Die| is_hunger_ten(d));
    lemma_count_order_free(a, b, |d: Die| is_hunger_one(d));
    lemma_count_order_free(a, b, |d: Die| is_plain_success(d));
}

/// Converts a roll into a tally: successes (6+ counts one, every pair of
/// tens adds two), critical pairs, and the critical, messy-critical and
/// hunger-one flags. The counts must fit the tally's `u8` fields.
pub fn interpret(result: &RollResult) -> (t: Tally)
    requires
        tally_fits(result.dice@),
    ensures
        t.crit_pairs == tens(result.dice@) / 2,
        t.successes == total_successes(result.dice@),
        t.is_critical == (tens(result.dice@) >= 2),
        t.is_messy_critical == (tens(result.dice@) >= 2 && hunger_tens(result.dice@) >= 1),
        t.has_hunger_one == (hunger_ones(result.dice@) > 0),
{
    let ghost s = result.dice@;
    let mut tens_n: u8 = 0;
    let mut hunger_tens_n: u8 = 0;
    let mut hunger_ones_n: u8 = 0;
    let mut nontens_six_plus: u8 = 0;
    let mut i: usize = 0;
    while i < result.dice.len()
        invariant
            i <= s.len(),
            s == result.dice@,
            tally_fits(s),
            tens_n == tens(s.take(i as int)),
            hunger_tens_n == hunger_tens(s.take(i as int)),
            hunger_ones_n == hunger_ones(s.take(i as int)),
            nontens_six_plus == plain_successes(s.take(i as int)),
            hunger_tens_n <= tens_n,
        decreases s.len() - i,
    {
        let d = result.dice[i];
        proof {
            lemma_count_step(s, i as int, |d: Die| is_ten(d));
            lemma_count_step(s, i as int, |d: Die| is_hunger_ten(d));
            lemma_count_step(s, i as int, |d: Die| is_hunger_one(d));
            lemma_count_step(s, i as int, |d: Die| is_plain_success(d));
            lemma_count_prefix(s, i + 1, |d: Die| is_ten(d));
            lemma_count_prefix(s, i + 1, |d: Die| is_hunger_one(d));
            lemma_count_prefix(s, i + 1, |d: Die| is_plain_success(d));
        }
        if d.value == 10 {
            tens_n += 1;
            if d.kind == DieKind::Hunger {
                hunger_tens_n += 1;
            }
        } else if d.value >= 6 {
            nontens_six_plus += 1;
        }
        if d.kind == DieKind::Hunger && d.value == 1 {
            hunger_ones_n += 1;
        }
        i += 1;
    }
    assert(s.take(s.len() as int) =~= s);
    let crit_pairs = tens_n / 2;
    let successes = nontens_six_plus + tens_n + crit_pairs * 2;
    let is_critical = crit_pairs >= 1;
    let is_messy_critical = is_critical && hunger_tens_n >= 1;
    Tally {
        successes,
        crit_pairs,
        is_critical,
        is_messy_critical,
        has_hunger_one: hunger_ones_n > 0,
    }
}

} // verus!
