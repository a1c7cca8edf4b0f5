//! Per-connection success/failure tallies and their aggregation.
//!
//! A worker returns one `Tally`; the orchestrator folds all of them into a
//! single pair of counts. The fold is a plain componentwise sum, so it is
//! commutative and associative: the order in which workers finish never
//! changes the aggregate.

use vstd::prelude::*;
use vstd::seq_lib::{commutative_foldl, lemma_fold_left_permutation};

verus! {

/// The success/failure count pair for one connection (or for the whole run,
/// once the per-connection tallies have been summed).
#[derive(Clone, Copy, PartialEq, Eq, Structural, Debug)]
pub struct Tally {
    pub ok: usize,
    pub fail: usize,
}

impl Tally {
    /// A fresh tally with nothing recorded yet.
    pub fn new() -> (t: Tally)
        ensures
            t.ok == 0,
            t.fail == 0,
    {
        Tally { ok: 0, fail: 0 }
    }

    /// Componentwise sum of two tallies.
    pub fn add(&self, other: &Tally) -> (t: Tally)
        requires
            self.ok + other.ok <= usize::MAX,
            self.fail + other.fail <= usize::MAX,
        ensures
            t.ok == self.ok + other.ok,
            t.fail == self.fail + other.fail,
    {
        Tally { ok: self.ok + other.ok, fail: self.fail + other.fail }
    }
}

/// One step of the aggregate sum: fold a tally into an accumulated
/// (successes, failures) pair.
pub open spec fn tally_acc(acc: (int, int), t: Tally) -> (int, int) {
    (acc.0 + t.ok, acc.1 + t.fail)
}

/// The fold step as a function value, so that every statement about the
/// aggregate sum speaks of one and the same function.
pub open spec fn tally_fold_fn() -> spec_fn((int, int), Tally) -> (int, int) {
    (|acc: (int, int), t: Tally| tally_acc(acc, t))
}

/// The aggregate (successes, failures) of a sequence of tallies.
pub open spec fn sum_tallies(s: Seq<Tally>) -> (int, int) {
    s.fold_left((0int, 0int), tally_fold_fn())
}

/// Folding one more tally onto a prefix extends the prefix sum by one step.
pub proof fn lemma_sum_tallies_take_step(s: Seq<Tally>, i: int)
    requires
        0 <= i < s.len(),
    ensures
        sum_tallies(s.take(i + 1)) == tally_acc(sum_tallies(s.take(i)), s[i]),
{
    assert(s.take(i + 1).drop_last() =~= s.take(i));
    assert(s.take(i + 1).last() == s[i]);
}

/// The aggregate of the whole sequence is the aggregate of its full prefix.
pub proof fn lemma_sum_tallies_all(s: Seq<Tally>)
    ensures
        sum_tallies(s.take(s.len() as int)) == sum_tallies(s),
{
    assert(s.take(s.len() as int) =~= s);
}

/// Summing tallies is order-independent: two sequences that hold the same
/// tallies (as a multiset, i.e. up to a shuffle of worker completion order)
/// have the same aggregate sum.
pub proof fn lemma_sum_tallies_permutation(s1: Seq<Tally>, s2: Seq<Tally>)
    requires
        s1.to_multiset() == s2.to_multiset(),
    ensures
        sum_tallies(s1) == sum_tallies(s2),
{
    assert(commutative_foldl(tally_fold_fn()));
    lemma_fold_left_permutation(s1, s2, tally_fold_fn(), (0int, 0int));
}

/// The fold step is commutative: folding `a` then `b` onto an accumulator
/// gives the same pair as folding `b` then `a`.
pub proof fn lemma_tally_acc_commutes(acc: (int, int), a: Tally, b: Tally)
    ensures
        tally_acc(tally_acc(acc, a), b) == tally_acc(tally_acc(acc, b), a),
{
}

/// The fold step is associative: folding `a` and then `b` onto an
/// accumulator adds their combined counts in one step, however the
/// additions are grouped.
pub proof fn lemma_tally_acc_associates(acc: (int, int), a: Tally, b: Tally)
    ensures
        tally_acc(tally_acc(acc, a), b) == (acc.0 + (a.ok + b.ok), acc.1 + (a.fail + b.fail)),
{
}

/// Both components of a prefix sum grow with the prefix, and start at zero:
/// the aggregate of a longer prefix dominates that of a shorter one.
pub proof fn lemma_sum_tallies_take_mono(s: Seq<Tally>, i: int, j: int)
    requires
        0 <= i <= j <= s.len(),
    ensures
        0 <= sum_tallies(s.take(i)).0 <= sum_tallies(s.take(j)).0,
        0 <= sum_tallies(s.take(i)).1 <= sum_tallies(s.take(j)).1,
    decreases j,
{
    if j == 0 {
        assert(s.take(0) =~= Seq::<Tally>::empty());
    } else if i == j {
        lemma_sum_tallies_take_mono(s, i - 1, j - 1);
        lemma_sum_tallies_take_step(s, j - 1);
    } else {
        lemma_sum_tallies_take_mono(s, i, j - 1);
        lemma_sum_tallies_take_step(s, j - 1);
    }
}

/// When every tally in the sequence accounts for exactly `m` requests, the
/// aggregate accounts for `len * m` requests.
pub proof fn lemma_sum_tallies_complete(s: Seq<Tally>, m: int)
    requires
        forall|i: int| 0 <= i < s.len() ==> #[trigger] s[i].ok + s[i].fail == m,
    ensures
        sum_tallies(s).0 + sum_tallies(s).1 == s.len() * m,
    decreases s.len(),
{
    if s.len() == 0 {
        assert(s.len() * m == 0) by (nonlinear_arith)
            requires
                s.len() == 0,
        ;
    } else {
        let prefix = s.drop_last();
        assert(forall|i: int|
            0 <= i < prefix.len() ==> #[trigger] prefix[i].ok + prefix[i].fail == m);
        lemma_sum_tallies_complete(prefix, m);
        assert(sum_tallies(s) == tally_acc(sum_tallies(prefix), s.last()));
        assert((s.len() - 1) * m + m == s.len() * m) by (nonlinear_arith);
    }
}

/// Fold a vector of per-connection tallies into the aggregate tally.
pub fn fold_tallies(ts: &Vec<Tally>) -> (t: Tally)
    requires
        sum_tallies(ts@).0 <= usize::MAX,
        sum_tallies(ts@).1 <= usize::MAX,
    ensures
        t.ok == sum_tallies(ts@).0,
        t.fail == sum_tallies(ts@).1,
{
    let ghost all = ts@;
    let mut acc = Tally::new();
    let mut i: usize = 0;
    assert(all.take(0) =~= Seq::<Tally>::empty());
    while i < ts.len()
        invariant
            0 <= i <= ts@.len(),
            ts@ == all,
            acc.ok == sum_tallies(all.take(i as int)).0,
            acc.fail == sum_tallies(all.take(i as int)).1,
            sum_tallies(all).0 <= usize::MAX,
            sum_tallies(all).1 <= usize::MAX,
        decreases ts@.len() - i,
    {
        proof {
            lemma_sum_tallies_take_step(all, i as int);
            lemma_sum_tallies_take_mono(all, i + 1, all.len() as int);
            lemma_sum_tallies_all(all);
        }
        acc = acc.add(&ts[i]);
        i = i + 1;
    }
    proof {
        lemma_sum_tallies_all(all);
    }
    acc
}

} // verus!
