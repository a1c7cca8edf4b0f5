//! The harness orchestrator's decision logic.
//!
//! The orchestrator opens one connection per worker, runs every worker to
//! completion, and folds their tallies into the global report. Opening
//! connections, spawning, and the clock are transport work outside this
//! crate; what is modelled here is everything the orchestrator decides from
//! plain values: one pump run per connection, over whatever outcome order
//! the remote produced, and the final aggregation.

use vstd::prelude::*;

use crate::config::Config;
use crate::pump::{
    count_true, lemma_count_true_all_failure, lemma_count_true_all_success, PumpState,
};
use crate::report::{global_report, Report};
use crate::tally::{sum_tallies, Tally};

verus! {

/// The total success count over all connections: the sum of each
/// connection's successful outcomes.
pub open spec fn total_successes(outs: Seq<Vec<bool>>) -> int
    decreases outs.len(),
{
    if outs.len() == 0 {
        0
    } else {
        total_successes(outs.drop_last()) + count_true(outs.last()@)
    }
}

/// Run one worker per outcome sequence: worker `i` pumps `messages`
/// requests and observes `outcomes[i]` as its completion order. Returns the
/// per-connection tallies, each accounting for exactly `messages` requests.
pub fn run_workers(concurrency: usize, messages: usize, outcomes: &Vec<Vec<bool>>) -> (ts: Vec<
    Tally,
>)
    requires
        1 <= concurrency,
        1 <= messages,
        forall|i: int| 0 <= i < outcomes@.len() ==> #[trigger] outcomes@[i]@.len() == messages,
    ensures
        ts@.len() == outcomes@.len(),
        forall|i: int|
            0 <= i < ts@.len() ==> #[trigger] ts@[i].ok == count_true(outcomes@[i]@),
        forall|i: int|
            0 <= i < ts@.len() ==> #[trigger] ts@[i].fail == messages - count_true(outcomes@[i]@),
        forall|i: int| 0 <= i < ts@.len() ==> #[trigger] ts@[i].ok + ts@[i].fail == messages,
{
    let mut tallies: Vec<Tally> = Vec::new();
    let mut i: usize = 0;
    while i < outcomes.len()
        invariant
            0 <= i <= outcomes@.len(),
            1 <= concurrency,
            1 <= messages,
            forall|j: int| 0 <= j < outcomes@.len() ==> #[trigger] outcomes@[j]@.len() == messages,
            tallies@.len() == i,
            forall|j: int|
                0 <= j < i ==> #[trigger] tallies@[j].ok == count_true(outcomes@[j]@),
            forall|j: int|
                0 <= j < i ==> #[trigger] tallies@[j].fail == messages - count_true(
                    outcomes@[j]@,
                ),
            forall|j: int| 0 <= j < i ==> #[trigger] tallies@[j].ok + tallies@[j].fail == messages,
        decreases outcomes@.len() - i,
    {
        let t = PumpState::run(concurrency, messages, &outcomes[i]);
        tallies.push(t);
        i = i + 1;
    }
    tallies
}

/// The whole run, from resolved configuration to global report: one pump
/// run per connection over the outcome order the remote produced for it,
/// then the fold into the final report. The report accounts for exactly
/// `connections * messages` requests, and its split is exactly the number
/// of successful outcomes against the rest.
pub fn run_benchmark(config: &Config, outcomes: &Vec<Vec<bool>>, elapsed_ms: u128) -> (r: Report)
    requires
        config.valid(),
        outcomes@.len() == config.connections,
        forall|i: int|
            0 <= i < outcomes@.len() ==> #[trigger] outcomes@[i]@.len() == config.messages,
        config.connections * config.messages <= usize::MAX,
    ensures
        r.elapsed_ms == elapsed_ms,
        r.total == config.connections * config.messages,
        r.ok == total_successes(outcomes@),
        r.fail == r.total - total_successes(outcomes@),
        r.ok + r.fail == r.total,
{
    let tallies = run_workers(config.concurrency, config.messages, outcomes);
    proof {
        lemma_sum_tallies_components(tallies@, outcomes@, config.messages as int);
    }
    global_report(elapsed_ms, config.connections, config.messages, &tallies)
}

/// When each tally's counts match its connection's outcomes, the aggregate
/// success count is the total success count over all connections, and the
/// aggregate failure count is the rest of the `len * m` requests.
proof fn lemma_sum_tallies_components(ts: Seq<Tally>, outs: Seq<Vec<bool>>, m: int)
    requires
        ts.len() == outs.len(),
        forall|i: int| 0 <= i < outs.len() ==> #[trigger] outs[i]@.len() == m,
        forall|i: int| 0 <= i < ts.len() ==> #[trigger] ts[i].ok == count_true(outs[i]@),
        forall|i: int| 0 <= i < ts.len() ==> #[trigger] ts[i].fail == m - count_true(outs[i]@),
    ensures
        sum_tallies(ts).0 == total_successes(outs),
        sum_tallies(ts).1 == ts.len() * m - total_successes(outs),
    decreases ts.len(),
{
    if ts.len() == 0 {
        assert(ts.len() * m == 0) by (nonlinear_arith)
            requires
                ts.len() == 0,
        ;
    } else {
        let tp = ts.drop_last();
        let op = outs.drop_last();
        assert(forall|i: int| 0 <= i < op.len() ==> #[trigger] op[i]@.len() == m);
        assert(forall|i: int| 0 <= i < tp.len() ==> #[trigger] tp[i].ok == count_true(op[i]@));
        assert(forall|i: int|
            0 <= i < tp.len() ==> #[trigger] tp[i].fail == m - count_true(op[i]@));
        lemma_sum_tallies_components(tp, op, m);
        assert((ts.len() - 1) * m + m == ts.len() * m) by (nonlinear_arith);
    }
}

/// If the remote always succeeds, the total success count is every request
/// of the run, so every worker's failure count — and the aggregate's — is
/// zero.
pub proof fn lemma_total_successes_all_success(outs: Seq<Vec<bool>>, m: int)
    requires
        forall|i: int| 0 <= i < outs.len() ==> #[trigger] outs[i]@.len() == m,
        forall|i: int, k: int| 0 <= i < outs.len() && 0 <= k < outs[i]@.len() ==> outs[i]@[k],
    ensures
        total_successes(outs) == outs.len() * m,
    decreases outs.len(),
{
    if outs.len() == 0 {
        assert(outs.len() * m == 0) by (nonlinear_arith)
            requires
                outs.len() == 0,
        ;
    } else {
        let op = outs.drop_last();
        assert(forall|i: int| 0 <= i < op.len() ==> #[trigger] op[i]@.len() == m);
        assert(forall|i: int, k: int|
            0 <= i < op.len() && 0 <= k < op[i]@.len() ==> op[i]@[k]) by {
            assert(forall|i: int| 0 <= i < op.len() ==> op[i] == outs[i]);
        }
        lemma_total_successes_all_success(op, m);
        assert(forall|k: int| 0 <= k < outs.last()@.len() ==> outs.last()@[k]) by {
            assert(outs.last() == outs[outs.len() - 1]);
        }
        lemma_count_true_all_success(outs.last()@);
        assert((outs.len() - 1) * m + m == outs.len() * m) by (nonlinear_arith);
    }
}

/// If the remote always fails, the total success count is zero, so every
/// worker's success count — and the aggregate's — is zero.
pub proof fn lemma_total_successes_all_failure(outs: Seq<Vec<bool>>)
    requires
        forall|i: int, k: int| 0 <= i < outs.len() && 0 <= k < outs[i]@.len() ==> !outs[i]@[k],
    ensures
        total_successes(outs) == 0,
    decreases outs.len(),
{
    if outs.len() > 0 {
        let op = outs.drop_last();
        assert(forall|i: int, k: int|
            0 <= i < op.len() && 0 <= k < op[i]@.len() ==> !op[i]@[k]) by {
            assert(forall|i: int| 0 <= i < op.len() ==> op[i] == outs[i]);
        }
        lemma_total_successes_all_failure(op);
        assert(forall|k: int| 0 <= k < outs.last()@.len() ==> !outs.last()@[k]) by {
            assert(outs.last() == outs[outs.len() - 1]);
        }
        lemma_count_true_all_failure(outs.last()@);
    }
}

} // verus!
