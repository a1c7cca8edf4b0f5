//! The global report the orchestrator produces after every worker returns.
//!
//! The report is computed once, from plain values: the measured elapsed
//! time, the configuration, and the per-connection tallies. Its request
//! count is exactly `connections * messages`, and its success/failure split
//! is the aggregate of the workers' tallies.

use vstd::prelude::*;

use crate::tally::{
    fold_tallies, lemma_sum_tallies_complete, lemma_sum_tallies_take_mono, sum_tallies, Tally,
};

verus! {

/// The one externally observable result of a completed run.
#[derive(Clone, Copy, PartialEq, Eq, Structural, Debug)]
pub struct Report {
    /// Wall-clock time from just before the workers started to just after
    /// the last one returned, in milliseconds.
    pub elapsed_ms: u128,
    /// Total requests issued over the whole run.
    pub total: usize,
    /// Requests that completed successfully, over all connections.
    pub ok: usize,
    /// Requests that completed with an error, over all connections.
    pub fail: usize,
}

/// The total request count of a run: `connections * messages`, or `None`
/// where that product does not fit the machine word.
pub fn total_requests(connections: usize, messages: usize) -> (r: Option<usize>)
    ensures
        r is Some <==> connections * messages <= usize::MAX,
        r matches Some(t) ==> t == connections * messages,
{
    connections.checked_mul(messages)
}

/// Build the global report from the measured elapsed time, the run's
/// dimensions and the per-connection tallies. Each worker's tally must
/// account for exactly `messages` requests (the pump guarantees it does),
/// so the report's split accounts for exactly `connections * messages`.
pub fn global_report(
    elapsed_ms: u128,
    connections: usize,
    messages: usize,
    tallies: &Vec<Tally>,
) -> (r: Report)
    requires
        1 <= connections,
        1 <= messages,
        tallies@.len() == connections,
        forall|i: int|
            0 <= i < tallies@.len() ==> #[trigger] tallies@[i].ok + tallies@[i].fail == messages,
        connections * messages <= usize::MAX,
    ensures
        r.elapsed_ms == elapsed_ms,
        r.total == connections * messages,
        r.ok == sum_tallies(tallies@).0,
        r.fail == sum_tallies(tallies@).1,
        r.ok + r.fail == r.total,
{
    proof {
        lemma_sum_tallies_complete(tallies@, messages as int);
        lemma_sum_tallies_take_mono(tallies@, tallies@.len() as int, tallies@.len() as int);
        assert(tallies@.take(tallies@.len() as int) =~= tallies@);
    }
    let summed = fold_tallies(tallies);
    let total: usize = connections * messages;
    Report { elapsed_ms, total, ok: summed.ok, fail: summed.fail }
}

} // verus!
