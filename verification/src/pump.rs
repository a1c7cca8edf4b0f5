//! The bounded-concurrency request pump for one connection.
//!
//! `PumpState` is the controller's bookkeeping: how many requests have been
//! issued so far, how many are still in flight, and the running tally. The
//! controller ramps up to `min(concurrency, messages)` outstanding requests,
//! then replaces each completed request with a new one until exactly
//! `messages` requests have been issued, and finally drains the window.
//!
//! The asynchronous waiting itself (racing the outstanding requests for the
//! first completion) is transport work and happens outside this crate; each
//! completion is reported here through `record_completion`, which keeps the
//! window invariant and the tally exact whatever order completions arrive in.

use vstd::prelude::*;
use vstd::math::min;

use crate::tally::Tally;

verus! {

/// How many of the outcomes in `s` are successes.
pub open spec fn count_true(s: Seq<bool>) -> int
    decreases s.len(),
{
    if s.len() == 0 {
        0
    } else {
        count_true(s.drop_last()) + if s.last() {
            1int
        } else {
            0int
        }
    }
}

/// The success count never exceeds the number of outcomes, and is never
/// negative.
pub proof fn lemma_count_true_bounds(s: Seq<bool>)
    ensures
        0 <= count_true(s) <= s.len(),
    decreases s.len(),
{
    if s.len() > 0 {
        lemma_count_true_bounds(s.drop_last());
    }
}

/// Extending a prefix of outcomes by one more outcome adds one success or
/// one failure to its counts.
pub proof fn lemma_count_true_take_step(s: Seq<bool>, i: int)
    requires
        0 <= i < s.len(),
    ensures
        count_true(s.take(i + 1)) == count_true(s.take(i)) + if s[i] {
            1int
        } else {
            0int
        },
{
    assert(s.take(i + 1).drop_last() =~= s.take(i));
    assert(s.take(i + 1).last() == s[i]);
}

/// When every outcome is a success, the success count is the whole length:
/// an always-succeeding remote leaves no room for failures.
pub proof fn lemma_count_true_all_success(s: Seq<bool>)
    requires
        forall|i: int| 0 <= i < s.len() ==> s[i],
    ensures
        count_true(s) == s.len(),
    decreases s.len(),
{
    if s.len() > 0 {
        lemma_count_true_all_success(s.drop_last());
    }
}

/// When every outcome is a failure, the success count is zero: an
/// always-failing remote yields only failures.
pub proof fn lemma_count_true_all_failure(s: Seq<bool>)
    requires
        forall|i: int| 0 <= i < s.len() ==> !s[i],
    ensures
        count_true(s) == 0,
    decreases s.len(),
{
    if s.len() > 0 {
        lemma_count_true_all_failure(s.drop_last());
    }
}

/// The controller state for one connection's request pump.
#[derive(Clone, Copy, PartialEq, Eq, Structural, Debug)]
pub struct PumpState {
    /// Requests to keep in flight at once (the window bound).
    pub concurrency: usize,
    /// Total requests this connection must issue.
    pub messages: usize,
    /// Requests issued so far (never exceeds `messages`).
    pub issued: usize,
    /// Requests issued but not yet completed: the window's current size.
    pub in_flight: usize,
    /// Outcomes recorded so far.
    pub tally: Tally,
}

impl PumpState {
    /// How many requests have completed (successfully or not).
    pub open spec fn completed(self) -> int {
        self.tally.ok + self.tally.fail
    }

    /// The controller's invariant. Besides the bookkeeping identities, the
    /// heart of it is the window law: the pump has always issued as many
    /// requests as the quota and the window bound allow, so the window holds
    /// exactly `min(concurrency, messages - completed)` requests.
    pub open spec fn wf(self) -> bool {
        &&& 1 <= self.concurrency
        &&& 1 <= self.messages
        &&& self.completed() <= self.issued <= self.messages
        &&& self.issued == min(self.messages as int, self.completed() + self.concurrency)
        &&& self.in_flight == self.issued - self.completed()
    }

    /// The window size the invariant forces: full (`concurrency`) until the
    /// remaining quota is smaller than the window bound, then shrinking.
    pub open spec fn window_target(self) -> int {
        min(self.concurrency as int, self.messages - self.completed())
    }

    /// Ramp-up: issue `min(concurrency, messages)` requests at once. The
    /// caller starts that many real requests; this records them all as
    /// issued and in flight, with nothing completed yet.
    pub fn new(concurrency: usize, messages: usize) -> (s: PumpState)
        requires
            1 <= concurrency,
            1 <= messages,
        ensures
            s.wf(),
            s.concurrency == concurrency,
            s.messages == messages,
            s.issued == min(concurrency as int, messages as int),
            s.in_flight == s.issued,
            s.tally.ok == 0,
            s.tally.fail == 0,
    {
        let initial: usize = if concurrency < messages {
            concurrency
        } else {
            messages
        };
        PumpState {
            concurrency,
            messages,
            issued: initial,
            in_flight: initial,
            tally: Tally::new(),
        }
    }

    /// Whether the run is over: every request of the quota has completed.
    /// Under the invariant this is exactly when the window is empty.
    pub fn is_done(&self) -> (r: bool)
        requires
            self.wf(),
        ensures
            r == (self.completed() == self.messages),
            r == (self.in_flight == 0),
    {
        self.in_flight == 0
    }

    /// One pump step: record the outcome of the completed request that the
    /// caller just raced out of the window, and, if the quota is not yet
    /// exhausted, issue exactly one replacement request (the caller starts
    /// the real request when `s.issued` grew). A failure frees its slot just
    /// like a success, so the pump never stalls on a failing remote.
    pub fn record_completion(&mut self, success: bool)
        requires
            old(self).wf(),
            old(self).in_flight > 0,
        ensures
            final(self).wf(),
            final(self).concurrency == old(self).concurrency,
            final(self).messages == old(self).messages,
            final(self).tally.ok == old(self).tally.ok + if success {
                1int
            } else {
                0int
            },
            final(self).tally.fail == old(self).tally.fail + if success {
                0int
            } else {
                1int
            },
            final(self).issued == if old(self).issued < old(self).messages {
                old(self).issued + 1
            } else {
                old(self).issued as int
            },
            final(self).in_flight == final(self).window_target(),
    {
        if success {
            self.tally.ok = self.tally.ok + 1;
        } else {
            self.tally.fail = self.tally.fail + 1;
        }
        self.in_flight = self.in_flight - 1;
        if self.issued < self.messages {
            self.issued = self.issued + 1;
            self.in_flight = self.in_flight + 1;
        }
    }

    /// The window law, spelled out: under the invariant the window never
    /// exceeds the `concurrency` bound, sits exactly at the bound during
    /// steady state (while at least `concurrency` requests of the quota are
    /// still uncompleted), shrinks only during ramp-down, and is empty
    /// exactly when the whole quota has completed.
    pub proof fn lemma_window_invariant(self)
        requires
            self.wf(),
        ensures
            self.in_flight == self.window_target(),
            self.in_flight <= self.concurrency,
            self.completed() + self.concurrency <= self.messages ==> self.in_flight
                == self.concurrency,
            self.completed() + self.concurrency > self.messages ==> self.in_flight
                == self.messages - self.completed(),
            (self.in_flight == 0) <==> (self.completed() == self.messages),
    {
    }

    /// A finished pump accounts for every request of the quota: successes
    /// and failures add up to exactly `messages`.
    pub proof fn lemma_done_accounts_quota(self)
        requires
            self.wf(),
            self.in_flight == 0,
        ensures
            self.tally.ok + self.tally.fail == self.messages,
    {
    }

    /// Run the whole pump against a given arrival order of outcomes:
    /// `outcomes[k]` is the outcome of the `k`-th request *to complete*
    /// (completions need not follow issue order). The pump terminates after
    /// exactly `messages` completions — failures free their slot just like
    /// successes — and its tally counts every outcome exactly once.
    pub fn run(concurrency: usize, messages: usize, outcomes: &Vec<bool>) -> (t: Tally)
        requires
            1 <= concurrency,
            1 <= messages,
            outcomes@.len() == messages,
        ensures
            t.ok == count_true(outcomes@),
            t.fail == messages - count_true(outcomes@),
            t.ok + t.fail == messages,
    {
        let mut state = PumpState::new(concurrency, messages);
        assert(outcomes@.take(0) =~= Seq::<bool>::empty());
        while !state.is_done()
            invariant
                state.wf(),
                state.concurrency == concurrency,
                state.messages == messages,
                outcomes@.len() == messages,
                state.tally.ok == count_true(outcomes@.take(state.completed())),
                state.tally.fail == state.completed() - state.tally.ok,
            decreases messages - state.completed(),
        {
            let ghost done_before = state.completed();
            let k: usize = state.tally.ok + state.tally.fail;
            let success = outcomes[k];
            proof {
                lemma_count_true_take_step(outcomes@, done_before);
            }
            state.record_completion(success);
        }
        proof {
            assert(outcomes@.take(state.completed()) =~= outcomes@);
            lemma_count_true_bounds(outcomes@);
        }
        state.tally
    }
}

} // verus!
