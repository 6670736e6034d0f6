use vstd::prelude::*;
use crate::tx::{TxIntent, spec_spam_intent, spam_intent};

verus! {

/// The scheduler's fixed cadence between batch ticks, in seconds, suited to
/// the target ledger's block time.
pub const TICK_PERIOD_SECS: u64 = 12;

/// The wall-clock driver for the spam scheduler, in the caller's clock units.
/// Missed ticks are coalesced: however late a poll fires, the next deadline is
/// rebased one full period after that poll, never a backlog of catch-up ticks.
#[derive(Clone, Copy, Debug, PartialEq, Eq, Structural)]
pub struct TickTimer {
    pub next_deadline: u64,
    pub period: u64,
}

impl TickTimer {
    pub open spec fn wf(self) -> bool {
        1 <= self.period
    }

    /// Whether a poll at time `now` fires a tick.
    pub open spec fn spec_fires(self, now: u64) -> bool {
        now >= self.next_deadline
    }

    /// The timer after a poll at `now`: a fired tick rebases the next deadline
    /// a full period after `now`; an early poll changes nothing.
    pub open spec fn spec_after_poll(self, now: u64) -> TickTimer {
        if self.spec_fires(now) {
            TickTimer { next_deadline: (now + self.period) as u64, period: self.period }
        } else {
            self
        }
    }

    /// A fresh timer whose first tick is due immediately at `start`.
    pub fn new(start: u64, period: u64) -> (t: TickTimer)
        requires
            1 <= period,
        ensures
            t.wf(),
            t.next_deadline == start,
            t.period == period,
    {
        TickTimer { next_deadline: start, period }
    }

    /// One poll of the timer at time `now`.
    pub fn poll(&mut self, now: u64) -> (fired: bool)
        requires
            old(self).wf(),
            now + old(self).period <= u64::MAX,
        ensures
            final(self).wf(),
            fired == old(self).spec_fires(now),
            *final(self) == old(self).spec_after_poll(now),
    {
        if now >= self.next_deadline {
            self.next_deadline = now + self.period;
            true
        } else {
            false
        }
    }

    /// How long after `now` the next tick is due; zero when already due.
    pub fn remaining(&self, now: u64) -> (d: u64)
        ensures
            d == (if self.spec_fires(now) { 0int } else { self.next_deadline - now }),
    {
        if now >= self.next_deadline {
            0
        } else {
            self.next_deadline - now
        }
    }
}

/// Law: missed ticks are coalesced. When a poll at `now` fires — however many
/// whole periods late it is — no poll strictly before `now + period` fires
/// again: exactly one further tick follows an overrun, not one per missed
/// period.
pub proof fn lemma_missed_ticks_coalesce(t: TickTimer, now: u64, again: u64)
    requires
        t.wf(),
        t.spec_fires(now),
        now + t.period <= u64::MAX,
        again < now + t.period,
    ensures
        !t.spec_after_poll(now).spec_fires(again),
{
}

/// The outcome the dispatcher reports for one send attempt.
#[derive(Clone, Copy, Debug, PartialEq, Eq, Structural)]
pub enum AttemptOutcome {
    Sent,
    NonceFetchFailed,
    SubmitFailed,
}

/// One batch tick's worth of send attempts: it hands out the target account
/// indices `0, 1, ..., count - 1` in that exact order, one per attempt.
#[derive(Clone, Copy, Debug, PartialEq, Eq, Structural)]
pub struct Batch {
    pub count: u8,
    pub next: u8,
}

impl Batch {
    pub open spec fn wf(self) -> bool {
        self.next <= self.count
    }

    /// The batch after one attempt completes: it moves to the next account
    /// index whatever `outcome` the attempt had.
    pub open spec fn spec_step(self, outcome: AttemptOutcome) -> Batch {
        Batch { count: self.count, next: (self.next + 1) as u8 }
    }

    pub fn new(count: u8) -> (b: Batch)
        ensures
            b.wf(),
            b.count == count,
            b.next == 0,
    {
        Batch { count, next: 0 }
    }

    /// The account index the current attempt addresses, or `None` once the
    /// batch is exhausted.
    pub fn current_target(&self) -> (t: Option<u8>)
        requires
            self.wf(),
        ensures
            self.next < self.count ==> t == Some(self.next),
            self.next == self.count ==> t == None::<u8>,
    {
        if self.next < self.count {
            Some(self.next)
        } else {
            None
        }
    }

    /// Records one finished attempt. Failure is isolated at this boundary:
    /// the batch advances identically for every outcome, so a failed attempt
    /// never stalls or shrinks the rest of its batch.
    pub fn complete_attempt(&mut self, outcome: AttemptOutcome)
        requires
            old(self).wf(),
            old(self).next < old(self).count,
        ensures
            final(self).wf(),
            *final(self) == old(self).spec_step(outcome),
    {
        self.next = self.next + 1;
    }

    pub fn finished(&self) -> (r: bool)
        requires
            self.wf(),
        ensures
            r == (self.next == self.count),
    {
        self.next == self.count
    }
}

/// The batch after the attempts in `outcomes` have completed, in order.
pub open spec fn spec_batch_after(count: u8, outcomes: Seq<AttemptOutcome>) -> Batch
    decreases outcomes.len(),
{
    if outcomes.len() == 0 {
        Batch { count, next: 0 }
    } else {
        spec_batch_after(count, outcomes.drop_last()).spec_step(outcomes.last())
    }
}

/// Law: a tick of size `count` addresses exactly the accounts at indices
/// `0 .. count - 1`, in increasing order. After any `k` completed attempts
/// with any outcomes, the batch stands at index `k`, so the next attempt —
/// if one remains — addresses account `k`.
pub proof fn lemma_batch_addressing(count: u8, outcomes: Seq<AttemptOutcome>)
    requires
        outcomes.len() <= count,
    ensures
        spec_batch_after(count, outcomes).count == count,
        spec_batch_after(count, outcomes).next == outcomes.len(),
    decreases outcomes.len(),
{
    if outcomes.len() > 0 {
        lemma_batch_addressing(count, outcomes.drop_last());
    }
}

/// Law: spam-phase faults are isolated. Two attempts that differ only in
/// outcome leave the batch in the same state: the siblings in the tick still
/// run, and later ticks are untouched, since no outcome reaches the timer or
/// the engine phase.
pub proof fn lemma_attempt_fault_isolated(b: Batch, o1: AttemptOutcome, o2: AttemptOutcome)
    ensures
        b.spec_step(o1) == b.spec_step(o2),
{
}

/// Picks the endpoint for one send attempt, uniformly at random over a pool
/// of `n_endpoints` handles.
pub fn pick_endpoint(n_endpoints: usize) -> (i: usize)
    requires
        1 <= n_endpoints,
    ensures
        i < n_endpoints,
{
    crate::rng::draw_index(n_endpoints)
}

/// One send attempt's build step: a freshly fetched sequence counter yields
/// the payload-carrying self-transfer for the addressed account; a failed
/// fetch abandons just this attempt, with nothing built.
pub fn attempt_intent(account: u8, fetched_nonce: Option<u64>, chain_id: u64) -> (t: Option<TxIntent>)
    ensures
        fetched_nonce matches Some(n) ==> t == Some(spec_spam_intent(account, n, chain_id)),
        fetched_nonce is None ==> t == None::<TxIntent>,
{
    match fetched_nonce {
        Some(n) => Some(spam_intent(account, n, chain_id)),
        None => None,
    }
}

} // verus!
