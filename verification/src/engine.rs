use vstd::prelude::*;
use crate::config::Config;
use crate::funding::spec_all_confirmed;
use crate::sched::Batch;

verus! {

/// Where the engine stands: funding not yet settled, the unbounded spam
/// phase, or startup aborted after a funding failure.
#[derive(Clone, Copy, Debug, PartialEq, Eq, Structural)]
pub enum Phase {
    AwaitingFunding,
    Running,
    Aborted,
}

/// The phase that follows the funding fan-in: the spam phase starts only on
/// full success; any failure aborts startup.
pub open spec fn spec_phase_after_funding(ok: bool) -> Phase {
    if ok {
        Phase::Running
    } else {
        Phase::Aborted
    }
}

/// The top-level state machine. Every funding transfer must be observed as
/// accepted before the spam phase begins; once it has begun, the engine stays
/// in `Running` forever — no event leads out of it.
pub struct Engine {
    pub cfg: Config,
    pub phase: Phase,
}

impl Engine {
    pub fn new(cfg: Config) -> (e: Engine)
        requires
            cfg.wf(),
        ensures
            e.cfg == cfg,
            e.phase == Phase::AwaitingFunding,
    {
        Engine { cfg, phase: Phase::AwaitingFunding }
    }

    /// Consumes the funding phase's one aggregated confirmation result.
    pub fn on_funding_result(&mut self, ok: bool)
        requires
            old(self).phase == Phase::AwaitingFunding,
        ensures
            final(self).cfg == old(self).cfg,
            final(self).phase == spec_phase_after_funding(ok),
    {
        self.phase = if ok {
            Phase::Running
        } else {
            Phase::Aborted
        };
    }

    /// Starts one batch tick: draws the batch size uniformly in the
    /// configured `[min, max]` and hands back the batch that walks the
    /// accounts at indices `0 .. size - 1` in order.
    pub fn begin_tick(&self) -> (b: Batch)
        requires
            self.cfg.wf(),
            self.phase == Phase::Running,
        ensures
            b.wf(),
            b.next == 0,
            self.cfg.min <= b.count <= self.cfg.max,
    {
        let size = crate::rng::draw_inclusive(self.cfg.min, self.cfg.max);
        Batch::new(size)
    }
}

/// Law: one failed funding transfer keeps the spam phase from ever starting.
/// If any confirmation result is a failure, the fan-in reports failure and
/// the engine lands in `Aborted` — a phase in which `begin_tick`'s
/// precondition can never hold, so no batch tick is ever begun.
pub proof fn lemma_funding_failure_blocks_spam(results: Seq<bool>, i: int)
    requires
        0 <= i < results.len(),
        !results[i],
    ensures
        !spec_all_confirmed(results),
        spec_phase_after_funding(spec_all_confirmed(results)) == Phase::Aborted,
{
}

} // verus!
