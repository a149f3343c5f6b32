//! Tick bookkeeping of the client's prediction: how far the locally
//! predicted simulation runs ahead of the last tick the server confirmed, and
//! when the prediction must be dropped.
use vstd::prelude::*;

verus! {

/// A prediction further ahead of the server than this many ticks is dropped.
pub const MAX_PREDICTION_LEAD: u32 = 20;

/// The ticks of a prediction: the last one the server confirmed and the one
/// the local simulation has reached.
#[derive(Debug, Clone, Copy, PartialEq, Eq, Structural)]
pub struct PredictionTicks {
    pub last_reconciled_tick: u32,
    pub predicted_tick: u32,
}

impl PredictionTicks {
    /// The ticks after the server confirmed `server_tick`, and whether the
    /// prediction is kept.
    pub open spec fn reconciled(self, server_tick: u32) -> (PredictionTicks, bool) {
        if server_tick < self.predicted_tick && self.predicted_tick - server_tick <= MAX_PREDICTION_LEAD {
            (PredictionTicks { last_reconciled_tick: server_tick, ..self }, true)
        } else {
            (PredictionTicks { last_reconciled_tick: server_tick, predicted_tick: server_tick }, false)
        }
    }

    /// No prediction yet.
    pub fn new() -> (r: Self)
        ensures
            r.last_reconciled_tick == 0 && r.predicted_tick == 0,
    {
        PredictionTicks { last_reconciled_tick: 0, predicted_tick: 0 }
    }

    /// A prediction starting from the server's snapshot at `tick`.
    pub fn start(&mut self, tick: u32)
        ensures
            final(self).last_reconciled_tick == tick && final(self).predicted_tick == tick,
    {
        self.last_reconciled_tick = tick;
        self.predicted_tick = tick;
    }

    /// The local simulation advanced one tick.
    pub fn advance(&mut self)
        requires
            old(self).predicted_tick < u32::MAX,
        ensures
            final(self).predicted_tick == old(self).predicted_tick + 1,
            final(self).last_reconciled_tick == old(self).last_reconciled_tick,
    {
        self.predicted_tick = self.predicted_tick + 1;
    }

    /// The server confirmed `server_tick`. Returns whether the prediction is
    /// kept: it is dropped (and both ticks set to the server's) when the
    /// server has caught up with it, or when it runs more than
    /// `MAX_PREDICTION_LEAD` ticks ahead; otherwise only the confirmed tick
    /// moves.
    pub fn reconcile(&mut self, server_tick: u32) -> (keep: bool)
        ensures
            (*final(self), keep) == old(self).reconciled(server_tick),
    {
        if server_tick >= self.predicted_tick {
            self.last_reconciled_tick = server_tick;
            self.predicted_tick = server_tick;
            return false;
        }
        let lead = self.predicted_tick - server_tick;
        if lead > MAX_PREDICTION_LEAD {
            self.last_reconciled_tick = server_tick;
            self.predicted_tick = server_tick;
            false
        } else {
            self.last_reconciled_tick = server_tick;
            true
        }
    }
}

/// After any reconciliation the prediction is never behind the server and
/// never more than `MAX_PREDICTION_LEAD` ticks ahead of it; a dropped
/// prediction restarts exactly at the server's tick.
pub proof fn lemma_reconciled_lead_is_bounded(ticks: PredictionTicks, server_tick: u32)
    ensures
        ({
            let (t, keep) = ticks.reconciled(server_tick);
            &&& t.last_reconciled_tick == server_tick
            &&& t.last_reconciled_tick <= t.predicted_tick
            &&& t.predicted_tick - t.last_reconciled_tick <= MAX_PREDICTION_LEAD
            &&& !keep ==> t.predicted_tick == server_tick
        }),
{
}

} // verus!
