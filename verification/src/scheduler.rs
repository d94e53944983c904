//! The settlement scheduler's per-entity state machine.
//!
//! Every box and every miner gets one timer entry at creation, armed
//! with a delay equal to the entity's lifetime. Exactly one fire event
//! moves an entry from armed to fired and hands control to the
//! settlement routine; when the routine returns — success or failure,
//! failures are reported, not retried — the entry completes. Entries
//! only ever move forward, so a settlement routine runs at most once
//! per entity. Armed timers are not durable: a restart loses them.

use vstd::prelude::*;

verus! {

/// The phase of one entity's settlement timer.
#[derive(Clone, Copy, Debug, PartialEq, Eq, Structural)]
pub enum TimerPhase {
    /// Counting down; the settlement has not run.
    Armed,
    /// The one fire event happened; the settlement routine is running.
    Fired,
    /// The settlement routine returned; nothing will run again.
    Completed,
}

/// The one-shot timer entry of a box or a miner.
pub struct SettlementTimer {
    /// The handle of the entity this entry settles.
    pub entity_id: String,
    /// When the entry fires, in nanoseconds.
    pub fires_at: u64,
    pub phase: TimerPhase,
}

impl SettlementTimer {
    /// Arms the one-shot entry for an entity at creation time.
    pub fn arm(entity_id: String, fires_at: u64) -> (t: Self)
        ensures
            t.entity_id == entity_id,
            t.fires_at == fires_at,
            t.phase == TimerPhase::Armed,
    {
        SettlementTimer { entity_id, fires_at, phase: TimerPhase::Armed }
    }

    /// The one fire event: only an armed entry can fire, so the
    /// settlement routine is invoked at most once per entity.
    pub fn fire(&mut self)
        requires
            old(self).phase == TimerPhase::Armed,
        ensures
            final(self).phase == TimerPhase::Fired,
            final(self).entity_id == old(self).entity_id,
            final(self).fires_at == old(self).fires_at,
    {
        self.phase = TimerPhase::Fired;
    }

    /// The settlement routine returned; the entry is spent for good.
    pub fn complete(&mut self)
        requires
            old(self).phase == TimerPhase::Fired,
        ensures
            final(self).phase == TimerPhase::Completed,
            final(self).entity_id == old(self).entity_id,
            final(self).fires_at == old(self).fires_at,
    {
        self.phase = TimerPhase::Completed;
    }
}

} // verus!
