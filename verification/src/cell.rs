//! The per-slot state cell: a register holding the latest controller snapshot.

use vstd::prelude::*;
use crate::gamepad::GamepadState;

verus! {

/// Holder of the most recent [`GamepadState`] for one controller slot.
///
/// The cell is a register, not a queue: a write replaces the stored snapshot
/// outright, so intermediate states may be lost under rapid writes
/// (last-write-wins). One writer context (the application) and one reader
/// context (the protocol engine) share it; within this crate access is by
/// plain `&mut`, and the embedding is responsible for handing out the two
/// sides without overlap. The `fresh` flag marks a snapshot that no read
/// has seen yet.
#[derive(Clone, Copy, PartialEq, Eq, Structural, Debug)]
pub struct StateCell {
    state: GamepadState,
    fresh: bool,
}

impl StateCell {
    /// The stored snapshot, as specifications see it.
    pub closed spec fn spec_state(self) -> GamepadState {
        self.state
    }

    /// Whether the stored snapshot has not yet been read.
    pub closed spec fn spec_fresh(self) -> bool {
        self.fresh
    }

    /// The cell after a write of `s`: the snapshot is replaced and marked fresh.
    pub closed spec fn spec_after_write(self, s: GamepadState) -> StateCell {
        StateCell { state: s, fresh: true }
    }

    /// The cell after a read: the snapshot is untouched, only the mark clears.
    pub closed spec fn spec_after_read(self) -> StateCell {
        StateCell { state: self.state, fresh: false }
    }

    /// A new cell holding the neutral snapshot, with nothing fresh to read.
    pub fn new() -> (c: StateCell)
        ensures
            c.spec_state() == GamepadState::spec_neutral(),
            !c.spec_fresh(),
    {
        StateCell { state: GamepadState::neutral(), fresh: false }
    }

    /// Replaces the stored snapshot. Never blocks, never fails; the previous
    /// snapshot is discarded (last-write-wins).
    pub fn write(&mut self, s: GamepadState)
        ensures
            *final(self) == old(self).spec_after_write(s),
            final(self).spec_state() == s,
            final(self).spec_fresh(),
    {
        self.state = s;
        self.fresh = true;
    }

    /// Returns the most recent snapshot and clears the freshness mark.
    ///
    /// The returned value depends only on the stored snapshot, which the read
    /// leaves untouched: repeated reads with no intervening write return
    /// identical snapshots.
    pub fn read_latest(&mut self) -> (s: GamepadState)
        ensures
            s == old(self).spec_state(),
            *final(self) == old(self).spec_after_read(),
            final(self).spec_state() == old(self).spec_state(),
            !final(self).spec_fresh(),
    {
        self.fresh = false;
        self.state
    }

    /// Peeks at the stored snapshot without touching the freshness mark.
    pub fn peek(&self) -> (s: GamepadState)
        ensures
            s == self.spec_state(),
    {
        self.state
    }
}

/// Law — idempotence of reads: a read returns the stored snapshot and leaves
/// it in place, so a second read with no write in between returns the same
/// snapshot as the first.
pub proof fn lemma_read_latest_idempotent(c: StateCell)
    ensures
        c.spec_after_read().spec_state() == c.spec_state(),
        c.spec_after_read().spec_after_read() == c.spec_after_read(),
{
}

/// Law — freshness: after a write of `s`, the next read returns exactly `s`,
/// whatever the cell held before (last-write-wins).
pub proof fn lemma_write_then_read(c: StateCell, s: GamepadState)
    ensures
        c.spec_after_write(s).spec_state() == s,
        c.spec_after_write(s).spec_fresh(),
{
}

} // verus!
