//! The decision core of the debounced persistence worker.
//!
//! A long-lived host task owns the channel, the debounce window and the disk
//! writes; this module owns every decision it takes. The worker holds one
//! pending snapshot — enqueued snapshots coalesce, so older intermediate
//! snapshots are never separately persisted — and one last-written snapshot,
//! seeded at worker start. When the debounce window closes, the pending
//! snapshot is taken: it is written unless it is value-equal to the last
//! written one, in which case the write is skipped.

use vstd::prelude::*;

use crate::state::PersistedState;

verus! {

/// What the host must do with the coalesced snapshot once the debounce
/// window has closed.
#[derive(Debug, Clone, Copy, PartialEq, Eq, Structural)]
pub enum WriteDecision {
    /// Nothing to write: no snapshot is pending, or the pending snapshot is
    /// value-equal to the last written one.
    Skip,
    /// Write this snapshot to durable storage.
    Write(PersistedState),
}

/// The state of the debounced writer between events.
#[derive(Debug, Clone, Copy, PartialEq, Eq, Structural)]
pub struct DebouncedWriter {
    /// The snapshot most recently written to durable storage (seeded at
    /// worker start with the state the storage already holds).
    pub last_written: PersistedState,
    /// The most recent snapshot received during the current debounce
    /// window, if any.
    pub pending: Option<PersistedState>,
}

/// The decision owed once the debounce window closes on writer state `w`.
pub open spec fn spec_decision(w: DebouncedWriter) -> WriteDecision {
    match w.pending {
        None => WriteDecision::Skip,
        Some(s) => if s == w.last_written {
            WriteDecision::Skip
        } else {
            WriteDecision::Write(s)
        },
    }
}

/// The writer state after a sequence of snapshots has been enqueued: only
/// the most recent snapshot is kept pending.
pub open spec fn spec_enqueue_all(w: DebouncedWriter, snaps: Seq<PersistedState>) -> DebouncedWriter
    decreases snaps.len(),
{
    if snaps.len() == 0 {
        w
    } else {
        spec_enqueue_all(
            DebouncedWriter { last_written: w.last_written, pending: Some(snaps[0]) },
            snaps.skip(1),
        )
    }
}

impl DebouncedWriter {
    /// A fresh writer whose last-written snapshot is `seed` — the state
    /// durable storage already holds when the worker starts — and with
    /// nothing pending.
    pub fn new(seed: PersistedState) -> (w: DebouncedWriter)
        ensures
            w.last_written == seed,
            w.pending is None,
    {
        DebouncedWriter { last_written: seed, pending: None }
    }

    /// Receive one snapshot. It replaces whatever was pending: within a
    /// debounce window only the latest snapshot survives.
    pub fn enqueue(&mut self, snapshot: PersistedState)
        ensures
            final(self).pending == Some(snapshot),
            final(self).last_written == old(self).last_written,
    {
        self.pending = Some(snapshot);
    }

    /// Close the debounce window: take the pending snapshot, leaving none,
    /// and decide whether it must be written. A pending snapshot value-equal
    /// to the last written one is skipped.
    pub fn take_due(&mut self) -> (d: WriteDecision)
        ensures
            d == spec_decision(*old(self)),
            final(self).pending is None,
            final(self).last_written == old(self).last_written,
    {
        let due = self.pending;
        self.pending = None;
        match due {
            None => WriteDecision::Skip,
            Some(s) => {
                if s == self.last_written {
                    WriteDecision::Skip
                } else {
                    WriteDecision::Write(s)
                }
            },
        }
    }

    /// Record that the snapshot returned in a [`WriteDecision::Write`] was
    /// durably written. On a failed write the host records nothing, so the
    /// previous last-written value is retained and a later differing
    /// snapshot will still attempt a write.
    pub fn record_written(&mut self, snapshot: PersistedState)
        ensures
            final(self).last_written == snapshot,
            final(self).pending == old(self).pending,
    {
        self.last_written = snapshot;
    }
}

/// Debounce: however many snapshots arrive within one debounce window, only
/// the last one enqueued stays pending, so the window's decision calls for
/// at most one write — of that last snapshot — and for none at all when it
/// equals what is already written.
pub proof fn lemma_debounce_coalesces(w: DebouncedWriter, snaps: Seq<PersistedState>)
    requires
        snaps.len() > 0,
    ensures
        spec_enqueue_all(w, snaps).pending == Some(snaps.last()),
        spec_enqueue_all(w, snaps).last_written == w.last_written,
        spec_decision(spec_enqueue_all(w, snaps)) == if snaps.last() == w.last_written {
            WriteDecision::Skip
        } else {
            WriteDecision::Write(snaps.last())
        },
    decreases snaps.len(),
{
    if snaps.len() == 1 {
        assert(snaps.last() == snaps[0]);
    } else {
        let w1 = DebouncedWriter { last_written: w.last_written, pending: Some(snaps[0]) };
        lemma_debounce_coalesces(w1, snaps.skip(1));
        assert(snaps.skip(1).last() == snaps.last());
    }
}

/// Skip-if-unchanged: a snapshot value-equal to the last written one leads
/// to no write.
pub proof fn lemma_skip_unchanged(w: DebouncedWriter, snapshot: PersistedState)
    requires
        snapshot == w.last_written,
    ensures
        spec_decision(
            DebouncedWriter { last_written: w.last_written, pending: Some(snapshot) },
        ) == WriteDecision::Skip,
{
}

} // verus!
