//! Transfer progress. The backend reports its counters while it fetches;
//! the library hands them to the caller's sink, and sees to it that the
//! sink never watches a counter go down.

use vstd::prelude::*;

verus! {

/// The counters of one progress update.
#[derive(Debug, Clone, Copy, PartialEq, Eq, Structural)]
pub struct TransferProgress {
    pub total_objects: usize,
    pub indexed_objects: usize,
    pub received_objects: usize,
    pub received_bytes: usize,
}

impl TransferProgress {
    /// An update from the counts of objects in all, indexed and received,
    /// and the count of bytes received.
    pub fn new(objects: (usize, usize, usize), received_bytes: usize) -> (res: TransferProgress)
        ensures
            res == (TransferProgress {
                total_objects: objects.0,
                indexed_objects: objects.1,
                received_objects: objects.2,
                received_bytes,
            }),
    {
        TransferProgress {
            total_objects: objects.0,
            indexed_objects: objects.1,
            received_objects: objects.2,
            received_bytes,
        }
    }
}

/// Whether no counter of `later` is below that of `earlier`.
pub open spec fn precedes(earlier: TransferProgress, later: TransferProgress) -> bool {
    &&& earlier.total_objects <= later.total_objects
    &&& earlier.indexed_objects <= later.indexed_objects
    &&& earlier.received_objects <= later.received_objects
    &&& earlier.received_bytes <= later.received_bytes
}

/// The counters before anything was transferred.
pub open spec fn start() -> TransferProgress {
    TransferProgress { total_objects: 0, indexed_objects: 0, received_objects: 0, received_bytes: 0 }
}

/// Remembers the last update that went to the sink and lets through only
/// updates that do not fall behind it.
#[derive(Debug, Clone, Copy, PartialEq, Eq, Structural)]
pub struct ProgressGate {
    pub last: TransferProgress,
}

/// The updates that a gate lets through, of those that the backend
/// reports in turn, when the last one it let through before was `last`.
pub open spec fn forwarded(
    last: TransferProgress,
    updates: Seq<TransferProgress>,
) -> Seq<TransferProgress>
    decreases updates.len(),
{
    if updates.len() == 0 {
        Seq::empty()
    } else if precedes(last, updates[0]) {
        seq![updates[0]] + forwarded(updates[0], updates.drop_first())
    } else {
        forwarded(last, updates.drop_first())
    }
}

/// Whatever the backend reports and in whatever order, what reaches the
/// sink never falls behind: every update that is let through holds all
/// that the one before it held, and the first holds all that went before.
pub proof fn lemma_forwarded_never_falls_behind(
    last: TransferProgress,
    updates: Seq<TransferProgress>,
)
    ensures
        forwarded(last, updates).len() <= updates.len(),
        forall|i: int|
            0 <= i < forwarded(last, updates).len()
                ==> precedes(last, #[trigger] forwarded(last, updates)[i]),
        forall|i: int, j: int|
            0 <= i <= j < forwarded(last, updates).len() ==> precedes(
                #[trigger] forwarded(last, updates)[i],
                #[trigger] forwarded(last, updates)[j],
            ),
    decreases updates.len(),
{
    if updates.len() > 0 {
        let rest = updates.drop_first();
        if precedes(last, updates[0]) {
            lemma_forwarded_never_falls_behind(updates[0], rest);
            let tail = forwarded(updates[0], rest);
            let all = forwarded(last, updates);
            assert(all == seq![updates[0]] + tail);
            assert forall|i: int| 0 <= i < all.len() implies precedes(last, #[trigger] all[i]) by {
                if i > 0 {
                    assert(all[i] == tail[i - 1]);
                }
            }
            assert forall|i: int, j: int| 0 <= i <= j < all.len() implies precedes(
                #[trigger] all[i],
                #[trigger] all[j],
            ) by {
                if j > 0 {
                    assert(all[j] == tail[j - 1]);
                    if i > 0 {
                        assert(all[i] == tail[i - 1]);
                    }
                }
            }
        } else {
            lemma_forwarded_never_falls_behind(last, rest);
        }
    }
}

impl ProgressGate {
    /// A gate through which nothing has gone yet.
    pub fn new() -> (res: ProgressGate)
        ensures
            res.last == start(),
    {
        ProgressGate {
            last: TransferProgress { total_objects: 0, indexed_objects: 0, received_objects: 0, received_bytes: 0 },
        }
    }

    /// Decides about one update: it is let through where it does not fall
    /// behind the last one, and is then remembered as the last.
    pub fn let_through(&mut self, update: TransferProgress) -> (res: bool)
        ensures
            res == precedes(old(self).last, update),
            final(self).last == (if res { update } else { old(self).last }),
    {
        let last = self.last;
        if last.total_objects <= update.total_objects
            && last.indexed_objects <= update.indexed_objects
            && last.received_objects <= update.received_objects && last.received_bytes
            <= update.received_bytes {
            self.last = update;
            true
        } else {
            false
        }
    }
}

/// Passes one update to the sink unless it falls behind the last one that
/// went there. The answer tells the backend to go on and is always `true`:
/// a sink cannot stop a transfer.
pub fn forward<F: Fn(TransferProgress)>(gate: &mut ProgressGate, sink: &F, update: TransferProgress) -> (res:
    bool)
    requires
        forall|u: TransferProgress| sink.requires((u,)),
    ensures
        res,
        final(gate).last == (if precedes(old(gate).last, update) { update } else { old(gate).last }),
{
    if gate.let_through(update) {
        sink(update);
    }
    true
}

/// A sink for callers who do not watch the transfer.
pub fn ignore_progress(update: TransferProgress) {
}

} // verus!
