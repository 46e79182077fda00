use vstd::prelude::*;

verus! {

/// When the slashing-protection database was last pruned, and how often it may be: at most
/// once per window of `period` epochs.
#[derive(Debug, Clone, Copy, PartialEq, Eq, Structural)]
pub struct PruningSchedule {
    pub last_prune_epoch: u64,
    pub period: u64,
}

impl PruningSchedule {
    pub open spec fn wf(self) -> bool {
        self.period > 0
    }

    /// Whether a call at `epoch` prunes: only once the epoch is in a later window than the
    /// last pruning.
    pub open spec fn due(self, epoch: u64) -> bool {
        epoch / self.period > self.last_prune_epoch / self.period
    }

    /// A schedule that has pruned at `epoch` (the start of the process counts as one).
    pub fn new(epoch: u64, period: u64) -> (r: PruningSchedule)
        requires
            period > 0,
        ensures
            r.wf(),
            r.last_prune_epoch == epoch,
            r.period == period,
    {
        PruningSchedule { last_prune_epoch: epoch, period }
    }

    /// Called at each slot with the current epoch: says whether to prune now, and if so
    /// records it. Cheap to call every slot.
    pub fn prune_due(&mut self, epoch: u64) -> (r: bool)
        requires
            old(self).wf(),
        ensures
            final(self).wf(),
            final(self).period == old(self).period,
            r == old(self).due(epoch),
            r ==> final(self).last_prune_epoch == epoch,
            !r ==> *final(self) == *old(self),
    {
        if epoch / self.period > self.last_prune_epoch / self.period {
            self.last_prune_epoch = epoch;
            true
        } else {
            false
        }
    }
}

/// How many of the calls at each of `epochs`, in order, prune.
pub open spec fn prunings(s: PruningSchedule, epochs: Seq<u64>) -> nat
    decreases epochs.len(),
{
    if epochs.len() == 0 {
        0
    } else {
        let d = s.due(epochs[0]);
        let next = if d { PruningSchedule { last_prune_epoch: epochs[0], ..s } } else { s };
        (if d { 1nat } else { 0nat }) + prunings(next, epochs.drop_first())
    }
}

proof fn lemma_prunings_in_window(s: PruningSchedule, epochs: Seq<u64>, w: u64)
    requires
        s.wf(),
        forall|i: int| 0 <= i < epochs.len() ==> #[trigger] epochs[i] / s.period == w,
    ensures
        prunings(s, epochs) <= (if s.last_prune_epoch / s.period < w { 1nat } else { 0nat }),
    decreases epochs.len(),
{
    if epochs.len() > 0 {
        let e = epochs[0];
        let d = s.due(e);
        let next = if d { PruningSchedule { last_prune_epoch: e, ..s } } else { s };
        assert forall|i: int| 0 <= i < epochs.drop_first().len() implies #[trigger] epochs.drop_first()[i]
            / next.period == w by {
            assert(epochs.drop_first()[i] == epochs[i + 1]);
        }
        lemma_prunings_in_window(next, epochs.drop_first(), w);
    }
}

/// Calls at epochs that all lie in one window of the schedule prune at most once between them,
/// however many there are.
pub proof fn lemma_prune_at_most_once_per_window(s: PruningSchedule, epochs: Seq<u64>)
    requires
        s.wf(),
        epochs.len() > 0,
        forall|i: int| 0 <= i < epochs.len() ==> #[trigger] epochs[i] / s.period == epochs[0] / s.period,
    ensures
        prunings(s, epochs) <= 1,
{
    lemma_prunings_in_window(s, epochs, epochs[0] / s.period);
}

} // verus!
