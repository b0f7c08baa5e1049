use vstd::prelude::*;

verus! {

pub open spec fn count_true(outcomes: Seq<bool>) -> nat
    decreases outcomes.len(),
{
    if outcomes.len() == 0 {
        0
    } else {
        count_true(outcomes.drop_last()) + if outcomes.last() {
            1nat
        } else {
            0nat
        }
    }
}

pub open spec fn count_failed(outcomes: Seq<bool>) -> nat
    decreases outcomes.len(),
{
    if outcomes.len() == 0 {
        0
    } else {
        count_failed(outcomes.drop_last()) + if outcomes.last() {
            0nat
        } else {
            1nat
        }
    }
}

proof fn lemma_counts_add_up(outcomes: Seq<bool>)
    ensures
        count_true(outcomes) + count_failed(outcomes) == outcomes.len(),
    decreases outcomes.len(),
{
    if outcomes.len() > 0 {
        lemma_counts_add_up(outcomes.drop_last());
    }
}

/// In a batch where every deletion but the one at `k` succeeds, exactly one
/// failure and all the other successes are reported.
pub proof fn lemma_one_failure(outcomes: Seq<bool>, k: int)
    requires
        0 <= k < outcomes.len(),
        !outcomes[k],
        forall|j: int| 0 <= j < outcomes.len() && j != k ==> #[trigger] outcomes[j],
    ensures
        count_true(outcomes) == outcomes.len() - 1,
        count_failed(outcomes) == 1,
    decreases outcomes.len(),
{
    lemma_counts_add_up(outcomes);
    let init = outcomes.drop_last();
    if k == outcomes.len() - 1 {
        lemma_all_succeed(init);
    } else {
        assert forall|j: int| 0 <= j < init.len() && j != k implies #[trigger] init[j] by {
            assert(init[j] == outcomes[j]);
        }
        lemma_one_failure(init, k);
        assert(outcomes.last() == outcomes[outcomes.len() - 1]);
    }
}

proof fn lemma_all_succeed(outcomes: Seq<bool>)
    requires
        forall|j: int| 0 <= j < outcomes.len() ==> #[trigger] outcomes[j],
    ensures
        count_failed(outcomes) == 0,
        count_true(outcomes) == outcomes.len(),
    decreases outcomes.len(),
{
    if outcomes.len() > 0 {
        let init = outcomes.drop_last();
        assert forall|j: int| 0 <= j < init.len() implies #[trigger] init[j] by {
            assert(init[j] == outcomes[j]);
        }
        lemma_all_succeed(init);
        assert(outcomes.last() == outcomes[outcomes.len() - 1]);
    }
}

/// Progress through a batch of deletions, attempted one by one in the order
/// chosen; a failure is recorded and the batch goes on.
pub struct DeletionBatch {
    pub total: usize,
    pub succeeded: usize,
    pub failed: usize,
    pub outcomes: Ghost<Seq<bool>>,
}

impl DeletionBatch {
    /// The outcomes recorded so far agree with the counters, and no more
    /// attempts than items were made.
    pub open spec fn wf(&self) -> bool {
        &&& self.outcomes@.len() == self.succeeded + self.failed
        &&& self.outcomes@.len() <= self.total
        &&& self.succeeded == count_true(self.outcomes@)
        &&& self.failed == count_failed(self.outcomes@)
    }

    /// A batch of `total` deletions, none attempted yet.
    pub fn new(total: usize) -> (r: DeletionBatch)
        ensures
            r.wf(),
            r.total == total,
            r.outcomes@ == Seq::<bool>::empty(),
    {
        DeletionBatch { total, succeeded: 0, failed: 0, outcomes: Ghost(Seq::empty()) }
    }

    /// The position, in the chosen order, of the next deletion to attempt;
    /// `None` once every one has been attempted.
    pub fn next(&self) -> (r: Option<usize>)
        requires
            self.wf(),
        ensures
            self.outcomes@.len() < self.total ==> r == Some(self.outcomes@.len() as usize),
            self.outcomes@.len() == self.total ==> r.is_none(),
    {
        let attempted = self.succeeded + self.failed;
        if attempted < self.total {
            Some(attempted)
        } else {
            None
        }
    }

    /// Records the outcome of the deletion that `next` named.
    pub fn record(&mut self, ok: bool)
        requires
            old(self).wf(),
            old(self).outcomes@.len() < old(self).total,
        ensures
            final(self).wf(),
            final(self).total == old(self).total,
            final(self).outcomes@ == old(self).outcomes@.push(ok),
    {
        let ghost before = self.outcomes@;
        if ok {
            self.succeeded = self.succeeded + 1;
        } else {
            self.failed = self.failed + 1;
        }
        self.outcomes = Ghost(before.push(ok));
        assert(self.outcomes@.drop_last() =~= before);
    }

    /// Whether every deletion of the batch has been attempted.
    pub fn is_done(&self) -> (r: bool)
        requires
            self.wf(),
        ensures
            r == (self.outcomes@.len() == self.total),
    {
        self.succeeded + self.failed == self.total
    }
}

} // verus!
