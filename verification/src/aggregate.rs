//! The shared result collection: an append-only sequence of records that
//! every task's batch is added to whole, so no batch is interleaved, lost
//! or duplicated. Callers that share one aggregator across tasks serialize
//! their calls (one writer at a time); each call's effect is exactly the
//! concatenation stated here.
use vstd::prelude::*;
use crate::record::Record;

verus! {

/// An ordered, append-only collection of records.
pub struct ResultAggregator {
    records: Vec<Record>,
}

impl ResultAggregator {
    /// The accumulated records, in arrival order.
    pub closed spec fn view(self) -> Seq<Record> {
        self.records@
    }

    /// An empty collection.
    pub fn new() -> (agg: ResultAggregator)
        ensures
            agg@ =~= Seq::<Record>::empty(),
    {
        ResultAggregator { records: Vec::new() }
    }

    /// Extends the collection with one task's whole batch, in batch order.
    pub fn append(&mut self, batch: Vec<Record>)
        ensures
            final(self)@ == old(self)@ + batch@,
    {
        let mut batch = batch;
        self.records.append(&mut batch);
    }

    /// How many records have accumulated.
    pub fn len(&self) -> (n: usize)
        ensures
            n == self@.len(),
    {
        self.records.len()
    }

    /// The full accumulated sequence. Callers take it once every writer is
    /// done; the pipeline's run state enforces that by joining every task
    /// before the write step.
    pub fn snapshot(self) -> (records: Vec<Record>)
        ensures
            records@ == self@,
    {
        self.records
    }
}

/// The per-batch record sequences of a vector of batches.
pub open spec fn batch_views(batches: Seq<Vec<Record>>) -> Seq<Seq<Record>> {
    batches.map_values(|b: Vec<Record>| b@)
}

/// The combined size of a sequence of batches.
pub open spec fn total_len(batches: Seq<Seq<Record>>) -> int
    decreases batches.len(),
{
    if batches.len() == 0 {
        0
    } else {
        batches[0].len() + total_len(batches.drop_first())
    }
}

/// Batches aggregate without loss or duplication: appending each batch of
/// a sequence in turn yields exactly their concatenation, whose length is
/// the sum of the batch lengths.
pub proof fn lemma_batches_aggregate(batches: Seq<Seq<Record>>)
    ensures
        batches.flatten().len() == total_len(batches),
    decreases batches.len(),
{
    if batches.len() == 0 {
    } else {
        lemma_batches_aggregate(batches.drop_first());
    }
}

/// Appends a sequence of batches in order, as the joined tasks' batches
/// are aggregated; the result is their concatenation after what was
/// already there.
pub fn append_all(agg: &mut ResultAggregator, batches: Vec<Vec<Record>>)
    ensures
        final(agg)@ == old(agg)@ + batch_views(batches@).flatten(),
{
    let ghost bv = batch_views(batches@);
    let mut rest = batches;
    proof {
        assert(bv.take(0).flatten() =~= Seq::<Record>::empty());
        assert(old(agg)@ + bv.take(0).flatten() =~= old(agg)@);
    }
    while rest.len() > 0
        invariant
            rest@.len() <= bv.len(),
            forall|k: int|
                0 <= k < rest@.len() ==> #[trigger] rest@[k]@ == bv[bv.len() - rest@.len() + k],
            agg@ == old(agg)@ + bv.take(bv.len() - rest@.len()).flatten(),
        decreases rest@.len(),
    {
        let ghost done = bv.len() - rest@.len();
        let batch = rest.remove(0);
        agg.append(batch);
        proof {
            assert(bv.take(done + 1) =~= bv.take(done as int).push(bv[done as int]));
            bv.take(done as int).lemma_flatten_push(bv[done as int]);
            assert(agg@ =~= old(agg)@ + bv.take(done + 1).flatten());
        }
    }
    proof {
        assert(bv.take(bv.len() as int) =~= bv);
    }
}

} // verus!
