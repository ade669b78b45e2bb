use vstd::prelude::*;
use crate::batching::{
    batch_views, concat_batches, is_batching_of, lemma_batching_partitions, make_batches,
};
use crate::ttl::{fresh_entries, Stamped, TtlStore};

verus! {

/// A signed transaction waiting to be sent: its signature and its wire bytes.
pub struct PendingTransaction {
    pub signature: String,
    pub raw_bytes: Vec<u8>,
}

/// Buffers submitted transactions and hands them out in bounded batches.
pub struct TxSender {
    enqueued_txs: TtlStore<PendingTransaction>,
    max_batch_size: usize,
}

impl TxSender {
    /// The backlog: every transaction not yet handed out, with its enqueue time.
    pub closed spec fn backlog(&self) -> Seq<Stamped<PendingTransaction>> {
        self.enqueued_txs@
    }

    /// The largest number of transactions in one batch.
    pub closed spec fn batch_size(&self) -> nat {
        self.max_batch_size as nat
    }

    pub open spec fn wf(&self) -> bool {
        self.batch_size() > 0
    }

    pub fn new(max_batch_size: usize) -> (s: Self)
        requires
            max_batch_size > 0,
        ensures
            s.wf(),
            s.backlog() == Seq::<Stamped<PendingTransaction>>::empty(),
            s.batch_size() == max_batch_size,
    {
        TxSender { enqueued_txs: TtlStore::new(), max_batch_size }
    }

    /// Appends `raw_tx` to the backlog, stamped with `now`. No deduplication.
    pub fn enqnueue_tx(&mut self, raw_tx: PendingTransaction, now: u64)
        ensures
            final(self).backlog() == old(self).backlog().push(
                Stamped { value: raw_tx, inserted_at: now },
            ),
            final(self).batch_size() == old(self).batch_size(),
    {
        self.enqueued_txs.insert(raw_tx, now);
    }

    /// Number of transactions in the backlog.
    pub fn len(&self) -> (n: usize)
        ensures
            n == self.backlog().len(),
    {
        self.enqueued_txs.len()
    }

    pub fn max_batch_size(&self) -> (b: usize)
        ensures
            b == self.batch_size(),
    {
        self.max_batch_size
    }

    /// Takes the whole backlog in one step, leaving it empty, and cuts it in order
    /// into batches of at most `batch_size()` transactions, ready to be sent.
    pub fn retry_txs(&mut self) -> (batches: Vec<Vec<Stamped<PendingTransaction>>>)
        requires
            old(self).wf(),
        ensures
            final(self).backlog() == Seq::<Stamped<PendingTransaction>>::empty(),
            final(self).batch_size() == old(self).batch_size(),
            is_batching_of(batch_views(batches@), old(self).backlog(), old(self).batch_size() as int),
            concat_batches(batch_views(batches@)) == old(self).backlog(),
            forall|i: int|
                0 <= i < batches@.len() ==> 0 < #[trigger] batches@[i]@.len() <= old(self).batch_size(),
    {
        let drained = self.enqueued_txs.take_all();
        let batches = make_batches(drained, self.max_batch_size);
        proof {
            lemma_batching_partitions(
                batch_views(batches@),
                old(self).backlog(),
                self.max_batch_size as int,
            );
            assert forall|i: int| 0 <= i < batches@.len() implies 0 < #[trigger] batches@[i]@.len()
                <= old(self).batch_size() by {
                assert(batch_views(batches@)[i] == batches@[i]@);
            }
        }
        batches
    }

    /// Evicts every backlog entry older than `ttl` at `now`.
    pub fn cleanup(&mut self, now: u64, ttl: u64)
        ensures
            final(self).backlog() == fresh_entries(old(self).backlog(), now, ttl),
            final(self).batch_size() == old(self).batch_size(),
    {
        self.enqueued_txs.cleanup(now, ttl);
    }
}

/// One call on a backlog: an enqueue of a stamped item, or a flush of everything.
pub enum QueueOp<T> {
    Enqueue(Stamped<T>),
    Flush,
}

/// Runs `ops` from `backlog`: the backlog left at the end, and every item that the
/// flushes handed out, in the order they came out.
pub open spec fn run_queue<T>(backlog: Seq<Stamped<T>>, ops: Seq<QueueOp<T>>) -> (
    Seq<Stamped<T>>,
    Seq<Stamped<T>>,
)
    decreases ops.len(),
{
    if ops.len() == 0 {
        (backlog, Seq::empty())
    } else {
        let (rest, flushed) = run_queue(backlog, ops.drop_last());
        match ops.last() {
            QueueOp::Enqueue(item) => (rest.push(item), flushed),
            QueueOp::Flush => (Seq::empty(), flushed + rest),
        }
    }
}

/// The items that `ops` enqueues, in order.
pub open spec fn enqueued_items<T>(ops: Seq<QueueOp<T>>) -> Seq<Stamped<T>>
    decreases ops.len(),
{
    if ops.len() == 0 {
        Seq::empty()
    } else {
        match ops.last() {
            QueueOp::Enqueue(item) => enqueued_items(ops.drop_last()).push(item),
            QueueOp::Flush => enqueued_items(ops.drop_last()),
        }
    }
}

/// Over any interleaving of enqueues and flushes, what the flushes handed out,
/// followed by what is still queued, is exactly the starting backlog followed by
/// every enqueued item: nothing is lost and nothing comes out twice.
pub proof fn lemma_drain_exactness<T>(backlog: Seq<Stamped<T>>, ops: Seq<QueueOp<T>>)
    ensures
        run_queue(backlog, ops).1 + run_queue(backlog, ops).0 == backlog + enqueued_items(ops),
    decreases ops.len(),
{
    if ops.len() == 0 {
        assert(Seq::<Stamped<T>>::empty() + backlog =~= backlog + Seq::<Stamped<T>>::empty());
    } else {
        lemma_drain_exactness(backlog, ops.drop_last());
        let (rest, flushed) = run_queue(backlog, ops.drop_last());
        match ops.last() {
            QueueOp::Enqueue(item) => {
                assert(flushed + rest.push(item) =~= (flushed + rest).push(item));
                assert(backlog + enqueued_items(ops.drop_last()).push(item) =~= (backlog
                    + enqueued_items(ops.drop_last())).push(item));
            },
            QueueOp::Flush => {
                assert(flushed + rest + Seq::<Stamped<T>>::empty() =~= flushed + rest);
            },
        }
    }
}

} // verus!
