use vstd::prelude::*;
use crate::sender::TxSender;
use crate::ttl::{fresh_entries, TtlStore};

verus! {

/// A block known to the block store.
pub struct BlockInformation {
    pub blockhash: String,
    pub slot: u64,
    pub block_height: u64,
}

/// Bounds the memory of the time-windowed stores: the sender's backlog, the
/// signature subscribers of the block listeners, and the block store.
pub struct Cleaner {
    pub tx_sender: TxSender,
    pub block_listenser: TtlStore<String>,
    pub block_store: TtlStore<BlockInformation>,
}

impl Cleaner {
    pub fn new(
        tx_sender: TxSender,
        block_listenser: TtlStore<String>,
        block_store: TtlStore<BlockInformation>,
    ) -> (c: Self)
        ensures
            c.tx_sender == tx_sender,
            c.block_listenser == block_listenser,
            c.block_store == block_store,
    {
        Cleaner { tx_sender, block_listenser, block_store }
    }

    /// Evicts the sender's stale backlog entries; the other stores are untouched.
    pub fn clean_tx_sender(&mut self, now: u64, ttl: u64)
        ensures
            final(self).tx_sender.backlog() == fresh_entries(old(self).tx_sender.backlog(), now, ttl),
            final(self).tx_sender.batch_size() == old(self).tx_sender.batch_size(),
            final(self).block_listenser == old(self).block_listenser,
            final(self).block_store == old(self).block_store,
    {
        self.tx_sender.cleanup(now, ttl);
    }

    /// Evicts stale signature subscribers; the other stores are untouched.
    pub fn clean_block_listeners(&mut self, now: u64, ttl: u64)
        ensures
            final(self).block_listenser@ == fresh_entries(old(self).block_listenser@, now, ttl),
            final(self).tx_sender == old(self).tx_sender,
            final(self).block_store == old(self).block_store,
    {
        self.block_listenser.cleanup(now, ttl);
    }

    /// Evicts stale blocks and returns how many blocks remain in the store.
    pub fn clean_block_store(&mut self, now: u64, ttl: u64) -> (remaining: usize)
        ensures
            final(self).block_store@ == fresh_entries(old(self).block_store@, now, ttl),
            remaining == final(self).block_store@.len(),
            final(self).tx_sender == old(self).tx_sender,
            final(self).block_listenser == old(self).block_listenser,
    {
        self.block_store.cleanup(now, ttl);
        self.block_store.len()
    }

    /// One sweep at `now`: every store keeps exactly its entries of age at most
    /// `ttl`, in order. Returns the number of blocks left, for the gauge.
    pub fn sweep_once(&mut self, now: u64, ttl: u64) -> (remaining: usize)
        ensures
            final(self).tx_sender.backlog() == fresh_entries(old(self).tx_sender.backlog(), now, ttl),
            final(self).tx_sender.batch_size() == old(self).tx_sender.batch_size(),
            final(self).block_listenser@ == fresh_entries(old(self).block_listenser@, now, ttl),
            final(self).block_store@ == fresh_entries(old(self).block_store@, now, ttl),
            remaining == final(self).block_store@.len(),
    {
        self.clean_tx_sender(now, ttl);
        self.clean_block_listeners(now, ttl);
        self.clean_block_store(now, ttl)
    }
}

} // verus!
