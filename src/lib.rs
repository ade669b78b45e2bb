//! Transaction lifecycle engine of an RPC relay node: a sender that batches its
//! backlog, a replay scheduler that decides on due re-sends, and a cleaner that
//! evicts stale entries from every time-windowed store.

pub mod batching;
pub mod cleaner;
pub mod replay;
pub mod sender;
pub mod ttl;
