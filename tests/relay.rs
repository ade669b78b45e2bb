use lite_rpc_relay::batching::make_batches;
use lite_rpc_relay::cleaner::{BlockInformation, Cleaner};
use lite_rpc_relay::replay::{
    due_in, ConfirmationLookup, ReplayOutcome, TransactionReplay, TransactionReplayer,
};
use lite_rpc_relay::sender::{PendingTransaction, TxSender};
use lite_rpc_relay::ttl::{entry_is_fresh, TtlStore};

fn pending(i: usize) -> PendingTransaction {
    PendingTransaction { signature: format!("sig{i}"), raw_bytes: vec![i as u8, 7] }
}

fn request(max_replay: usize, replay_at: u64) -> TransactionReplay {
    TransactionReplay {
        signature: "sig".to_string(),
        tx: vec![1, 2, 3],
        replay_count: 0,
        max_replay,
        replay_at,
    }
}

#[test]
fn flush_of_250_gives_batches_of_100_100_50() {
    let mut sender = TxSender::new(100);
    for i in 0..250 {
        sender.enqnueue_tx(pending(i), i as u64);
    }
    let batches = sender.retry_txs();
    let sizes: Vec<usize> = batches.iter().map(|b| b.len()).collect();
    assert_eq!(sizes, vec![100, 100, 50]);
    let sigs: Vec<String> =
        batches.iter().flatten().map(|e| e.value.signature.clone()).collect();
    let expected: Vec<String> = (0..250).map(|i| format!("sig{i}")).collect();
    assert_eq!(sigs, expected);
    assert_eq!(sender.len(), 0);
}

#[test]
fn flush_of_empty_backlog_sends_nothing() {
    let mut sender = TxSender::new(100);
    assert!(sender.retry_txs().is_empty());
}

#[test]
fn flush_of_exact_multiple_has_no_partial_batch() {
    let mut sender = TxSender::new(4);
    for i in 0..8 {
        sender.enqnueue_tx(pending(i), 0);
    }
    let sizes: Vec<usize> = sender.retry_txs().iter().map(|b| b.len()).collect();
    assert_eq!(sizes, vec![4, 4]);
}

#[test]
fn make_batches_keeps_order() {
    let batches = make_batches(vec![1u32, 2, 3, 4, 5], 2);
    assert_eq!(batches, vec![vec![1, 2], vec![3, 4], vec![5]]);
    let single = make_batches(vec![9u32], 3);
    assert_eq!(single, vec![vec![9]]);
}

#[test]
fn interleaved_enqueues_and_flushes_deliver_each_once() {
    let mut sender = TxSender::new(2);
    let mut delivered: Vec<String> = Vec::new();
    sender.enqnueue_tx(pending(0), 0);
    sender.enqnueue_tx(pending(1), 0);
    sender.enqnueue_tx(pending(2), 0);
    for b in sender.retry_txs() {
        delivered.extend(b.into_iter().map(|e| e.value.signature));
    }
    sender.enqnueue_tx(pending(3), 1);
    for b in sender.retry_txs() {
        delivered.extend(b.into_iter().map(|e| e.value.signature));
    }
    for b in sender.retry_txs() {
        delivered.extend(b.into_iter().map(|e| e.value.signature));
    }
    assert_eq!(delivered, vec!["sig0", "sig1", "sig2", "sig3"]);
}

#[test]
fn unconfirmed_replay_sends_three_times_then_stops() {
    let replayer = TransactionReplayer::new(100);
    let mut sends_at: Vec<u64> = Vec::new();
    let mut current = Some(request(2, 0));
    let mut now = 0u64;
    while let Some(r) = current.take() {
        now = now.max(r.replay_at);
        let outcome = replayer.evaluate(r, ConfirmationLookup::Unconfirmed, now);
        if outcome.is_resubmission() {
            sends_at.push(now);
        }
        if let ReplayOutcome::Rescheduled(next) = outcome {
            current = Some(next);
        }
    }
    assert_eq!(sends_at, vec![0, 100, 200]);
}

#[test]
fn rescheduled_request_counts_up_and_waits() {
    let replayer = TransactionReplayer::new(100);
    match replayer.evaluate(request(3, 50), ConfirmationLookup::Unconfirmed, 60) {
        ReplayOutcome::Rescheduled(next) => {
            assert_eq!(next.replay_count, 1);
            assert_eq!(next.max_replay, 3);
            assert_eq!(next.replay_at, 160);
            assert_eq!(next.signature, "sig");
            assert_eq!(next.tx, vec![1, 2, 3]);
        }
        _ => panic!("expected a reschedule"),
    }
}

#[test]
fn confirmed_transaction_is_not_replayed() {
    let replayer = TransactionReplayer::new(100);
    let outcome = replayer.evaluate(request(3, 100), ConfirmationLookup::Confirmed, 100);
    assert!(matches!(outcome, ReplayOutcome::Confirmed));
    assert!(!outcome.is_resubmission());
}

#[test]
fn expired_transaction_is_not_replayed() {
    let replayer = TransactionReplayer::new(100);
    let outcome = replayer.evaluate(request(3, 100), ConfirmationLookup::Missing, 100);
    assert!(matches!(outcome, ReplayOutcome::Expired));
    assert!(!outcome.is_resubmission());
}

#[test]
fn exhausted_request_is_sent_once_more_without_reschedule() {
    let replayer = TransactionReplayer::new(100);
    let mut r = request(2, 0);
    r.replay_count = 2;
    let outcome = replayer.evaluate(r, ConfirmationLookup::Unconfirmed, 5);
    assert!(matches!(outcome, ReplayOutcome::Exhausted));
    assert!(outcome.is_resubmission());
}

#[test]
fn reschedule_time_saturates() {
    let replayer = TransactionReplayer::new(100);
    match replayer.evaluate(request(1, 0), ConfirmationLookup::Unconfirmed, u64::MAX - 10) {
        ReplayOutcome::Rescheduled(next) => assert_eq!(next.replay_at, u64::MAX),
        _ => panic!("expected a reschedule"),
    }
}

#[test]
fn due_in_waits_only_for_future_requests() {
    assert_eq!(due_in(150, 100), 50);
    assert_eq!(due_in(100, 100), 0);
    assert_eq!(due_in(90, 100), 0);
}

#[test]
fn freshness_boundary() {
    assert!(entry_is_fresh(900, 1000, 100));
    assert!(!entry_is_fresh(899, 1000, 100));
    assert!(entry_is_fresh(2000, 1000, 0));
}

#[test]
fn sweep_keeps_exactly_the_fresh_entries() {
    let mut sender = TxSender::new(10);
    sender.enqnueue_tx(pending(0), 100);
    sender.enqnueue_tx(pending(1), 850);
    sender.enqnueue_tx(pending(2), 900);
    let mut listeners = TtlStore::new();
    listeners.insert("old".to_string(), 0);
    listeners.insert("new".to_string(), 950);
    let mut blocks = TtlStore::new();
    blocks.insert(BlockInformation { blockhash: "a".to_string(), slot: 1, block_height: 1 }, 10);
    blocks.insert(BlockInformation { blockhash: "b".to_string(), slot: 2, block_height: 2 }, 900);
    blocks.insert(BlockInformation { blockhash: "c".to_string(), slot: 3, block_height: 3 }, 1000);
    let mut cleaner = Cleaner::new(sender, listeners, blocks);

    let remaining = cleaner.sweep_once(1000, 100);

    assert_eq!(remaining, 2);
    let kept: Vec<u64> = cleaner.block_store.entries().iter().map(|e| e.value.slot).collect();
    assert_eq!(kept, vec![2, 3]);
    let subs: Vec<&str> =
        cleaner.block_listenser.entries().iter().map(|e| e.value.as_str()).collect();
    assert_eq!(subs, vec!["new"]);
    let batches = cleaner.tx_sender.retry_txs();
    let sigs: Vec<&str> =
        batches.iter().flatten().map(|e| e.value.signature.as_str()).collect();
    assert_eq!(sigs, vec!["sig2"]);
}

#[test]
fn store_take_all_empties_it() {
    let mut store = TtlStore::new();
    store.insert(1u8, 5);
    store.insert(2u8, 6);
    let all = store.take_all();
    assert_eq!(all.len(), 2);
    assert_eq!(all[1].value, 2);
    assert_eq!(all[1].inserted_at, 6);
    assert_eq!(store.len(), 0);
}
