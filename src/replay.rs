use vstd::prelude::*;

verus! {

/// A scheduled re-send of one transaction. `replay_at` is in milliseconds.
pub struct TransactionReplay {
    pub signature: String,
    pub tx: Vec<u8>,
    pub replay_count: usize,
    pub max_replay: usize,
    pub replay_at: u64,
}

/// What the confirmation store holds for a signature when its replay falls due.
pub enum ConfirmationLookup {
    /// No record: the transaction's bookkeeping has expired.
    Missing,
    /// A record without a confirmation status.
    Unconfirmed,
    /// A record with a confirmation status: terminal.
    Confirmed,
}

/// The decision taken on a due replay request.
pub enum ReplayOutcome {
    /// Already confirmed: dropped without sending.
    Confirmed,
    /// No longer tracked: dropped without sending.
    Expired,
    /// Sent again; the attempts are used up, so nothing is scheduled.
    Exhausted,
    /// Sent again, and scheduled once more as the carried request.
    Rescheduled(TransactionReplay),
}

impl ReplayOutcome {
    /// The decision includes sending the transaction to the network once more.
    pub open spec fn resubmits(self) -> bool {
        self is Exhausted || self is Rescheduled
    }

    pub fn is_resubmission(&self) -> (r: bool)
        ensures
            r == self.resubmits(),
    {
        match self {
            ReplayOutcome::Exhausted => true,
            ReplayOutcome::Rescheduled(_) => true,
            _ => false,
        }
    }
}

/// `now + delay`, held at `u64::MAX` where it would not fit.
pub open spec fn later_by(now: u64, delay: u64) -> u64 {
    if now + delay <= u64::MAX {
        (now + delay) as u64
    } else {
        u64::MAX
    }
}

/// The decision on request `r`, due and evaluated at `now`, given what the store holds.
pub open spec fn replay_step(
    r: TransactionReplay,
    lookup: ConfirmationLookup,
    now: u64,
    retry_after: u64,
) -> ReplayOutcome {
    match lookup {
        ConfirmationLookup::Confirmed => ReplayOutcome::Confirmed,
        ConfirmationLookup::Missing => ReplayOutcome::Expired,
        ConfirmationLookup::Unconfirmed => if r.replay_count < r.max_replay {
            ReplayOutcome::Rescheduled(
                TransactionReplay {
                    replay_count: (r.replay_count + 1) as usize,
                    replay_at: later_by(now, retry_after),
                    ..r
                },
            )
        } else {
            ReplayOutcome::Exhausted
        },
    }
}

/// How long to wait, from `now`, before a request due at `replay_at` may be evaluated.
pub fn due_in(replay_at: u64, now: u64) -> (wait: u64)
    ensures
        wait == if replay_at > now { replay_at - now } else { 0 },
{
    if replay_at > now {
        replay_at - now
    } else {
        0
    }
}

/// Decides, one due request at a time, whether a transaction is sent again and
/// rescheduled `retry_after` milliseconds later.
pub struct TransactionReplayer {
    pub retry_after: u64,
}

impl TransactionReplayer {
    pub fn new(retry_after: u64) -> (s: Self)
        ensures
            s.retry_after == retry_after,
    {
        TransactionReplayer { retry_after }
    }

    /// Evaluates the due request `tx_replay` at `now`: a confirmed or untracked
    /// transaction is dropped unsent; otherwise it is sent again and, while
    /// `replay_count < max_replay`, rescheduled with the count raised by one.
    pub fn evaluate(&self, tx_replay: TransactionReplay, lookup: ConfirmationLookup, now: u64) -> (r:
        ReplayOutcome)
        ensures
            r == replay_step(tx_replay, lookup, now, self.retry_after),
            lookup is Confirmed ==> r is Confirmed,
            lookup is Missing ==> r is Expired,
            r.resubmits() <==> lookup is Unconfirmed,
    {
        match lookup {
            ConfirmationLookup::Confirmed => ReplayOutcome::Confirmed,
            ConfirmationLookup::Missing => ReplayOutcome::Expired,
            ConfirmationLookup::Unconfirmed => {
                if tx_replay.replay_count < tx_replay.max_replay {
                    let replay_at = now.saturating_add(self.retry_after);
                    ReplayOutcome::Rescheduled(
                        TransactionReplay {
                            signature: tx_replay.signature,
                            tx: tx_replay.tx,
                            replay_count: tx_replay.replay_count + 1,
                            max_replay: tx_replay.max_replay,
                            replay_at,
                        },
                    )
                } else {
                    ReplayOutcome::Exhausted
                }
            },
        }
    }
}

/// Number of sends that the chain of requests starting at `r` makes when every
/// evaluation finds the transaction unconfirmed (each one evaluated when due).
pub open spec fn sends_while_unconfirmed(r: TransactionReplay, retry_after: u64) -> nat
    decreases r.max_replay - r.replay_count,
{
    match replay_step(r, ConfirmationLookup::Unconfirmed, r.replay_at, retry_after) {
        ReplayOutcome::Rescheduled(next) => if next.replay_count > r.replay_count {
            1 + sends_while_unconfirmed(next, retry_after)
        } else {
            0
        },
        ReplayOutcome::Exhausted => 1,
        _ => 0,
    }
}

/// A request that is never confirmed is sent `max_replay - replay_count + 1` times
/// (once if its count is already past the maximum) and then dropped: a fresh request
/// (count 0) gets its first send and exactly `max_replay` re-sends after it.
pub proof fn lemma_replay_termination(r: TransactionReplay, retry_after: u64)
    ensures
        sends_while_unconfirmed(r, retry_after) == if r.replay_count <= r.max_replay {
            r.max_replay - r.replay_count + 1
        } else {
            1
        },
        r.replay_count == 0 ==> sends_while_unconfirmed(r, retry_after) == r.max_replay + 1,
    decreases r.max_replay - r.replay_count,
{
    if r.replay_count < r.max_replay {
        let next = TransactionReplay {
            replay_count: (r.replay_count + 1) as usize,
            replay_at: later_by(r.replay_at, retry_after),
            ..r
        };
        lemma_replay_termination(next, retry_after);
    }
}

/// Once the store reports a status for the signature, a request for it that is
/// still in flight is dropped without another send, whatever its counts.
pub proof fn lemma_confirmed_not_resubmitted(r: TransactionReplay, now: u64, retry_after: u64)
    ensures
        !replay_step(r, ConfirmationLookup::Confirmed, now, retry_after).resubmits(),
{
}

/// A due request whose signature the store no longer holds is dropped unsent.
pub proof fn lemma_expired_not_resubmitted(r: TransactionReplay, now: u64, retry_after: u64)
    ensures
        !replay_step(r, ConfirmationLookup::Missing, now, retry_after).resubmits(),
{
}

} // verus!
