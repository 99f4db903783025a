//! The counters that drive the monitoring loop.
use vstd::prelude::*;

verus! {

/// Counter values written to the chain before the account counter stops.
pub const ACCOUNT_COUNTER_LIMIT: u32 = 10;

/// Round number after which the round counter starts again at one.
pub const UPDATE_COUNTER_LIMIT: u32 = 100;

/// Lamports asked of the faucet when the fresh account is empty (one SOL).
pub const AIRDROP_LAMPORTS: u64 = 1_000_000_000;

/// State kept across the rounds of the monitoring loop.
#[derive(Clone, Copy, Debug, PartialEq, Eq, Structural)]
pub struct MonitorState {
    /// Number of the current round, from one up to `UPDATE_COUNTER_LIMIT`.
    pub update_counter: u32,
    /// Last counter value handed out for publication, at most `ACCOUNT_COUNTER_LIMIT`.
    pub account_counter: u32,
}

/// The state before the first round.
pub open spec fn initial_state() -> MonitorState {
    MonitorState { update_counter: 1, account_counter: 0 }
}

/// The state once a round has begun: the account counter moves up unless it
/// has reached its limit.
pub open spec fn begun(s: MonitorState) -> MonitorState {
    if s.account_counter < ACCOUNT_COUNTER_LIMIT {
        MonitorState { account_counter: (s.account_counter + 1) as u32, ..s }
    } else {
        s
    }
}

/// The state once a round has ended: the round number moves up, and goes back
/// to one after `UPDATE_COUNTER_LIMIT`.
pub open spec fn ended(s: MonitorState) -> MonitorState {
    if s.update_counter >= UPDATE_COUNTER_LIMIT {
        MonitorState { update_counter: 1, ..s }
    } else {
        MonitorState { update_counter: (s.update_counter + 1) as u32, ..s }
    }
}

/// The state after `n` whole rounds from the initial state.
pub open spec fn after_rounds(n: nat) -> MonitorState
    decreases n,
{
    if n == 0 {
        initial_state()
    } else {
        ended(begun(after_rounds((n - 1) as nat)))
    }
}

impl MonitorState {
    /// Both counters within their bounds.
    pub open spec fn wf(&self) -> bool {
        &&& 1 <= self.update_counter <= UPDATE_COUNTER_LIMIT
        &&& self.account_counter <= ACCOUNT_COUNTER_LIMIT
    }

    /// The state before the first round: round one, no counter published yet.
    pub fn new() -> (r: MonitorState)
        ensures
            r == initial_state(),
            r.wf(),
    {
        MonitorState { update_counter: 1, account_counter: 0 }
    }

    /// Begins a round. While the account counter is under its limit it is
    /// incremented and its new value returned, to be published; after that it
    /// stays where it is and nothing is returned.
    pub fn begin_round(&mut self) -> (published: Option<u32>)
        requires
            old(self).wf(),
        ensures
            *final(self) == begun(*old(self)),
            final(self).wf(),
            old(self).account_counter < ACCOUNT_COUNTER_LIMIT ==> published == Some(
                final(self).account_counter,
            ),
            old(self).account_counter >= ACCOUNT_COUNTER_LIMIT ==> published is None,
    {
        if self.account_counter < ACCOUNT_COUNTER_LIMIT {
            self.account_counter = self.account_counter + 1;
            Some(self.account_counter)
        } else {
            None
        }
    }

    /// Ends a round: the round number moves up by one, and goes back to one
    /// once it would pass `UPDATE_COUNTER_LIMIT`. Returns whether it went back.
    pub fn end_round(&mut self) -> (restarted: bool)
        requires
            old(self).wf(),
        ensures
            *final(self) == ended(*old(self)),
            final(self).wf(),
            restarted == (old(self).update_counter == UPDATE_COUNTER_LIMIT),
    {
        if self.update_counter >= UPDATE_COUNTER_LIMIT {
            self.update_counter = 1;
            true
        } else {
            self.update_counter = self.update_counter + 1;
            false
        }
    }
}

/// Whether the fresh account must ask the faucet for funds: exactly when its
/// balance is zero.
pub fn needs_airdrop(balance: u64) -> (r: bool)
    ensures
        r == (balance == 0),
{
    balance == 0
}

/// After `n` rounds the account counter is `n`, capped at
/// `ACCOUNT_COUNTER_LIMIT`, and the round number is `n` modulo
/// `UPDATE_COUNTER_LIMIT`, plus one.
pub proof fn lemma_after_rounds(n: nat)
    ensures
        after_rounds(n).wf(),
        after_rounds(n).account_counter == if n < ACCOUNT_COUNTER_LIMIT {
            n
        } else {
            ACCOUNT_COUNTER_LIMIT as nat
        },
        after_rounds(n).update_counter == n % (UPDATE_COUNTER_LIMIT as nat) + 1,
    decreases n,
{
    if n > 0 {
        lemma_after_rounds((n - 1) as nat);
    }
}

} // verus!
