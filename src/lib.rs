//! Decision logic of a devnet monitor that publishes an incrementing counter
//! as memo transactions: the round counters, the memo text and the memo
//! instruction.

pub mod chain;
pub mod memo;
pub mod schedule;
