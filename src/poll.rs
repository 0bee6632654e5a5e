//! The market engine: one market's staking ledger, epoch rewards, resolution and
//! withdrawals.

pub mod contract;
pub mod error;
pub mod msg;
pub mod query;
pub mod reward;
pub mod state;
