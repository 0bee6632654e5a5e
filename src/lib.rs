//! A factory-managed prediction market: a factory provisions each market through a
//! three-step creation saga, and every market runs a time-boxed staking ledger with
//! epoch rewards, a one-shot resolution and stake withdrawal.
//!
//! Host storage, address validation, queries to other contracts and message encoding
//! stay with the caller: every operation here takes plain values and hands back the
//! messages the host has to send.

pub mod coin;
pub mod factory;
pub mod math;
pub mod poll;
