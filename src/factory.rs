//! The factory: its configuration and registry of markets, and the saga that provisions
//! a market's two outcome tokens and the market itself.

pub mod admin;
pub mod contract;
pub mod error;
pub mod msg;
pub mod query;
pub mod state;
