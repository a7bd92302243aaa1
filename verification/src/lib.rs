//! Flash withdrawal with immediate restaking for a gem staking farm.
//!
//! A farmer takes gems out of a locked vault and, in the same operation, has
//! them counted into the active stake. The bank that keeps the vault is a
//! program of its own, so the operation is written as a state machine:
//! [`flash_withdraw::handler`] takes what the bank answered and says what to ask
//! next. [`invocation`] states what holds of every course the machine can take.
//!
//! - [`state`]: the farm, the farmer and the vault as records
//! - [`rewards`]: accrual of rewards over time
//! - [`staking`]: adding to a stake
//! - [`rarity`]: rarity points of gems
//! - [`bank`]: the calls into the bank, as plain values

pub mod bank;
pub mod error;
pub mod flash_withdraw;
pub mod invocation;
pub mod key;
pub mod rarity;
pub mod rewards;
pub mod staking;
pub mod state;
