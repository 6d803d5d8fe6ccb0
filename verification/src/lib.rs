//! A custodial balance ledger: every identity owns one vault whose address is
//! derived from the identity, and only the owner can move funds out of it.

pub mod authority;
pub mod balances;
pub mod ledger;
pub mod resolver;

pub use crate::authority::{
    deposit, get_user_balance, withdraw, Deposit, ErrorCode, GetBalance, Withdraw,
};
