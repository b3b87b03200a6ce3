//! The two operations of the vault.

pub mod deposit;
pub mod withdraw;

pub use deposit::{Deposit, DepositAccounts, DepositInstructionData};
pub use withdraw::{Withdraw, WithdrawAccounts, WithdrawInstructionData};
