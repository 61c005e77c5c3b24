//! A collateralized-lending protocol: a borrower escrows a unique token and an optional
//! amount of a stable token, any lender may fund the fixed loan, and the order is settled by
//! repayment or, after the deadline, by liquidation.

pub mod address;
pub mod derivation;
pub mod error;
pub mod state;
pub mod lifecycle;
pub mod protocol;
pub mod transfer;
pub mod accounts;
pub mod instructions;
pub mod custody;

pub use crate::accounts::{CancelOrder, CreateOrder, GiveLoan, Initialize, Liquidate, Payback};
pub use crate::address::Address;
pub use crate::error::{ErrorCode, Failure};
pub use crate::instructions::{cancel_order, create_order, give_loan, initialize, liquidate, payback};
pub use crate::state::{NFTCollaterizedLoans, Order};
pub use crate::transfer::Transfer;
