//! Why an operation was refused.

use vstd::prelude::*;

verus! {

/// The protocol's own reasons for refusing an operation.
#[derive(Clone, Copy, Debug, PartialEq, Eq, Structural)]
pub enum ErrorCode {
    /// The requested principal is zero.
    AmountMustBeGreaterThanZero,
    /// The order is no longer open: it was funded or cancelled before.
    LoanAlreadyStarted,
    /// The order has no loan awaiting settlement.
    LoanNotProvided,
    /// Repayment was attempted after the deadline.
    RepaymentPeriodExceeded,
    /// Liquidation was attempted before the deadline had passed.
    RepaymentPeriodNotExceeded,
    /// The order was liquidated before.
    AlreadyLiquidated,
}

impl ErrorCode {
    /// The message that goes with the code.
    pub fn message(&self) -> (r: &'static str)
        ensures
            r@ == self.message_text(),
    {
        match self {
            ErrorCode::AmountMustBeGreaterThanZero => "Amount must be greater than zero.",
            ErrorCode::LoanAlreadyStarted => "Loan has started or already been canceled",
            ErrorCode::LoanNotProvided => "Loan not provided yet",
            ErrorCode::RepaymentPeriodExceeded => "Repayment Period has been exceeded",
            ErrorCode::RepaymentPeriodNotExceeded => "Repayment Period has not been exceeded",
            ErrorCode::AlreadyLiquidated => "Already liquidated",
        }
    }

    /// The text of each code's message.
    pub open spec fn message_text(&self) -> Seq<char> {
        match self {
            ErrorCode::AmountMustBeGreaterThanZero => "Amount must be greater than zero."@,
            ErrorCode::LoanAlreadyStarted => "Loan has started or already been canceled"@,
            ErrorCode::LoanNotProvided => "Loan not provided yet"@,
            ErrorCode::RepaymentPeriodExceeded => "Repayment Period has been exceeded"@,
            ErrorCode::RepaymentPeriodNotExceeded => "Repayment Period has not been exceeded"@,
            ErrorCode::AlreadyLiquidated => "Already liquidated"@,
        }
    }
}

/// The kinds of rule that the accounts handed to an operation must satisfy.
#[derive(Clone, Copy, Debug, PartialEq, Eq, Structural)]
pub enum Constraint {
    /// The account's address is the one that its seeds derive.
    Seeds,
    /// The party signed the operation.
    Signer,
    /// A record names this very account in one of its fields.
    HasOne,
    /// A condition on the account's contents.
    Raw,
}

/// The accounts that take part in the operations, by the name of their role.
#[derive(Clone, Copy, Debug, PartialEq, Eq, Structural)]
pub enum AccountName {
    NftCollaterizedLoans,
    Order,
    StablecoinVault,
    UserStablecoinVault,
    LenderStablecoinVault,
    BorrowerStablecoinVault,
    NftMint,
    NftVault,
    UserNftVault,
    Borrower,
    Lender,
    Signer,
}

/// A rule that the accounts handed to an operation break: which account, and which kind of
/// rule.
#[derive(Clone, Copy, Debug, PartialEq, Eq, Structural)]
pub struct Violation {
    pub account: AccountName,
    pub constraint: Constraint,
}

/// Why an operation did nothing.
#[derive(Clone, Copy, Debug, PartialEq, Eq, Structural)]
pub enum Failure {
    /// The accounts break a rule; nothing else was looked at.
    Invalid(Violation),
    /// The accounts are in order and the protocol refuses the operation.
    Rejected(ErrorCode),
    /// An amount or a time left the range of sixty-four bits.
    Overflow,
}

} // verus!
