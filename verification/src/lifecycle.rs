//! The life of an order: which steps are legal, and what each does to the order and to the
//! registry's account of locked collateral.
//!
//! `Open --cancel--> Cancelled`, `Open --fund--> Funded`,
//! `Funded --repay, up to the deadline--> Repaid`,
//! `Funded --foreclose, after the deadline--> Liquidated`.
//! Nothing leads out of `Cancelled`, `Repaid` or `Liquidated`.

use vstd::prelude::*;
use crate::address::Address;
use crate::error::{ErrorCode, Failure};
use crate::state::{NFTCollaterizedLoans, Order, Phase};

verus! {

/// What a borrower asks for and pledges when creating an order.
#[derive(Clone, Copy, Debug, PartialEq, Eq)]
pub struct OrderRequest {
    pub borrower: Address,
    pub nft_id: Address,
    pub nft_escrow_account: Address,
    pub borrower_stable_account: Address,
    pub requested_amount: u64,
    pub interest: u64,
    pub period: u64,
    pub additional_collateral: u64,
    pub authority_bump: u8,
}

impl Order {
    /// The order as it is created: open, with no lender and no event but its creation.
    pub open spec fn opened(request: OrderRequest, escrow: Address, now: u64) -> Order {
        Order {
            borrower: request.borrower,
            lender: None,
            nft_id: request.nft_id,
            nft_escrow_account: request.nft_escrow_account,
            stable_escrow_account: escrow,
            borrower_stable_account: request.borrower_stable_account,
            requested_amount: request.requested_amount,
            interest: request.interest,
            period: request.period,
            additional_collateral: request.additional_collateral,
            created_at: now,
            funded_at: 0,
            repaid_at: 0,
            liquidated_at: 0,
            is_open: true,
            authority_bump: request.authority_bump,
        }
    }

    /// The order after its cancellation.
    pub open spec fn cancelled(self) -> Order {
        Order { is_open: false, ..self }
    }

    /// The order after `lender` funded it at `now`.
    pub open spec fn funded(self, lender: Address, now: u64) -> Order {
        Order { lender: Some(lender), funded_at: now, is_open: false, ..self }
    }

    /// The order after its repayment at `now`.
    pub open spec fn repaid(self, now: u64) -> Order {
        Order { repaid_at: now, ..self }
    }

    /// The order after its liquidation at `now`.
    pub open spec fn liquidated(self, now: u64) -> Order {
        Order { liquidated_at: now, ..self }
    }

    /// Why no order can be created for `request`, if it cannot: the principal is zero, or
    /// the registry's total or its counter would leave the range of `u64`.
    pub open spec fn opening_failure(registry: NFTCollaterizedLoans, request: OrderRequest) -> Option<
        Failure,
    > {
        if request.requested_amount == 0 {
            Some(Failure::Rejected(ErrorCode::AmountMustBeGreaterThanZero))
        } else if registry.total_locked_collateral + request.additional_collateral > u64::MAX {
            Some(Failure::Overflow)
        } else if registry.order_sequence == u64::MAX {
            Some(Failure::Overflow)
        } else {
            None
        }
    }

    /// Why the order cannot be cancelled, if it cannot: it is no longer open, or the
    /// registry accounts for less collateral than the order holds.
    pub open spec fn cancellation_failure(self, registry: NFTCollaterizedLoans) -> Option<Failure> {
        if self.phase() != Phase::Open {
            Some(Failure::Rejected(ErrorCode::LoanAlreadyStarted))
        } else if registry.total_locked_collateral < self.additional_collateral {
            Some(Failure::Overflow)
        } else {
            None
        }
    }

    /// Why the order cannot be funded, if it cannot: it is no longer open.
    pub open spec fn funding_failure(self) -> Option<Failure> {
        if self.phase() != Phase::Open {
            Some(Failure::Rejected(ErrorCode::LoanAlreadyStarted))
        } else {
            None
        }
    }

    /// Why the loan cannot be repaid at `now`, if it cannot. In this order: no loan awaits
    /// settlement; the deadline is not a `u64`; the deadline has passed; principal and
    /// interest together are not a `u64`; the registry accounts for less collateral than
    /// the order holds.
    pub open spec fn repayment_failure(self, registry: NFTCollaterizedLoans, now: u64) -> Option<
        Failure,
    > {
        if self.phase() != Phase::Funded {
            Some(Failure::Rejected(ErrorCode::LoanNotProvided))
        } else if self.deadline() > u64::MAX {
            Some(Failure::Overflow)
        } else if now > self.deadline() {
            Some(Failure::Rejected(ErrorCode::RepaymentPeriodExceeded))
        } else if self.amount_due() > u64::MAX {
            Some(Failure::Overflow)
        } else if registry.total_locked_collateral < self.additional_collateral {
            Some(Failure::Overflow)
        } else {
            None
        }
    }

    /// Why the order cannot be liquidated at `now`, if it cannot. In this order: it was
    /// never funded, or was repaid; the deadline is not a `u64`; the deadline has not
    /// passed; it was liquidated before; the registry accounts for less collateral than the
    /// order holds.
    pub open spec fn liquidation_failure(self, registry: NFTCollaterizedLoans, now: u64) -> Option<
        Failure,
    > {
        if self.phase() != Phase::Funded && self.phase() != Phase::Liquidated {
            Some(Failure::Rejected(ErrorCode::LoanNotProvided))
        } else if self.deadline() > u64::MAX {
            Some(Failure::Overflow)
        } else if now <= self.deadline() {
            Some(Failure::Rejected(ErrorCode::RepaymentPeriodNotExceeded))
        } else if self.phase() == Phase::Liquidated {
            Some(Failure::Rejected(ErrorCode::AlreadyLiquidated))
        } else if registry.total_locked_collateral < self.additional_collateral {
            Some(Failure::Overflow)
        } else {
            None
        }
    }

    /// Creates an order for `request` at `now`: the registry counts its collateral as
    /// locked and moves on to the next sequence number.
    pub fn open(registry: &mut NFTCollaterizedLoans, request: &OrderRequest, now: u64) -> (r: Result<
        Order,
        Failure,
    >)
        ensures
            match Order::opening_failure(*old(registry), *request) {
                Some(f) => r == Err::<Order, Failure>(f) && *final(registry) == *old(registry),
                None => {
                    &&& r == Ok::<Order, Failure>(
                        Order::opened(*request, old(registry).stable_escrow_account, now),
                    )
                    &&& *final(registry) == old(registry).after_locking(
                        request.additional_collateral,
                    )
                },
            },
            r matches Ok(order) ==> order.well_formed() && order.phase() == Phase::Open,
    {
        if request.requested_amount == 0 {
            return Err(Failure::Rejected(ErrorCode::AmountMustBeGreaterThanZero));
        }
        let total = match registry.total_locked_collateral.checked_add(request.additional_collateral) {
            Some(total) => total,
            None => {
                return Err(Failure::Overflow);
            },
        };
        let next = match registry.order_sequence.checked_add(1) {
            Some(next) => next,
            None => {
                return Err(Failure::Overflow);
            },
        };
        let order = Order {
            borrower: request.borrower,
            lender: None,
            nft_id: request.nft_id,
            nft_escrow_account: request.nft_escrow_account,
            stable_escrow_account: registry.stable_escrow_account,
            borrower_stable_account: request.borrower_stable_account,
            requested_amount: request.requested_amount,
            interest: request.interest,
            period: request.period,
            additional_collateral: request.additional_collateral,
            created_at: now,
            funded_at: 0,
            repaid_at: 0,
            liquidated_at: 0,
            is_open: true,
            authority_bump: request.authority_bump,
        };
        registry.total_locked_collateral = total;
        registry.order_sequence = next;
        Ok(order)
    }

    /// Cancels an open order: its collateral is no longer counted as locked.
    pub fn cancel(&mut self, registry: &mut NFTCollaterizedLoans) -> (r: Result<(), Failure>)
        ensures
            match old(self).cancellation_failure(*old(registry)) {
                Some(f) => {
                    &&& r == Err::<(), Failure>(f)
                    &&& *final(self) == *old(self)
                    &&& *final(registry) == *old(registry)
                },
                None => {
                    &&& r is Ok
                    &&& *final(self) == old(self).cancelled()
                    &&& *final(registry) == old(registry).after_releasing(
                        old(self).additional_collateral,
                    )
                },
            },
            old(self).well_formed() ==> final(self).well_formed(),
            r is Ok && old(self).well_formed() ==> final(self).phase() == Phase::Cancelled,
    {
        if !self.is_open {
            return Err(Failure::Rejected(ErrorCode::LoanAlreadyStarted));
        }
        let total = match registry.total_locked_collateral.checked_sub(self.additional_collateral) {
            Some(total) => total,
            None => {
                return Err(Failure::Overflow);
            },
        };
        registry.total_locked_collateral = total;
        self.is_open = false;
        Ok(())
    }

    /// Funds an open order: `lender` and the time are recorded, and the order is closed to
    /// other lenders and to cancellation.
    pub fn fund(&mut self, lender: Address, now: u64) -> (r: Result<(), Failure>)
        ensures
            match old(self).funding_failure() {
                Some(f) => r == Err::<(), Failure>(f) && *final(self) == *old(self),
                None => r is Ok && *final(self) == old(self).funded(lender, now),
            },
            old(self).well_formed() && now > 0 ==> final(self).well_formed(),
            r is Ok && old(self).well_formed() && now > 0 ==> final(self).phase() == Phase::Funded,
    {
        if !self.is_open {
            return Err(Failure::Rejected(ErrorCode::LoanAlreadyStarted));
        }
        self.lender = Some(lender);
        self.funded_at = now;
        self.is_open = false;
        Ok(())
    }

    /// Repays a funded loan no later than its deadline: the time is recorded and the
    /// collateral is no longer counted as locked. Returns what the borrower owes the
    /// lender, principal and interest.
    pub fn repay(&mut self, registry: &mut NFTCollaterizedLoans, now: u64) -> (r: Result<u64, Failure>)
        ensures
            match old(self).repayment_failure(*old(registry), now) {
                Some(f) => {
                    &&& r == Err::<u64, Failure>(f)
                    &&& *final(self) == *old(self)
                    &&& *final(registry) == *old(registry)
                },
                None => {
                    &&& r matches Ok(due)
                    &&& due == old(self).amount_due()
                    &&& *final(self) == old(self).repaid(now)
                    &&& *final(registry) == old(registry).after_releasing(
                        old(self).additional_collateral,
                    )
                },
            },
            old(self).well_formed() && now > 0 ==> final(self).well_formed(),
            r is Ok && now > 0 ==> final(self).phase() == Phase::Repaid,
    {
        match self.current_phase() {
            Phase::Funded => {},
            _ => {
                return Err(Failure::Rejected(ErrorCode::LoanNotProvided));
            },
        }
        let deadline = match self.funded_at.checked_add(self.period) {
            Some(deadline) => deadline,
            None => {
                return Err(Failure::Overflow);
            },
        };
        if now > deadline {
            return Err(Failure::Rejected(ErrorCode::RepaymentPeriodExceeded));
        }
        let due = match self.requested_amount.checked_add(self.interest) {
            Some(due) => due,
            None => {
                return Err(Failure::Overflow);
            },
        };
        let total = match registry.total_locked_collateral.checked_sub(self.additional_collateral) {
            Some(total) => total,
            None => {
                return Err(Failure::Overflow);
            },
        };
        registry.total_locked_collateral = total;
        self.repaid_at = now;
        Ok(due)
    }

    /// Liquidates a funded loan after its deadline: the time is recorded and the collateral
    /// is no longer counted as locked.
    pub fn foreclose(&mut self, registry: &mut NFTCollaterizedLoans, now: u64) -> (r: Result<
        (),
        Failure,
    >)
        ensures
            match old(self).liquidation_failure(*old(registry), now) {
                Some(f) => {
                    &&& r == Err::<(), Failure>(f)
                    &&& *final(self) == *old(self)
                    &&& *final(registry) == *old(registry)
                },
                None => {
                    &&& r is Ok
                    &&& *final(self) == old(self).liquidated(now)
                    &&& *final(registry) == old(registry).after_releasing(
                        old(self).additional_collateral,
                    )
                },
            },
            old(self).well_formed() ==> final(self).well_formed(),
            r is Ok ==> final(self).phase() == Phase::Liquidated,
    {
        let phase = self.current_phase();
        match phase {
            Phase::Funded => {},
            Phase::Liquidated => {},
            _ => {
                return Err(Failure::Rejected(ErrorCode::LoanNotProvided));
            },
        }
        let deadline = match self.funded_at.checked_add(self.period) {
            Some(deadline) => deadline,
            None => {
                return Err(Failure::Overflow);
            },
        };
        if now <= deadline {
            return Err(Failure::Rejected(ErrorCode::RepaymentPeriodNotExceeded));
        }
        match phase {
            Phase::Liquidated => {
                return Err(Failure::Rejected(ErrorCode::AlreadyLiquidated));
            },
            _ => {},
        }
        let total = match registry.total_locked_collateral.checked_sub(self.additional_collateral) {
            Some(total) => total,
            None => {
                return Err(Failure::Overflow);
            },
        };
        registry.total_locked_collateral = total;
        self.liquidated_at = now;
        Ok(())
    }
}

} // verus!
