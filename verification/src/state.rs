//! The two persisted records: the registry and the order.

use vstd::prelude::*;
use crate::address::{zero_address, Address};

verus! {

/// The registry: the one record that configures a deployment and keeps its accounts.
#[derive(Clone, Copy, Debug, PartialEq, Eq)]
pub struct NFTCollaterizedLoans {
    /// The stable token in which principal, interest and collateral are counted.
    pub stable_asset_id: Address,
    /// The escrow account, owned by the vault authority, that holds the locked collateral.
    pub stable_escrow_account: Address,
    /// The sequence number that the next order gets.
    pub order_sequence: u64,
    /// The additional collateral that is locked across all orders not yet settled.
    pub total_locked_collateral: u64,
    /// The nonce from which, with the registry's address, the vault authority is derived.
    pub authority_nonce: u8,
}

impl NFTCollaterizedLoans {
    /// The registry as `initialize` writes it: no order yet, nothing locked.
    pub open spec fn genesis(asset: Address, escrow: Address, nonce: u8) -> NFTCollaterizedLoans {
        NFTCollaterizedLoans {
            stable_asset_id: asset,
            stable_escrow_account: escrow,
            order_sequence: 0,
            total_locked_collateral: 0,
            authority_nonce: nonce,
        }
    }

    /// The registry after an order with the given collateral was created.
    pub open spec fn after_locking(self, collateral: u64) -> NFTCollaterizedLoans {
        NFTCollaterizedLoans {
            order_sequence: (self.order_sequence + 1) as u64,
            total_locked_collateral: (self.total_locked_collateral + collateral) as u64,
            ..self
        }
    }

    /// The registry after an order with the given collateral was settled.
    pub open spec fn after_releasing(self, collateral: u64) -> NFTCollaterizedLoans {
        NFTCollaterizedLoans {
            total_locked_collateral: (self.total_locked_collateral - collateral) as u64,
            ..self
        }
    }

    /// A fresh registry.
    pub fn new(asset: Address, escrow: Address, nonce: u8) -> (r: NFTCollaterizedLoans)
        ensures
            r == NFTCollaterizedLoans::genesis(asset, escrow, nonce),
    {
        NFTCollaterizedLoans {
            stable_asset_id: asset,
            stable_escrow_account: escrow,
            order_sequence: 0,
            total_locked_collateral: 0,
            authority_nonce: nonce,
        }
    }
}

/// Where an order stands in its life.
#[derive(Clone, Copy, Debug, PartialEq, Eq, Structural)]
pub enum Phase {
    /// Created; awaiting a lender or cancellation.
    Open,
    /// Cancelled by the borrower before any lender came. Final.
    Cancelled,
    /// Funded by a lender; awaiting repayment or liquidation.
    Funded,
    /// Repaid by the borrower in time. Final.
    Repaid,
    /// Liquidated by the lender after the deadline. Final.
    Liquidated,
}

/// One loan engagement, from its creation to its final outcome.
#[derive(Clone, Copy, Debug, PartialEq, Eq)]
pub struct Order {
    /// Who posted the collateral.
    pub borrower: Address,
    /// Who funded the loan; `None` until the order is funded.
    pub lender: Option<Address>,
    /// The pledged unique token.
    pub nft_id: Address,
    /// The escrow account that holds the pledged token.
    pub nft_escrow_account: Address,
    /// The escrow account that holds the additional collateral.
    pub stable_escrow_account: Address,
    /// The borrower's own stable-token account, to which returns go.
    pub borrower_stable_account: Address,
    /// The principal.
    pub requested_amount: u64,
    /// The fixed interest owed on top of the principal.
    pub interest: u64,
    /// The time from funding to the deadline.
    pub period: u64,
    /// The stable-token collateral pledged beside the unique token.
    pub additional_collateral: u64,
    /// When the order was created.
    pub created_at: u64,
    /// When the order was funded; 0 while it has not been.
    pub funded_at: u64,
    /// When the loan was repaid; 0 while it has not been.
    pub repaid_at: u64,
    /// When the order was liquidated; 0 while it has not been.
    pub liquidated_at: u64,
    /// Whether the order still awaits a lender or cancellation.
    pub is_open: bool,
    /// The bump seed with which the order's address is derived again.
    pub authority_bump: u8,
}

impl Default for Order {
    /// The record before anything is written to it.
    fn default() -> (r: Order)
        ensures
            r == Order::blank(),
    {
        let zero = Address::zero();
        Order {
            borrower: zero,
            lender: None,
            nft_id: zero,
            nft_escrow_account: zero,
            stable_escrow_account: zero,
            borrower_stable_account: zero,
            requested_amount: 0,
            interest: 0,
            period: 0,
            additional_collateral: 0,
            created_at: 0,
            funded_at: 0,
            repaid_at: 0,
            liquidated_at: 0,
            is_open: false,
            authority_bump: 0,
        }
    }
}

impl Order {
    /// The record before anything is written to it: every address and number zero, no
    /// lender, not open.
    pub open spec fn blank() -> Order {
        Order {
            borrower: zero_address(),
            lender: None,
            nft_id: zero_address(),
            nft_escrow_account: zero_address(),
            stable_escrow_account: zero_address(),
            borrower_stable_account: zero_address(),
            requested_amount: 0,
            interest: 0,
            period: 0,
            additional_collateral: 0,
            created_at: 0,
            funded_at: 0,
            repaid_at: 0,
            liquidated_at: 0,
            is_open: false,
            authority_bump: 0,
        }
    }

    /// The phase that the fields of the order record.
    pub open spec fn phase(self) -> Phase {
        if self.is_open {
            Phase::Open
        } else if self.funded_at == 0 {
            Phase::Cancelled
        } else if self.liquidated_at != 0 {
            Phase::Liquidated
        } else if self.repaid_at != 0 {
            Phase::Repaid
        } else {
            Phase::Funded
        }
    }

    /// Whether a lender has funded the order: the time of the funding is recorded.
    pub open spec fn was_funded(self) -> bool {
        self.funded_at != 0
    }

    /// Whether the order's additional collateral is still in escrow: it is while the order
    /// is open, and while it is funded and neither repaid nor liquidated.
    pub open spec fn holds_collateral(self) -> bool {
        self.phase() == Phase::Open || self.phase() == Phase::Funded
    }

    /// The last moment at which the loan may be repaid.
    pub open spec fn deadline(self) -> int {
        self.funded_at + self.period
    }

    /// What is owed at repayment: principal and interest.
    pub open spec fn amount_due(self) -> int {
        self.requested_amount + self.interest
    }

    /// The fields agree with one another: an event that has not occurred left no trace, and
    /// no order is both repaid and liquidated.
    pub open spec fn well_formed(self) -> bool {
        &&& self.is_open ==> self.funded_at == 0
        &&& (self.funded_at == 0 <==> self.lender is None)
        &&& self.funded_at == 0 ==> self.repaid_at == 0 && self.liquidated_at == 0
        &&& self.repaid_at == 0 || self.liquidated_at == 0
        &&& self.repaid_at != 0 ==> self.repaid_at <= self.deadline()
        &&& self.liquidated_at != 0 ==> self.liquidated_at > self.deadline()
    }

    /// Whether a lender has funded the order.
    pub fn has_been_funded(&self) -> (r: bool)
        ensures
            r == self.was_funded(),
    {
        self.funded_at != 0
    }

    /// The phase of the order.
    pub fn current_phase(&self) -> (r: Phase)
        ensures
            r == self.phase(),
    {
        if self.is_open {
            Phase::Open
        } else if self.funded_at == 0 {
            Phase::Cancelled
        } else if self.liquidated_at != 0 {
            Phase::Liquidated
        } else if self.repaid_at != 0 {
            Phase::Repaid
        } else {
            Phase::Funded
        }
    }
}

} // verus!
