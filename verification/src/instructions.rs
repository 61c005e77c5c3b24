//! The six operations of the protocol.
//!
//! Each operation checks the accounts it is handed, then the order's phase and the clock,
//! and only then changes the registry and the order and names the transfers that go with
//! the change. An operation that is refused changes nothing and names no transfer, so the
//! caller performs the transfers and stores the records, or does neither.
//!
//! Every operation comes twice: as a function that derives the vault authority and the
//! order's address itself, and as a method `apply` of its accounts that is given them.

use vstd::prelude::*;
use crate::accounts::{
    CancelOrder, CreateOrder, GiveLoan, Initialize, Liquidate, OrderAccount, Payback,
    RegistryAccount,
};
use crate::address::Address;
use crate::derivation::{
    derive_order_address, find_order_address, new_order_address, order_address, vault_authority,
    vault_authority_address,
};
use crate::error::{ErrorCode, Failure};
use crate::lifecycle::OrderRequest;
use crate::state::{NFTCollaterizedLoans, Order};
use crate::transfer::Transfer;

verus! {

/// The failure that a broken rule of the accounts amounts to, or else the one given.
pub open spec fn invalid_or(violation: Option<crate::error::Violation>, otherwise: Option<Failure>) -> Option<
    Failure,
> {
    match violation {
        Some(v) => Some(Failure::Invalid(v)),
        None => otherwise,
    }
}

impl Initialize {
    /// The accounts after the registry was written.
    pub open spec fn initialized(self, nonce: u8) -> Initialize {
        Initialize {
            nft_collaterized_loans: RegistryAccount {
                key: self.nft_collaterized_loans.key,
                data: NFTCollaterizedLoans::genesis(
                    self.stablecoin_mint.key,
                    self.stablecoin_vault.key,
                    nonce,
                ),
            },
            ..self
        }
    }

    /// Writes a fresh registry, given the address that the registry's address and `nonce`
    /// derive.
    pub fn apply(&mut self, nonce: u8, authority: &Option<Address>) -> (r: Result<(), Failure>)
        ensures
            match old(self).violation(*authority) {
                Some(v) => r == Err::<(), Failure>(Failure::Invalid(v)) && *final(self) == *old(self),
                None => r is Ok && *final(self) == old(self).initialized(nonce),
            },
    {
        match self.check(authority) {
            Some(v) => Err(Failure::Invalid(v)),
            None => {
                self.nft_collaterized_loans.data = NFTCollaterizedLoans::new(
                    self.stablecoin_mint.key,
                    self.stablecoin_vault.key,
                    nonce,
                );
                Ok(())
            },
        }
    }
}

/// Writes a fresh registry for the given stable token and escrow account: no order yet,
/// nothing locked, and `nonce` kept for the vault authority. No asset moves.
pub fn initialize(ctx: &mut Initialize, nonce: u8) -> (r: Result<(), Failure>)
    ensures
        match old(ctx).violation(
            vault_authority(old(ctx).nft_collaterized_loans.key, nonce, old(ctx).program_id),
        ) {
            Some(v) => r == Err::<(), Failure>(Failure::Invalid(v)) && *final(ctx) == *old(ctx),
            None => r is Ok && *final(ctx) == old(ctx).initialized(nonce),
        },
{
    let authority = vault_authority_address(&ctx.nft_collaterized_loans.key, nonce, &ctx.program_id);
    ctx.apply(nonce, &authority)
}

impl CreateOrder {
    /// What the borrower of these accounts asks for and pledges.
    pub open spec fn request(
        self,
        nonce: u8,
        request_amount: u64,
        interest: u64,
        period: u64,
        additional_collateral: u64,
    ) -> OrderRequest {
        OrderRequest {
            borrower: self.borrower.key,
            nft_id: self.nft_mint.key,
            nft_escrow_account: self.nft_vault.key,
            borrower_stable_account: self.user_stablecoin_vault.key,
            requested_amount: request_amount,
            interest,
            period,
            additional_collateral,
            authority_bump: nonce,
        }
    }

    /// Why no order is created, if none is: a rule of the accounts is broken, or else the
    /// request cannot be opened.
    pub open spec fn failure(
        self,
        request: OrderRequest,
        authority: Option<Address>,
        place: Option<(Address, u8)>,
    ) -> Option<Failure> {
        invalid_or(
            self.violation(request.authority_bump, authority, place),
            Order::opening_failure(self.nft_collaterized_loans.data, request),
        )
    }

    /// The accounts after the order was created.
    pub open spec fn created(self, request: OrderRequest, now: u64) -> CreateOrder {
        CreateOrder {
            nft_collaterized_loans: RegistryAccount {
                key: self.nft_collaterized_loans.key,
                data: self.nft_collaterized_loans.data.after_locking(request.additional_collateral),
            },
            order: OrderAccount {
                key: self.order.key,
                data: Order::opened(
                    request,
                    self.nft_collaterized_loans.data.stable_escrow_account,
                    now,
                ),
            },
            ..self
        }
    }

    /// The transfers of a creation, both signed by the borrower: the pledged token into its
    /// escrow account, then the additional collateral into the registry's escrow account.
    pub open spec fn deposits(self, additional_collateral: u64) -> Seq<Transfer> {
        seq![
            Transfer::signed(self.user_nft_vault.key, self.nft_vault.key, self.borrower.key, 1),
            Transfer::signed(
                self.user_stablecoin_vault.key,
                self.stablecoin_vault.key,
                self.borrower.key,
                additional_collateral,
            ),
        ]
    }

    /// Creates an order, given the derived vault authority and the address found for the
    /// registry's next sequence number, with its bump seed.
    pub fn apply(
        &mut self,
        nonce: u8,
        request_amount: u64,
        interest: u64,
        period: u64,
        additional_collateral: u64,
        now: u64,
        authority: &Option<Address>,
        place: &Option<(Address, u8)>,
    ) -> (r: Result<Vec<Transfer>, Failure>)
        ensures
            ({
                let request = old(self).request(
                    nonce,
                    request_amount,
                    interest,
                    period,
                    additional_collateral,
                );
                match old(self).failure(request, *authority, *place) {
                    Some(f) => r == Err::<Vec<Transfer>, Failure>(f) && *final(self) == *old(self),
                    None => {
                        &&& r matches Ok(transfers)
                        &&& transfers@ == old(self).deposits(additional_collateral)
                        &&& *final(self) == old(self).created(request, now)
                    },
                }
            }),
    {
        if let Some(v) = self.check(nonce, authority, place) {
            return Err(Failure::Invalid(v));
        }
        let request = OrderRequest {
            borrower: self.borrower.key,
            nft_id: self.nft_mint.key,
            nft_escrow_account: self.nft_vault.key,
            borrower_stable_account: self.user_stablecoin_vault.key,
            requested_amount: request_amount,
            interest,
            period,
            additional_collateral,
            authority_bump: nonce,
        };
        let mut registry = self.nft_collaterized_loans.data;
        match Order::open(&mut registry, &request, now) {
            Err(f) => Err(f),
            Ok(order) => {
                let mut transfers: Vec<Transfer> = Vec::new();
                transfers.push(
                    Transfer::by_owner(self.user_nft_vault.key, self.nft_vault.key, self.borrower.key, 1),
                );
                transfers.push(
                    Transfer::by_owner(
                        self.user_stablecoin_vault.key,
                        self.stablecoin_vault.key,
                        self.borrower.key,
                        additional_collateral,
                    ),
                );
                assert(transfers@ =~= old(self).deposits(additional_collateral));
                self.nft_collaterized_loans.data = registry;
                self.order.data = order;
                Ok(transfers)
            },
        }
    }
}

/// Creates an order at `now`: the borrower pledges one unit of a unique token and
/// `additional_collateral` of the stable token, and asks for `request_amount` against
/// `interest`, to be repaid within `period` of its funding.
///
/// The order must lie at the address found for the registry's current sequence number, and
/// `nonce` must be the bump seed found with it. On success the order is open, the registry
/// counts the collateral as locked and moves on to the next sequence number, and the
/// order's address can be derived again from the sequence number and the bump seed that
/// the order stores.
pub fn create_order(
    ctx: &mut CreateOrder,
    nonce: u8,
    request_amount: u64,
    interest: u64,
    period: u64,
    additional_collateral: u64,
    now: u64,
) -> (r: Result<Vec<Transfer>, Failure>)
    ensures
        ({
            let registry = old(ctx).nft_collaterized_loans;
            let request = old(ctx).request(nonce, request_amount, interest, period, additional_collateral);
            let authority = vault_authority(registry.key, registry.data.authority_nonce, old(ctx).program_id);
            let place = new_order_address(registry.key, registry.data.order_sequence, old(ctx).program_id);
            &&& match old(ctx).failure(request, authority, place) {
                Some(f) => r == Err::<Vec<Transfer>, Failure>(f) && *final(ctx) == *old(ctx),
                None => {
                    &&& r matches Ok(transfers)
                    &&& transfers@ == old(ctx).deposits(additional_collateral)
                    &&& *final(ctx) == old(ctx).created(request, now)
                },
            }
            &&& r is Ok ==> order_address(
                registry.key,
                registry.data.order_sequence,
                final(ctx).order.data.authority_bump,
                old(ctx).program_id,
            ) == Some(final(ctx).order.key)
        }),
{
    let authority = vault_authority_address(
        &ctx.nft_collaterized_loans.key,
        ctx.nft_collaterized_loans.data.authority_nonce,
        &ctx.program_id,
    );
    let place = find_order_address(
        &ctx.nft_collaterized_loans.key,
        ctx.nft_collaterized_loans.data.order_sequence,
        &ctx.program_id,
    );
    ctx.apply(nonce, request_amount, interest, period, additional_collateral, now, &authority, &place)
}

impl CancelOrder {
    /// Why the order is not cancelled, if it is not: a rule of the accounts is broken, or
    /// else the order cannot be cancelled.
    pub open spec fn failure(self, authority: Option<Address>, place: Option<Address>) -> Option<Failure> {
        invalid_or(
            self.violation(authority, place),
            self.order.data.cancellation_failure(self.nft_collaterized_loans.data),
        )
    }

    /// The accounts after the cancellation.
    pub open spec fn cancelled(self) -> CancelOrder {
        CancelOrder {
            nft_collaterized_loans: RegistryAccount {
                key: self.nft_collaterized_loans.key,
                data: self.nft_collaterized_loans.data.after_releasing(
                    self.order.data.additional_collateral,
                ),
            },
            order: OrderAccount { key: self.order.key, data: self.order.data.cancelled() },
            ..self
        }
    }

    /// The transfers of a cancellation, both in the name of the vault authority: the
    /// pledged token, then the additional collateral, out of escrow to the borrower.
    pub open spec fn refunds(self) -> Seq<Transfer> {
        let registry = self.nft_collaterized_loans;
        seq![
            Transfer::from_escrow(
                self.nft_vault.key,
                self.user_nft_vault.key,
                registry.key,
                registry.data.authority_nonce,
                1,
            ),
            Transfer::from_escrow(
                self.stablecoin_vault.key,
                self.user_stablecoin_vault.key,
                registry.key,
                registry.data.authority_nonce,
                self.order.data.additional_collateral,
            ),
        ]
    }

    /// Cancels the order, given the derived vault authority and the derived address of the
    /// order.
    pub fn apply(&mut self, authority: &Option<Address>, place: &Option<Address>) -> (r: Result<
        Vec<Transfer>,
        Failure,
    >)
        ensures
            match old(self).failure(*authority, *place) {
                Some(f) => r == Err::<Vec<Transfer>, Failure>(f) && *final(self) == *old(self),
                None => {
                    &&& r matches Ok(transfers)
                    &&& transfers@ == old(self).refunds()
                    &&& *final(self) == old(self).cancelled()
                },
            },
    {
        if let Some(v) = self.check(authority, place) {
            return Err(Failure::Invalid(v));
        }
        let mut registry = self.nft_collaterized_loans.data;
        let mut order = self.order.data;
        match order.cancel(&mut registry) {
            Err(f) => Err(f),
            Ok(()) => {
                let mut transfers: Vec<Transfer> = Vec::new();
                transfers.push(
                    Transfer::by_vault(
                        self.nft_vault.key,
                        self.user_nft_vault.key,
                        self.nft_collaterized_loans.key,
                        registry.authority_nonce,
                        1,
                    ),
                );
                transfers.push(
                    Transfer::by_vault(
                        self.stablecoin_vault.key,
                        self.user_stablecoin_vault.key,
                        self.nft_collaterized_loans.key,
                        registry.authority_nonce,
                        order.additional_collateral,
                    ),
                );
                assert(transfers@ =~= old(self).refunds());
                self.nft_collaterized_loans.data = registry;
                self.order.data = order;
                Ok(transfers)
            },
        }
    }
}

/// Cancels the order with sequence number `order_id`, which must still be open: both pieces
/// of collateral go back to the borrower, the registry no longer counts the collateral as
/// locked, and the order is closed for good.
pub fn cancel_order(ctx: &mut CancelOrder, order_id: u64) -> (r: Result<Vec<Transfer>, Failure>)
    ensures
        ({
            let registry = old(ctx).nft_collaterized_loans;
            let authority = vault_authority(registry.key, registry.data.authority_nonce, old(ctx).program_id);
            let place = order_address(
                registry.key,
                order_id,
                old(ctx).order.data.authority_bump,
                old(ctx).program_id,
            );
            match old(ctx).failure(authority, place) {
                Some(f) => r == Err::<Vec<Transfer>, Failure>(f) && *final(ctx) == *old(ctx),
                None => {
                    &&& r matches Ok(transfers)
                    &&& transfers@ == old(ctx).refunds()
                    &&& *final(ctx) == old(ctx).cancelled()
                },
            }
        }),
{
    let authority = vault_authority_address(
        &ctx.nft_collaterized_loans.key,
        ctx.nft_collaterized_loans.data.authority_nonce,
        &ctx.program_id,
    );
    let place = derive_order_address(
        &ctx.nft_collaterized_loans.key,
        order_id,
        ctx.order.data.authority_bump,
        &ctx.program_id,
    );
    ctx.apply(&authority, &place)
}

impl GiveLoan {
    /// Why the order is not funded, if it is not: a rule of the accounts is broken, or
    /// else the order cannot be funded.
    pub open spec fn failure(self, authority: Option<Address>, place: Option<Address>) -> Option<Failure> {
        invalid_or(self.violation(authority, place), self.order.data.funding_failure())
    }

    /// The accounts after the funding at `now`.
    pub open spec fn funded(self, now: u64) -> GiveLoan {
        GiveLoan {
            order: OrderAccount { key: self.order.key, data: self.order.data.funded(self.lender.key, now) },
            ..self
        }
    }

    /// The transfer of a funding, signed by the lender: the principal, from the lender's
    /// account straight to the borrower's.
    pub open spec fn payout(self) -> Seq<Transfer> {
        seq![
            Transfer::signed(
                self.lender_stablecoin_vault.key,
                self.borrower_stablecoin_vault.key,
                self.lender.key,
                self.order.data.requested_amount,
            ),
        ]
    }

    /// Funds the order, given the derived vault authority and the derived address of the
    /// order.
    pub fn apply(&mut self, now: u64, authority: &Option<Address>, place: &Option<Address>) -> (r: Result<
        Vec<Transfer>,
        Failure,
    >)
        ensures
            match old(self).failure(*authority, *place) {
                Some(f) => r == Err::<Vec<Transfer>, Failure>(f) && *final(self) == *old(self),
                None => {
                    &&& r matches Ok(transfers)
                    &&& transfers@ == old(self).payout()
                    &&& *final(self) == old(self).funded(now)
                },
            },
            old(self).order.data.borrower == old(self).lender.key ==> r is Err,
    {
        if let Some(v) = self.check(authority, place) {
            return Err(Failure::Invalid(v));
        }
        let mut order = self.order.data;
        match order.fund(self.lender.key, now) {
            Err(f) => Err(f),
            Ok(()) => {
                let mut transfers: Vec<Transfer> = Vec::new();
                transfers.push(
                    Transfer::by_owner(
                        self.lender_stablecoin_vault.key,
                        self.borrower_stablecoin_vault.key,
                        self.lender.key,
                        order.requested_amount,
                    ),
                );
                assert(transfers@ =~= old(self).payout());
                self.order.data = order;
                Ok(transfers)
            },
        }
    }
}

/// Funds the order with sequence number `order_id`, which must still be open, at `now`: the
/// principal goes from the lender straight to the borrower, the lender and the time are
/// recorded, and the order is closed to other lenders and to cancellation.
///
/// A lender who is the borrower is refused before anything else is looked at but the
/// registry and the order's address.
pub fn give_loan(ctx: &mut GiveLoan, order_id: u64, now: u64) -> (r: Result<Vec<Transfer>, Failure>)
    ensures
        ({
            let registry = old(ctx).nft_collaterized_loans;
            let authority = vault_authority(registry.key, registry.data.authority_nonce, old(ctx).program_id);
            let place = order_address(
                registry.key,
                order_id,
                old(ctx).order.data.authority_bump,
                old(ctx).program_id,
            );
            match old(ctx).failure(authority, place) {
                Some(f) => r == Err::<Vec<Transfer>, Failure>(f) && *final(ctx) == *old(ctx),
                None => {
                    &&& r matches Ok(transfers)
                    &&& transfers@ == old(ctx).payout()
                    &&& *final(ctx) == old(ctx).funded(now)
                },
            }
        }),
        old(ctx).order.data.borrower == old(ctx).lender.key ==> r is Err,
{
    let authority = vault_authority_address(
        &ctx.nft_collaterized_loans.key,
        ctx.nft_collaterized_loans.data.authority_nonce,
        &ctx.program_id,
    );
    let place = derive_order_address(
        &ctx.nft_collaterized_loans.key,
        order_id,
        ctx.order.data.authority_bump,
        &ctx.program_id,
    );
    ctx.apply(now, &authority, &place)
}

impl Payback {
    /// Why the loan is not repaid, if it is not: a rule of the accounts is broken, or else
    /// the loan cannot be repaid at `now`.
    pub open spec fn failure(self, now: u64, authority: Option<Address>, place: Option<Address>) -> Option<
        Failure,
    > {
        invalid_or(
            self.violation(authority, place),
            self.order.data.repayment_failure(self.nft_collaterized_loans.data, now),
        )
    }

    /// The accounts after the repayment at `now`.
    pub open spec fn repaid(self, now: u64) -> Payback {
        Payback {
            nft_collaterized_loans: RegistryAccount {
                key: self.nft_collaterized_loans.key,
                data: self.nft_collaterized_loans.data.after_releasing(
                    self.order.data.additional_collateral,
                ),
            },
            order: OrderAccount { key: self.order.key, data: self.order.data.repaid(now) },
            ..self
        }
    }

    /// The transfers of a repayment: principal and interest from the borrower to the
    /// lender, signed by the borrower; then, in the name of the vault authority, the
    /// pledged token and the additional collateral out of escrow to the borrower.
    pub open spec fn settlement(self) -> Seq<Transfer> {
        let registry = self.nft_collaterized_loans;
        seq![
            Transfer::signed(
                self.user_stablecoin_vault.key,
                self.lender_stablecoin_vault.key,
                self.borrower.key,
                self.order.data.amount_due() as u64,
            ),
            Transfer::from_escrow(
                self.nft_vault.key,
                self.user_nft_vault.key,
                registry.key,
                registry.data.authority_nonce,
                1,
            ),
            Transfer::from_escrow(
                self.stablecoin_vault.key,
                self.user_stablecoin_vault.key,
                registry.key,
                registry.data.authority_nonce,
                self.order.data.additional_collateral,
            ),
        ]
    }

    /// Repays the loan, given the derived vault authority and the derived address of the
    /// order.
    pub fn apply(&mut self, now: u64, authority: &Option<Address>, place: &Option<Address>) -> (r: Result<
        Vec<Transfer>,
        Failure,
    >)
        ensures
            match old(self).failure(now, *authority, *place) {
                Some(f) => r == Err::<Vec<Transfer>, Failure>(f) && *final(self) == *old(self),
                None => {
                    &&& r matches Ok(transfers)
                    &&& transfers@ == old(self).settlement()
                    &&& old(self).order.data.amount_due() <= u64::MAX
                    &&& *final(self) == old(self).repaid(now)
                },
            },
            !old(self).order.data.was_funded() && old(self).violation(*authority, *place) is None
                ==> r == Err::<Vec<Transfer>, Failure>(Failure::Rejected(ErrorCode::LoanNotProvided)),
    {
        if let Some(v) = self.check(authority, place) {
            return Err(Failure::Invalid(v));
        }
        let mut registry = self.nft_collaterized_loans.data;
        let mut order = self.order.data;
        match order.repay(&mut registry, now) {
            Err(f) => Err(f),
            Ok(due) => {
                let mut transfers: Vec<Transfer> = Vec::new();
                transfers.push(
                    Transfer::by_owner(
                        self.user_stablecoin_vault.key,
                        self.lender_stablecoin_vault.key,
                        self.borrower.key,
                        due,
                    ),
                );
                transfers.push(
                    Transfer::by_vault(
                        self.nft_vault.key,
                        self.user_nft_vault.key,
                        self.nft_collaterized_loans.key,
                        registry.authority_nonce,
                        1,
                    ),
                );
                transfers.push(
                    Transfer::by_vault(
                        self.stablecoin_vault.key,
                        self.user_stablecoin_vault.key,
                        self.nft_collaterized_loans.key,
                        registry.authority_nonce,
                        order.additional_collateral,
                    ),
                );
                assert(transfers@ =~= old(self).settlement());
                self.nft_collaterized_loans.data = registry;
                self.order.data = order;
                Ok(transfers)
            },
        }
    }
}

/// Repays the funded loan of the order with sequence number `order_id` at `now`, no later
/// than its deadline: the lender receives principal and interest, the borrower both pieces
/// of collateral, the time is recorded and the registry no longer counts the collateral as
/// locked.
///
/// An order that was never funded is refused with `LoanNotProvided`, whatever the time and
/// whoever owns the account given for the lender.
pub fn payback(ctx: &mut Payback, order_id: u64, now: u64) -> (r: Result<Vec<Transfer>, Failure>)
    ensures
        ({
            let registry = old(ctx).nft_collaterized_loans;
            let authority = vault_authority(registry.key, registry.data.authority_nonce, old(ctx).program_id);
            let place = order_address(
                registry.key,
                order_id,
                old(ctx).order.data.authority_bump,
                old(ctx).program_id,
            );
            &&& match old(ctx).failure(now, authority, place) {
                Some(f) => r == Err::<Vec<Transfer>, Failure>(f) && *final(ctx) == *old(ctx),
                None => {
                    &&& r matches Ok(transfers)
                    &&& transfers@ == old(ctx).settlement()
                    &&& old(ctx).order.data.amount_due() <= u64::MAX
                    &&& *final(ctx) == old(ctx).repaid(now)
                },
            }
            &&& (!old(ctx).order.data.was_funded() && old(ctx).violation(authority, place) is None)
                ==> r == Err::<Vec<Transfer>, Failure>(Failure::Rejected(ErrorCode::LoanNotProvided))
        }),
{
    let authority = vault_authority_address(
        &ctx.nft_collaterized_loans.key,
        ctx.nft_collaterized_loans.data.authority_nonce,
        &ctx.program_id,
    );
    let place = derive_order_address(
        &ctx.nft_collaterized_loans.key,
        order_id,
        ctx.order.data.authority_bump,
        &ctx.program_id,
    );
    ctx.apply(now, &authority, &place)
}

impl Liquidate {
    /// Why the order is not liquidated, if it is not: a rule of the accounts is broken, or
    /// else the order cannot be liquidated at `now`.
    pub open spec fn failure(self, now: u64, authority: Option<Address>, place: Option<Address>) -> Option<
        Failure,
    > {
        invalid_or(
            self.violation(authority, place),
            self.order.data.liquidation_failure(self.nft_collaterized_loans.data, now),
        )
    }

    /// The accounts after the liquidation at `now`.
    pub open spec fn liquidated(self, now: u64) -> Liquidate {
        Liquidate {
            nft_collaterized_loans: RegistryAccount {
                key: self.nft_collaterized_loans.key,
                data: self.nft_collaterized_loans.data.after_releasing(
                    self.order.data.additional_collateral,
                ),
            },
            order: OrderAccount { key: self.order.key, data: self.order.data.liquidated(now) },
            ..self
        }
    }

    /// The transfers of a liquidation, both in the name of the vault authority: the pledged
    /// token, then the additional collateral, out of escrow to the lender.
    pub open spec fn seizure(self) -> Seq<Transfer> {
        let registry = self.nft_collaterized_loans;
        seq![
            Transfer::from_escrow(
                self.nft_vault.key,
                self.user_nft_vault.key,
                registry.key,
                registry.data.authority_nonce,
                1,
            ),
            Transfer::from_escrow(
                self.stablecoin_vault.key,
                self.lender_stablecoin_vault.key,
                registry.key,
                registry.data.authority_nonce,
                self.order.data.additional_collateral,
            ),
        ]
    }

    /// Liquidates the order, given the derived vault authority and the derived address of
    /// the order.
    pub fn apply(&mut self, now: u64, authority: &Option<Address>, place: &Option<Address>) -> (r: Result<
        Vec<Transfer>,
        Failure,
    >)
        ensures
            match old(self).failure(now, *authority, *place) {
                Some(f) => r == Err::<Vec<Transfer>, Failure>(f) && *final(self) == *old(self),
                None => {
                    &&& r matches Ok(transfers)
                    &&& transfers@ == old(self).seizure()
                    &&& *final(self) == old(self).liquidated(now)
                },
            },
            !old(self).order.data.was_funded() && old(self).violation(*authority, *place) is None
                ==> r == Err::<Vec<Transfer>, Failure>(Failure::Rejected(ErrorCode::LoanNotProvided)),
    {
        if let Some(v) = self.check(authority, place) {
            return Err(Failure::Invalid(v));
        }
        let mut registry = self.nft_collaterized_loans.data;
        let mut order = self.order.data;
        match order.foreclose(&mut registry, now) {
            Err(f) => Err(f),
            Ok(()) => {
                let mut transfers: Vec<Transfer> = Vec::new();
                transfers.push(
                    Transfer::by_vault(
                        self.nft_vault.key,
                        self.user_nft_vault.key,
                        self.nft_collaterized_loans.key,
                        registry.authority_nonce,
                        1,
                    ),
                );
                transfers.push(
                    Transfer::by_vault(
                        self.stablecoin_vault.key,
                        self.lender_stablecoin_vault.key,
                        self.nft_collaterized_loans.key,
                        registry.authority_nonce,
                        order.additional_collateral,
                    ),
                );
                assert(transfers@ =~= old(self).seizure());
                self.nft_collaterized_loans.data = registry;
                self.order.data = order;
                Ok(transfers)
            },
        }
    }
}

/// Liquidates the funded loan of the order with sequence number `order_id` at `now`, after
/// its deadline: both pieces of collateral go to the lender, the time is recorded and the
/// registry no longer counts the collateral as locked.
///
/// An order that was never funded is refused with `LoanNotProvided`, whatever the time and
/// whoever asks.
pub fn liquidate(ctx: &mut Liquidate, order_id: u64, now: u64) -> (r: Result<Vec<Transfer>, Failure>)
    ensures
        ({
            let registry = old(ctx).nft_collaterized_loans;
            let authority = vault_authority(registry.key, registry.data.authority_nonce, old(ctx).program_id);
            let place = order_address(
                registry.key,
                order_id,
                old(ctx).order.data.authority_bump,
                old(ctx).program_id,
            );
            &&& match old(ctx).failure(now, authority, place) {
                Some(f) => r == Err::<Vec<Transfer>, Failure>(f) && *final(ctx) == *old(ctx),
                None => {
                    &&& r matches Ok(transfers)
                    &&& transfers@ == old(ctx).seizure()
                    &&& *final(ctx) == old(ctx).liquidated(now)
                },
            }
            &&& (!old(ctx).order.data.was_funded() && old(ctx).violation(authority, place) is None)
                ==> r == Err::<Vec<Transfer>, Failure>(Failure::Rejected(ErrorCode::LoanNotProvided))
        }),
{
    let authority = vault_authority_address(
        &ctx.nft_collaterized_loans.key,
        ctx.nft_collaterized_loans.data.authority_nonce,
        &ctx.program_id,
    );
    let place = derive_order_address(
        &ctx.nft_collaterized_loans.key,
        order_id,
        ctx.order.data.authority_bump,
        &ctx.program_id,
    );
    ctx.apply(now, &authority, &place)
}

} // verus!
