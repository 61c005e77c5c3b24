//! The deployment as a whole: its registry together with every order created under it, and
//! what holds of every state that it can reach.

use vstd::prelude::*;
use crate::accounts::{
    CancelOrder, CreateOrder, GiveLoan, Liquidate, OrderAccount, Payback, TokenAccount,
};
use crate::address::Address;
use crate::error::{ErrorCode, Failure};
use crate::instructions::invalid_or;
use crate::lifecycle::OrderRequest;
use crate::state::{NFTCollaterizedLoans, Order, Phase};

verus! {

/// The registry and the orders created under it; the order with sequence number `i` is
/// `orders[i]`.
pub struct Protocol {
    pub registry: NFTCollaterizedLoans,
    pub orders: Seq<Order>,
}

/// One attempted operation on the deployment.
pub enum Step {
    /// A borrower asks for a new order.
    Create { request: OrderRequest, now: u64 },
    /// The borrower cancels order `id`.
    Cancel { id: nat },
    /// `lender` funds order `id`.
    Fund { id: nat, lender: Address, now: u64 },
    /// The borrower repays order `id`.
    Repay { id: nat, now: u64 },
    /// The lender liquidates order `id`.
    Liquidate { id: nat, now: u64 },
}

impl Step {
    /// The clock reads a time after 0 where the step is a funding or a repayment. A time of
    /// 0 recorded in an order reads as "has not occurred".
    pub open spec fn clock_is_set(self) -> bool {
        match self {
            Step::Fund { now, .. } => now > 0,
            Step::Repay { now, .. } => now > 0,
            _ => true,
        }
    }
}

/// What an order adds to the locked collateral: its additional collateral while that is in
/// escrow, nothing once the order is settled.
pub open spec fn locked_by(order: Order) -> nat {
    if order.holds_collateral() {
        order.additional_collateral as nat
    } else {
        0
    }
}

/// The additional collateral that the given orders hold in escrow, together.
pub open spec fn locked(orders: Seq<Order>) -> nat
    decreases orders.len(),
{
    if orders.len() == 0 {
        0
    } else {
        locked(orders.drop_last()) + locked_by(orders.last())
    }
}

impl Protocol {
    /// The deployment right after `initialize`.
    pub open spec fn genesis(asset: Address, escrow: Address, nonce: u8) -> Protocol {
        Protocol { registry: NFTCollaterizedLoans::genesis(asset, escrow, nonce), orders: Seq::empty() }
    }

    /// Whether the attempted operation goes through.
    pub open spec fn accepts(self, s: Step) -> bool {
        match s {
            Step::Create { request, now } => Order::opening_failure(self.registry, request) is None,
            Step::Cancel { id } => id < self.orders.len() && self.orders[id as int].cancellation_failure(
                self.registry,
            ) is None,
            Step::Fund { id, lender, now } => id < self.orders.len()
                && self.orders[id as int].funding_failure() is None,
            Step::Repay { id, now } => id < self.orders.len()
                && self.orders[id as int].repayment_failure(self.registry, now) is None,
            Step::Liquidate { id, now } => id < self.orders.len()
                && self.orders[id as int].liquidation_failure(self.registry, now) is None,
        }
    }

    /// The deployment after the attempted operation: as the operation leaves it where it
    /// goes through, unchanged where it is refused.
    pub open spec fn step(self, s: Step) -> Protocol {
        if !self.accepts(s) {
            self
        } else {
            match s {
                Step::Create { request, now } => Protocol {
                    registry: self.registry.after_locking(request.additional_collateral),
                    orders: self.orders.push(
                        Order::opened(request, self.registry.stable_escrow_account, now),
                    ),
                },
                Step::Cancel { id } => Protocol {
                    registry: self.registry.after_releasing(
                        self.orders[id as int].additional_collateral,
                    ),
                    orders: self.orders.update(id as int, self.orders[id as int].cancelled()),
                },
                Step::Fund { id, lender, now } => Protocol {
                    registry: self.registry,
                    orders: self.orders.update(id as int, self.orders[id as int].funded(lender, now)),
                },
                Step::Repay { id, now } => Protocol {
                    registry: self.registry.after_releasing(
                        self.orders[id as int].additional_collateral,
                    ),
                    orders: self.orders.update(id as int, self.orders[id as int].repaid(now)),
                },
                Step::Liquidate { id, now } => Protocol {
                    registry: self.registry.after_releasing(
                        self.orders[id as int].additional_collateral,
                    ),
                    orders: self.orders.update(id as int, self.orders[id as int].liquidated(now)),
                },
            }
        }
    }

    /// The deployment after the attempted operations, in order.
    pub open spec fn after(self, steps: Seq<Step>) -> Protocol
        decreases steps.len(),
    {
        if steps.len() == 0 {
            self
        } else {
            self.after(steps.drop_last()).step(steps.last())
        }
    }

    /// Every funding and every repayment that goes through in the course of `steps` happens
    /// at a time after 0.
    pub open spec fn clock_was_set(self, steps: Seq<Step>) -> bool
        decreases steps.len(),
    {
        if steps.len() == 0 {
            true
        } else {
            &&& self.clock_was_set(steps.drop_last())
            &&& self.after(steps.drop_last()).accepts(steps.last()) ==> steps.last().clock_is_set()
        }
    }

    /// The registry's total is the collateral that the orders hold in escrow.
    pub open spec fn balanced(self) -> bool {
        self.registry.total_locked_collateral == locked(self.orders)
    }

    /// The registry accounts for the orders: its total is what they hold in escrow, its
    /// counter is their number, and each order's fields agree with one another.
    pub open spec fn consistent(self) -> bool {
        &&& self.balanced()
        &&& self.registry.order_sequence == self.orders.len()
        &&& forall|i: int| 0 <= i < self.orders.len() ==> (#[trigger] self.orders[i]).well_formed()
    }

    /// How often, in the course of `steps`, order `id` was cancelled.
    pub open spec fn cancellations(self, steps: Seq<Step>, id: nat) -> nat
        decreases steps.len(),
    {
        if steps.len() == 0 {
            0
        } else {
            let before = self.after(steps.drop_last());
            let last = if steps.last() == (Step::Cancel { id }) && before.accepts(steps.last()) {
                1nat
            } else {
                0nat
            };
            self.cancellations(steps.drop_last(), id) + last
        }
    }

    /// How often, in the course of `steps`, order `id` was funded.
    pub open spec fn fundings(self, steps: Seq<Step>, id: nat) -> nat
        decreases steps.len(),
    {
        if steps.len() == 0 {
            0
        } else {
            let before = self.after(steps.drop_last());
            let last = if (steps.last() matches Step::Fund { id: funded, .. } && funded == id)
                && before.accepts(steps.last()) {
                1nat
            } else {
                0nat
            };
            self.fundings(steps.drop_last(), id) + last
        }
    }
}

/// Replacing one order changes the locked collateral by the difference of what the two
/// orders lock.
pub proof fn locked_after_update(orders: Seq<Order>, i: int, order: Order)
    requires
        0 <= i < orders.len(),
    ensures
        locked(orders.update(i, order)) == locked(orders) - locked_by(orders[i]) + locked_by(order),
        locked_by(orders[i]) <= locked(orders),
    decreases orders.len(),
{
    let updated = orders.update(i, order);
    if i == orders.len() - 1 {
        assert(updated.drop_last() =~= orders.drop_last());
    } else {
        locked_after_update(orders.drop_last(), i, order);
        assert(updated.drop_last() =~= orders.drop_last().update(i, order));
    }
}

/// A new order adds what it locks.
pub proof fn locked_after_push(orders: Seq<Order>, order: Order)
    ensures
        locked(orders.push(order)) == locked(orders) + locked_by(order),
{
    assert(orders.push(order).drop_last() =~= orders);
}

/// One attempted operation keeps a consistent deployment consistent, where a funding or a
/// repayment that goes through happens at a time after 0.
pub proof fn step_keeps_consistent(p: Protocol, s: Step)
    requires
        p.consistent(),
        p.accepts(s) ==> s.clock_is_set(),
    ensures
        p.step(s).consistent(),
{
    if p.accepts(s) {
        let q = p.step(s);
        match s {
            Step::Create { request, now } => {
                let order = Order::opened(request, p.registry.stable_escrow_account, now);
                locked_after_push(p.orders, order);
                assert forall|i: int| 0 <= i < q.orders.len() implies (#[trigger] q.orders[i]).well_formed() by {
                    if i < p.orders.len() {
                        assert(q.orders[i] == p.orders[i]);
                    }
                }
            },
            Step::Cancel { id } => {
                locked_after_update(p.orders, id as int, p.orders[id as int].cancelled());
                assert(p.orders[id as int].well_formed());
            },
            Step::Fund { id, lender, now } => {
                locked_after_update(p.orders, id as int, p.orders[id as int].funded(lender, now));
                assert(p.orders[id as int].well_formed());
            },
            Step::Repay { id, now } => {
                locked_after_update(p.orders, id as int, p.orders[id as int].repaid(now));
                assert(p.orders[id as int].well_formed());
            },
            Step::Liquidate { id, now } => {
                locked_after_update(p.orders, id as int, p.orders[id as int].liquidated(now));
                assert(p.orders[id as int].well_formed());
            },
        }
    }
}

/// In every state that a deployment reaches from its initialization, the registry's total
/// of locked collateral is the sum of the additional collateral of the orders that are open
/// or funded and not yet repaid or liquidated; the counter is the number of orders created.
/// This is so where every funding and repayment that goes through happens at a time after
/// 0.
pub proof fn total_is_locked_collateral(asset: Address, escrow: Address, nonce: u8, steps: Seq<Step>)
    requires
        Protocol::genesis(asset, escrow, nonce).clock_was_set(steps),
    ensures
        Protocol::genesis(asset, escrow, nonce).after(steps).consistent(),
        Protocol::genesis(asset, escrow, nonce).after(steps).registry.total_locked_collateral
            == locked(Protocol::genesis(asset, escrow, nonce).after(steps).orders),
    decreases steps.len(),
{
    let start = Protocol::genesis(asset, escrow, nonce);
    if steps.len() == 0 {
        assert(locked(start.orders) == 0);
    } else {
        total_is_locked_collateral(asset, escrow, nonce, steps.drop_last());
        step_keeps_consistent(start.after(steps.drop_last()), steps.last());
    }
}

/// In a consistent deployment no settlement fails for want of accounted collateral: a
/// cancellation, repayment or liquidation is refused only for the protocol's own reasons or
/// because a time or an amount due is out of range.
pub proof fn collateral_is_accounted_for(p: Protocol, id: nat)
    requires
        p.consistent(),
        id < p.orders.len(),
        p.orders[id as int].holds_collateral(),
    ensures
        p.registry.total_locked_collateral >= p.orders[id as int].additional_collateral,
{
    locked_after_update(p.orders, id as int, p.orders[id as int]);
}

/// No operation opens an order again, and no order is ever lost.
pub proof fn closed_stays_closed(p: Protocol, steps: Seq<Step>, id: nat)
    requires
        id < p.orders.len(),
        !p.orders[id as int].is_open,
    ensures
        id < p.after(steps).orders.len(),
        !p.after(steps).orders[id as int].is_open,
    decreases steps.len(),
{
    if steps.len() > 0 {
        closed_stays_closed(p, steps.drop_last(), id);
    }
}

/// The registry's counter only grows and no order is lost: a sequence number, once given,
/// is never given again.
pub proof fn orders_are_kept(p: Protocol, steps: Seq<Step>)
    ensures
        p.orders.len() <= p.after(steps).orders.len(),
        p.registry.order_sequence <= p.after(steps).registry.order_sequence,
    decreases steps.len(),
{
    if steps.len() > 0 {
        orders_are_kept(p, steps.drop_last());
    }
}

/// An order is closed if and only if exactly one of the two has occurred: it was cancelled,
/// or it was funded. Neither occurs twice, nor both.
pub proof fn closed_iff_cancelled_or_funded(
    asset: Address,
    escrow: Address,
    nonce: u8,
    steps: Seq<Step>,
    id: nat,
)
    requires
        id < Protocol::genesis(asset, escrow, nonce).after(steps).orders.len(),
    ensures
        ({
            let start = Protocol::genesis(asset, escrow, nonce);
            let closings = start.cancellations(steps, id) + start.fundings(steps, id);
            &&& closings <= 1
            &&& !start.after(steps).orders[id as int].is_open <==> closings == 1
        }),
    decreases steps.len(),
{
    let start = Protocol::genesis(asset, escrow, nonce);
    if steps.len() > 0 {
        let before = start.after(steps.drop_last());
        if id < before.orders.len() {
            closed_iff_cancelled_or_funded(asset, escrow, nonce, steps.drop_last(), id);
        } else {
            never_touched_before_creation(start, steps.drop_last(), id);
        }
    }
}

/// Before an order exists it was neither cancelled nor funded.
pub proof fn never_touched_before_creation(p: Protocol, steps: Seq<Step>, id: nat)
    requires
        id >= p.after(steps).orders.len(),
    ensures
        p.cancellations(steps, id) == 0,
        p.fundings(steps, id) == 0,
    decreases steps.len(),
{
    if steps.len() > 0 {
        never_touched_before_creation(p, steps.drop_last(), id);
    }
}

/// A second liquidation is refused: with `AlreadyLiquidated` once the deadline has passed,
/// and before it, where the clock has gone back, because the deadline has not passed.
pub proof fn second_liquidation_is_refused(
    order: Order,
    registry: NFTCollaterizedLoans,
    now: u64,
    later_registry: NFTCollaterizedLoans,
    later: u64,
)
    requires
        order.liquidation_failure(registry, now) is None,
    ensures
        order.liquidated(now).liquidation_failure(later_registry, later) == Some(
            if later > order.deadline() {
                Failure::Rejected(ErrorCode::AlreadyLiquidated)
            } else {
                Failure::Rejected(ErrorCode::RepaymentPeriodNotExceeded)
            },
        ),
        later >= now ==> order.liquidated(now).liquidation_failure(later_registry, later) == Some(
            Failure::Rejected(ErrorCode::AlreadyLiquidated),
        ),
{
}

/// Repayment of a loan that was repaid before is refused with `LoanNotProvided`.
pub proof fn second_repayment_is_refused(
    order: Order,
    registry: NFTCollaterizedLoans,
    now: u64,
    later_registry: NFTCollaterizedLoans,
    later: u64,
)
    requires
        order.repayment_failure(registry, now) is None,
        now > 0,
    ensures
        order.repaid(now).repayment_failure(later_registry, later) == Some(
            Failure::Rejected(ErrorCode::LoanNotProvided),
        ),
{
}

/// One moment past the deadline of a funded loan, repayment is refused as late, and the
/// liquidation goes through wherever the registry accounts for the order's collateral, as
/// it does in every consistent deployment.
pub proof fn just_past_the_deadline(order: Order, registry: NFTCollaterizedLoans, now: u64)
    requires
        order.phase() == Phase::Funded,
        now == order.deadline() + 1,
    ensures
        order.repayment_failure(registry, now) == Some(
            Failure::Rejected(ErrorCode::RepaymentPeriodExceeded),
        ),
        registry.total_locked_collateral >= order.additional_collateral
            ==> order.liquidation_failure(registry, now) is None,
{
}

/// One moment before the deadline of a funded loan, and at the deadline itself, liquidation
/// is refused as early. The deadline is a time that the clock can show.
pub proof fn not_past_the_deadline(order: Order, registry: NFTCollaterizedLoans, now: u64)
    requires
        order.phase() == Phase::Funded,
        order.deadline() <= u64::MAX,
        now == order.deadline() - 1 || now == order.deadline(),
    ensures
        order.liquidation_failure(registry, now) == Some(
            Failure::Rejected(ErrorCode::RepaymentPeriodNotExceeded),
        ),
{
}

/// A round trip restores the registry's total: where an order is created, funded at a time
/// after 0 and repaid no earlier and by its deadline, with a deadline and an amount due in
/// range, each of the three goes through, the repayment is of principal and interest, and the registry
/// holds as much locked collateral afterwards as before.
pub proof fn round_trip_restores_the_total(
    registry: NFTCollaterizedLoans,
    request: OrderRequest,
    lender: Address,
    created_at: u64,
    funded_at: u64,
    repaid_at: u64,
)
    requires
        Order::opening_failure(registry, request) is None,
        0 < funded_at <= repaid_at <= funded_at + request.period <= u64::MAX,
        request.requested_amount + request.interest <= u64::MAX,
    ensures
        ({
            let opened = Order::opened(request, registry.stable_escrow_account, created_at);
            let locked = registry.after_locking(request.additional_collateral);
            let funded = opened.funded(lender, funded_at);
            let released = locked.after_releasing(request.additional_collateral);
            &&& opened.funding_failure() is None
            &&& funded.repayment_failure(locked, repaid_at) is None
            &&& funded.amount_due() == request.requested_amount + request.interest
            &&& funded.repaid(repaid_at).phase() == Phase::Repaid
            &&& released.total_locked_collateral == registry.total_locked_collateral
            &&& released.order_sequence == registry.order_sequence + 1
        }),
{
}

/// Repayment of an order that was never funded, open or cancelled, is refused with
/// `LoanNotProvided` at any time, unless another rule of the accounts is broken. The rules
/// ask nothing about the lender of such an order: they are kept or broken alike whichever
/// lender the order names and whoever owns the account given for the lender.
pub proof fn unfunded_order_is_not_repaid(
    ctx: Payback,
    now: u64,
    authority: Option<Address>,
    place: Option<Address>,
    lender: Option<Address>,
    owner: Address,
)
    requires
        !ctx.order.data.was_funded(),
    ensures
        ctx.failure(now, authority, place) == invalid_or(
            ctx.violation(authority, place),
            Some(Failure::Rejected(ErrorCode::LoanNotProvided)),
        ),
        (Payback {
            order: OrderAccount { key: ctx.order.key, data: Order { lender, ..ctx.order.data } },
            lender_stablecoin_vault: TokenAccount { owner, ..ctx.lender_stablecoin_vault },
            ..ctx
        }).violation(authority, place) == ctx.violation(authority, place),
{
}

/// Liquidation of an order that was never funded, open or cancelled, is refused with
/// `LoanNotProvided` at any time, unless another rule of the accounts is broken. The rules
/// ask nothing about the lender of such an order: they are kept or broken alike whichever
/// lender the order names.
pub proof fn unfunded_order_is_not_liquidated(
    ctx: Liquidate,
    now: u64,
    authority: Option<Address>,
    place: Option<Address>,
    lender: Option<Address>,
)
    requires
        !ctx.order.data.was_funded(),
    ensures
        ctx.failure(now, authority, place) == invalid_or(
            ctx.violation(authority, place),
            Some(Failure::Rejected(ErrorCode::LoanNotProvided)),
        ),
        (Liquidate {
            order: OrderAccount { key: ctx.order.key, data: Order { lender, ..ctx.order.data } },
            ..ctx
        }).violation(authority, place) == ctx.violation(authority, place),
{
}

/// Where a repayment or a liquidation goes through, the order was funded and the accounts
/// are those of the lender that it records.
pub proof fn settlement_reaches_the_lender(
    repayment: Payback,
    liquidation: Liquidate,
    now: u64,
    authority: Option<Address>,
    place: Option<Address>,
)
    ensures
        repayment.failure(now, authority, place) is None ==> repayment.order.data.lender == Some(
            repayment.lender_stablecoin_vault.owner,
        ),
        liquidation.failure(now, authority, place) is None ==> {
            &&& liquidation.order.data.lender == Some(liquidation.lender.key)
            &&& liquidation.lender_stablecoin_vault.owner == liquidation.lender.key
            &&& liquidation.user_nft_vault.owner == liquidation.lender.key
        },
{
}

/// Nothing leads out of a final phase: a cancelled, repaid or liquidated order refuses
/// every operation, whatever the registry and the time.
pub proof fn final_phases_are_final(order: Order, registry: NFTCollaterizedLoans, now: u64)
    requires
        order.phase() == Phase::Cancelled || order.phase() == Phase::Repaid || order.phase()
            == Phase::Liquidated,
    ensures
        order.cancellation_failure(registry) is Some,
        order.funding_failure() is Some,
        order.repayment_failure(registry, now) is Some,
        order.liquidation_failure(registry, now) is Some,
{
}

/// An order that `create_order` creates for the deployment's registry is the deployment's
/// next order: the operation is the step `Create`.
pub proof fn create_order_is_a_step(
    p: Protocol,
    ctx: CreateOrder,
    nonce: u8,
    request_amount: u64,
    interest: u64,
    period: u64,
    additional_collateral: u64,
    now: u64,
    authority: Option<Address>,
    place: Option<(Address, u8)>,
)
    requires
        ctx.nft_collaterized_loans.data == p.registry,
        ctx.failure(
            ctx.request(nonce, request_amount, interest, period, additional_collateral),
            authority,
            place,
        ) is None,
    ensures
        ({
            let request = ctx.request(nonce, request_amount, interest, period, additional_collateral);
            let after = ctx.created(request, now);
            &&& p.accepts(Step::Create { request, now })
            &&& p.step(Step::Create { request, now }) == (Protocol {
                registry: after.nft_collaterized_loans.data,
                orders: p.orders.push(after.order.data),
            })
        }),
{
}

/// A cancellation that `cancel_order` lets through on the deployment's registry and its
/// order `id` is the step `Cancel`.
pub proof fn cancel_order_is_a_step(
    p: Protocol,
    id: nat,
    ctx: CancelOrder,
    authority: Option<Address>,
    place: Option<Address>,
)
    requires
        id < p.orders.len(),
        ctx.nft_collaterized_loans.data == p.registry,
        ctx.order.data == p.orders[id as int],
        ctx.failure(authority, place) is None,
    ensures
        p.accepts(Step::Cancel { id }),
        p.step(Step::Cancel { id }) == (Protocol {
            registry: ctx.cancelled().nft_collaterized_loans.data,
            orders: p.orders.update(id as int, ctx.cancelled().order.data),
        }),
{
}

/// A funding that `give_loan` lets through on the deployment's registry and its order `id`
/// is the step `Fund` by the lender of the accounts.
pub proof fn give_loan_is_a_step(
    p: Protocol,
    id: nat,
    ctx: GiveLoan,
    now: u64,
    authority: Option<Address>,
    place: Option<Address>,
)
    requires
        id < p.orders.len(),
        ctx.nft_collaterized_loans.data == p.registry,
        ctx.order.data == p.orders[id as int],
        ctx.failure(authority, place) is None,
    ensures
        p.accepts(Step::Fund { id, lender: ctx.lender.key, now }),
        p.step(Step::Fund { id, lender: ctx.lender.key, now }) == (Protocol {
            registry: ctx.funded(now).nft_collaterized_loans.data,
            orders: p.orders.update(id as int, ctx.funded(now).order.data),
        }),
{
}

/// A repayment that `payback` lets through on the deployment's registry and its order `id`
/// is the step `Repay`.
pub proof fn payback_is_a_step(
    p: Protocol,
    id: nat,
    ctx: Payback,
    now: u64,
    authority: Option<Address>,
    place: Option<Address>,
)
    requires
        id < p.orders.len(),
        ctx.nft_collaterized_loans.data == p.registry,
        ctx.order.data == p.orders[id as int],
        ctx.failure(now, authority, place) is None,
    ensures
        p.accepts(Step::Repay { id, now }),
        p.step(Step::Repay { id, now }) == (Protocol {
            registry: ctx.repaid(now).nft_collaterized_loans.data,
            orders: p.orders.update(id as int, ctx.repaid(now).order.data),
        }),
{
}

/// A liquidation that `liquidate` lets through on the deployment's registry and its order
/// `id` is the step `Liquidate`.
pub proof fn liquidate_is_a_step(
    p: Protocol,
    id: nat,
    ctx: Liquidate,
    now: u64,
    authority: Option<Address>,
    place: Option<Address>,
)
    requires
        id < p.orders.len(),
        ctx.nft_collaterized_loans.data == p.registry,
        ctx.order.data == p.orders[id as int],
        ctx.failure(now, authority, place) is None,
    ensures
        p.accepts(Step::Liquidate { id, now }),
        p.step(Step::Liquidate { id, now }) == (Protocol {
            registry: ctx.liquidated(now).nft_collaterized_loans.data,
            orders: p.orders.update(id as int, ctx.liquidated(now).order.data),
        }),
{
}

} // verus!
