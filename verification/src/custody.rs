//! Custody: what the transfers of each operation do to the two escrow accounts.
//!
//! The registry's total is book-keeping; the collateral itself lies in escrow accounts that
//! only the ledger's transfer service changes. Each operation names transfers that move
//! into the stable-token escrow exactly what the operation adds to the registry's total,
//! and out of it exactly what the operation takes off. The pledged token enters its escrow
//! account when the order is created and leaves it when the order is settled.

use vstd::prelude::*;
use crate::accounts::{CancelOrder, CreateOrder, GiveLoan, Liquidate, Payback};
use crate::address::Address;
use crate::transfer::Transfer;

verus! {

/// What one transfer adds to the balance of `account`.
pub open spec fn gain(transfer: Transfer, account: Address) -> int {
    (if transfer.to == account {
        transfer.amount as int
    } else {
        0
    }) - (if transfer.from == account {
        transfer.amount as int
    } else {
        0
    })
}

/// What the transfers together add to the balance of `account`: what arrives there less
/// what leaves.
pub open spec fn net_into(transfers: Seq<Transfer>, account: Address) -> int
    decreases transfers.len(),
{
    if transfers.len() == 0 {
        0
    } else {
        net_into(transfers.drop_last(), account) + gain(transfers.last(), account)
    }
}

/// The net effect of one, two and three transfers.
pub proof fn net_of_few(a: Transfer, b: Transfer, c: Transfer, account: Address)
    ensures
        net_into(seq![a], account) == gain(a, account),
        net_into(seq![a, b], account) == gain(a, account) + gain(b, account),
        net_into(seq![a, b, c], account) == gain(a, account) + gain(b, account) + gain(c, account),
{
    assert(seq![a].drop_last() =~= Seq::<Transfer>::empty());
    assert(seq![a, b].drop_last() =~= seq![a]);
    assert(seq![a, b, c].drop_last() =~= seq![a, b]);
    assert(net_into(Seq::<Transfer>::empty(), account) == 0);
    assert(net_into(seq![a], account) == gain(a, account));
    assert(net_into(seq![a, b], account) == net_into(seq![a], account) + gain(b, account));
}

/// The four accounts between which collateral moves are four different accounts.
pub open spec fn apart(escrow: Address, nft_escrow: Address, stable: Address, nft: Address) -> bool {
    &&& escrow != nft_escrow
    &&& escrow != stable
    &&& escrow != nft
    &&& nft_escrow != stable
    &&& nft_escrow != nft
    &&& stable != nft
}

/// Creation moves the additional collateral into the stable-token escrow, as much as the
/// registry's total grows, and the pledged token into its escrow account.
pub proof fn creation_fills_escrow(ctx: CreateOrder, additional_collateral: u64)
    requires
        apart(
            ctx.stablecoin_vault.key,
            ctx.nft_vault.key,
            ctx.user_stablecoin_vault.key,
            ctx.user_nft_vault.key,
        ),
    ensures
        net_into(ctx.deposits(additional_collateral), ctx.stablecoin_vault.key)
            == additional_collateral,
        net_into(ctx.deposits(additional_collateral), ctx.nft_vault.key) == 1,
        net_into(ctx.deposits(additional_collateral), ctx.user_stablecoin_vault.key)
            == -additional_collateral,
        net_into(ctx.deposits(additional_collateral), ctx.user_nft_vault.key) == -1,
{
    let t = ctx.deposits(additional_collateral);
    net_of_few(t[0], t[1], t[1], ctx.stablecoin_vault.key);
    net_of_few(t[0], t[1], t[1], ctx.nft_vault.key);
    net_of_few(t[0], t[1], t[1], ctx.user_stablecoin_vault.key);
    net_of_few(t[0], t[1], t[1], ctx.user_nft_vault.key);
    assert(t =~= seq![t[0], t[1]]);
}

/// Cancellation moves the order's additional collateral out of the stable-token escrow, as
/// much as the registry's total shrinks, and the pledged token out of its escrow account,
/// both to the borrower.
pub proof fn cancellation_empties_escrow(ctx: CancelOrder)
    requires
        apart(
            ctx.stablecoin_vault.key,
            ctx.nft_vault.key,
            ctx.user_stablecoin_vault.key,
            ctx.user_nft_vault.key,
        ),
    ensures
        net_into(ctx.refunds(), ctx.stablecoin_vault.key) == -ctx.order.data.additional_collateral,
        net_into(ctx.refunds(), ctx.nft_vault.key) == -1,
        net_into(ctx.refunds(), ctx.user_stablecoin_vault.key) == ctx.order.data.additional_collateral,
        net_into(ctx.refunds(), ctx.user_nft_vault.key) == 1,
{
    let t = ctx.refunds();
    net_of_few(t[0], t[1], t[1], ctx.stablecoin_vault.key);
    net_of_few(t[0], t[1], t[1], ctx.nft_vault.key);
    net_of_few(t[0], t[1], t[1], ctx.user_stablecoin_vault.key);
    net_of_few(t[0], t[1], t[1], ctx.user_nft_vault.key);
    assert(t =~= seq![t[0], t[1]]);
}

/// Funding leaves both escrow accounts alone: the principal goes from the lender straight
/// to the borrower.
pub proof fn funding_bypasses_escrow(ctx: GiveLoan, account: Address)
    requires
        account != ctx.lender_stablecoin_vault.key,
        account != ctx.borrower_stablecoin_vault.key,
    ensures
        net_into(ctx.payout(), account) == 0,
        ctx.lender_stablecoin_vault.key != ctx.borrower_stablecoin_vault.key ==> net_into(
            ctx.payout(),
            ctx.borrower_stablecoin_vault.key,
        ) == ctx.order.data.requested_amount,
{
    let t = ctx.payout();
    net_of_few(t[0], t[0], t[0], account);
    net_of_few(t[0], t[0], t[0], ctx.borrower_stablecoin_vault.key);
    assert(t =~= seq![t[0]]);
}

/// Repayment moves the order's additional collateral out of the stable-token escrow, as
/// much as the registry's total shrinks, and the pledged token out of its escrow account;
/// the lender's account receives principal and interest.
pub proof fn repayment_empties_escrow(ctx: Payback)
    requires
        apart(
            ctx.stablecoin_vault.key,
            ctx.nft_vault.key,
            ctx.user_stablecoin_vault.key,
            ctx.user_nft_vault.key,
        ),
        ctx.lender_stablecoin_vault.key != ctx.stablecoin_vault.key,
        ctx.lender_stablecoin_vault.key != ctx.nft_vault.key,
        ctx.lender_stablecoin_vault.key != ctx.user_stablecoin_vault.key,
        ctx.lender_stablecoin_vault.key != ctx.user_nft_vault.key,
        ctx.order.data.amount_due() <= u64::MAX,
    ensures
        net_into(ctx.settlement(), ctx.stablecoin_vault.key) == -ctx.order.data.additional_collateral,
        net_into(ctx.settlement(), ctx.nft_vault.key) == -1,
        net_into(ctx.settlement(), ctx.lender_stablecoin_vault.key) == ctx.order.data.requested_amount
            + ctx.order.data.interest,
        net_into(ctx.settlement(), ctx.user_stablecoin_vault.key)
            == ctx.order.data.additional_collateral - ctx.order.data.requested_amount
            - ctx.order.data.interest,
        net_into(ctx.settlement(), ctx.user_nft_vault.key) == 1,
{
    let t = ctx.settlement();
    net_of_few(t[0], t[1], t[2], ctx.stablecoin_vault.key);
    net_of_few(t[0], t[1], t[2], ctx.nft_vault.key);
    net_of_few(t[0], t[1], t[2], ctx.lender_stablecoin_vault.key);
    net_of_few(t[0], t[1], t[2], ctx.user_stablecoin_vault.key);
    net_of_few(t[0], t[1], t[2], ctx.user_nft_vault.key);
    assert(t =~= seq![t[0], t[1], t[2]]);
}

/// Liquidation moves the order's additional collateral out of the stable-token escrow, as
/// much as the registry's total shrinks, and the pledged token out of its escrow account,
/// both to the lender.
pub proof fn liquidation_empties_escrow(ctx: Liquidate)
    requires
        apart(
            ctx.stablecoin_vault.key,
            ctx.nft_vault.key,
            ctx.lender_stablecoin_vault.key,
            ctx.user_nft_vault.key,
        ),
    ensures
        net_into(ctx.seizure(), ctx.stablecoin_vault.key) == -ctx.order.data.additional_collateral,
        net_into(ctx.seizure(), ctx.nft_vault.key) == -1,
        net_into(ctx.seizure(), ctx.lender_stablecoin_vault.key) == ctx.order.data.additional_collateral,
        net_into(ctx.seizure(), ctx.user_nft_vault.key) == 1,
{
    let t = ctx.seizure();
    net_of_few(t[0], t[1], t[1], ctx.stablecoin_vault.key);
    net_of_few(t[0], t[1], t[1], ctx.nft_vault.key);
    net_of_few(t[0], t[1], t[1], ctx.lender_stablecoin_vault.key);
    net_of_few(t[0], t[1], t[1], ctx.user_nft_vault.key);
    assert(t =~= seq![t[0], t[1]]);
}

} // verus!
