//! The accounts that each operation is handed, and the rules that they must satisfy before
//! the operation looks at anything else.
//!
//! The rules of an operation are checked account by account, in the order of the fields of
//! its accounts; the first rule that is broken is the one reported.

use vstd::prelude::*;
use crate::address::Address;
use crate::error::{AccountName, Constraint, Violation};
use crate::state::{NFTCollaterizedLoans, Order};

verus! {

/// A token's mint, as far as the rules read it.
#[derive(Clone, Copy, Debug, PartialEq, Eq)]
pub struct Mint {
    pub key: Address,
    pub supply: u64,
    pub decimals: u8,
}

impl Mint {
    /// The mint of a unique token: one unit exists, and it cannot be divided.
    pub open spec fn is_unique(self) -> bool {
        self.supply == 1 && self.decimals == 0
    }

    /// Whether this is the mint of a unique token.
    pub fn unique(&self) -> (r: bool)
        ensures
            r == self.is_unique(),
    {
        self.supply == 1 && self.decimals == 0
    }
}

/// A custody account of one token, as far as the rules read it.
#[derive(Clone, Copy, Debug, PartialEq, Eq)]
pub struct TokenAccount {
    pub key: Address,
    pub mint: Address,
    pub owner: Address,
}

impl TokenAccount {
    /// The account holds the token `mint` for `owner`.
    pub open spec fn holds_for(self, mint: Address, owner: Address) -> bool {
        self.mint == mint && self.owner == owner
    }

    /// Whether the account holds the token `mint` for `owner`.
    pub fn held_for(&self, mint: &Address, owner: &Address) -> (r: bool)
        ensures
            r == self.holds_for(*mint, *owner),
    {
        self.mint == *mint && self.owner == *owner
    }
}

/// A party to an operation, and whether it signed.
#[derive(Clone, Copy, Debug, PartialEq, Eq)]
pub struct Signer {
    pub key: Address,
    pub is_signer: bool,
}

/// The registry at its address.
#[derive(Clone, Copy, Debug, PartialEq, Eq)]
pub struct RegistryAccount {
    pub key: Address,
    pub data: NFTCollaterizedLoans,
}

impl RegistryAccount {
    /// The registry names this escrow account and this mint as its own.
    pub open spec fn names(self, mint: Mint, vault: TokenAccount) -> bool {
        self.data.stable_escrow_account == vault.key && self.data.stable_asset_id == mint.key
    }

    /// Whether the registry names this escrow account and this mint as its own.
    pub fn has(&self, mint: &Mint, vault: &TokenAccount) -> (r: bool)
        ensures
            r == self.names(*mint, *vault),
    {
        self.data.stable_escrow_account == vault.key && self.data.stable_asset_id == mint.key
    }
}

/// An order at its address.
#[derive(Clone, Copy, Debug, PartialEq, Eq)]
pub struct OrderAccount {
    pub key: Address,
    pub data: Order,
}

impl OrderAccount {
    /// The order's collateral lies in these escrow accounts: the pledged token is of this
    /// mint and in this escrow account, the additional collateral in this one.
    pub open spec fn pledges(self, nft_mint: Mint, nft_vault: TokenAccount, stablecoin_vault: TokenAccount) -> bool {
        &&& self.data.stable_escrow_account == stablecoin_vault.key
        &&& self.data.nft_escrow_account == nft_vault.key
        &&& self.data.nft_id == nft_mint.key
    }

    /// The order is this borrower's, and this is the account to which its returns go.
    pub open spec fn is_of(self, borrower: Address, account: TokenAccount) -> bool {
        self.data.borrower == borrower && self.data.borrower_stable_account == account.key
    }

    /// Whether the order's collateral lies in these escrow accounts.
    pub fn has_pledged(&self, nft_mint: &Mint, nft_vault: &TokenAccount, stablecoin_vault: &TokenAccount) -> (r:
        bool)
        ensures
            r == self.pledges(*nft_mint, *nft_vault, *stablecoin_vault),
    {
        self.data.stable_escrow_account == stablecoin_vault.key && self.data.nft_escrow_account
            == nft_vault.key && self.data.nft_id == nft_mint.key
    }

    /// Whether the order is this borrower's, with this account for its returns.
    pub fn belongs_to(&self, borrower: &Address, account: &TokenAccount) -> (r: bool)
        ensures
            r == self.is_of(*borrower, *account),
    {
        self.data.borrower == *borrower && self.data.borrower_stable_account == account.key
    }
}

/// The violation of a rule of the given kind by the given account.
pub open spec fn broken(account: AccountName, constraint: Constraint) -> Option<Violation> {
    Some(Violation { account, constraint })
}

fn breaks(account: AccountName, constraint: Constraint) -> (r: Option<Violation>)
    ensures
        r == broken(account, constraint),
{
    Some(Violation { account, constraint })
}

/// Whether a derivation gave this very address.
pub fn derives(derived: &Option<Address>, address: &Address) -> (r: bool)
    ensures
        r == (*derived == Some(*address)),
{
    match derived {
        Some(a) => *a == *address,
        None => false,
    }
}

/// The accounts of `initialize`.
#[derive(Clone, Copy, Debug, PartialEq, Eq)]
pub struct Initialize {
    /// The program under which addresses are derived.
    pub program_id: Address,
    /// The registry to write.
    pub nft_collaterized_loans: RegistryAccount,
    /// The stable token.
    pub stablecoin_mint: Mint,
    /// The escrow account for additional collateral.
    pub stablecoin_vault: TokenAccount,
    /// The vault authority.
    pub signer: Address,
}

impl Initialize {
    /// The first rule that the accounts break, if any, where `authority` is the address that
    /// the registry's address and the nonce derive. The escrow account holds the stable
    /// token for the vault authority, and the vault authority is that derived address.
    pub open spec fn violation(self, authority: Option<Address>) -> Option<Violation> {
        if !self.stablecoin_vault.holds_for(self.stablecoin_mint.key, self.signer) {
            broken(AccountName::StablecoinVault, Constraint::Raw)
        } else if authority != Some(self.signer) {
            broken(AccountName::Signer, Constraint::Seeds)
        } else {
            None
        }
    }

    /// Checks the accounts against their rules.
    pub fn check(&self, authority: &Option<Address>) -> (r: Option<Violation>)
        ensures
            r == self.violation(*authority),
    {
        if !self.stablecoin_vault.held_for(&self.stablecoin_mint.key, &self.signer) {
            breaks(AccountName::StablecoinVault, Constraint::Raw)
        } else if !derives(authority, &self.signer) {
            breaks(AccountName::Signer, Constraint::Seeds)
        } else {
            None
        }
    }
}

/// The accounts of `create_order`.
#[derive(Clone, Copy, Debug, PartialEq, Eq)]
pub struct CreateOrder {
    /// The program under which addresses are derived.
    pub program_id: Address,
    /// The registry.
    pub nft_collaterized_loans: RegistryAccount,
    /// The stable token.
    pub stablecoin_mint: Mint,
    /// The registry's escrow account for additional collateral.
    pub stablecoin_vault: TokenAccount,
    /// The borrower's own stable-token account.
    pub user_stablecoin_vault: TokenAccount,
    /// The unique token that is pledged.
    pub nft_mint: Mint,
    /// The escrow account for the pledged token.
    pub nft_vault: TokenAccount,
    /// The borrower's own account of the pledged token.
    pub user_nft_vault: TokenAccount,
    /// The order to write.
    pub order: OrderAccount,
    /// The borrower.
    pub borrower: Signer,
    /// The vault authority.
    pub signer: Address,
}

impl CreateOrder {
    /// The first rule that the accounts break, if any, where `nonce` is the bump seed that
    /// the order is to store, `authority` the derived vault authority and `place` the
    /// address found for the registry's next sequence number, with its bump seed.
    ///
    /// The registry names the escrow account and the stable token; the escrow accounts
    /// belong to the vault authority and the borrower's accounts to the borrower, each for
    /// the right token; the pledged token is unique; the order lies at the address found
    /// and is to store the bump seed found; the borrower signed; the vault authority is the
    /// derived address.
    pub open spec fn violation(
        self,
        nonce: u8,
        authority: Option<Address>,
        place: Option<(Address, u8)>,
    ) -> Option<Violation> {
        if !self.nft_collaterized_loans.names(self.stablecoin_mint, self.stablecoin_vault) {
            broken(AccountName::NftCollaterizedLoans, Constraint::HasOne)
        } else if !self.stablecoin_vault.holds_for(self.stablecoin_mint.key, self.signer) {
            broken(AccountName::StablecoinVault, Constraint::Raw)
        } else if !self.user_stablecoin_vault.holds_for(self.stablecoin_mint.key, self.borrower.key) {
            broken(AccountName::UserStablecoinVault, Constraint::Raw)
        } else if !self.nft_mint.is_unique() {
            broken(AccountName::NftMint, Constraint::Raw)
        } else if !self.nft_vault.holds_for(self.nft_mint.key, self.signer) {
            broken(AccountName::NftVault, Constraint::Raw)
        } else if !self.user_nft_vault.holds_for(self.nft_mint.key, self.borrower.key) {
            broken(AccountName::UserNftVault, Constraint::Raw)
        } else if place != Some((self.order.key, nonce)) {
            broken(AccountName::Order, Constraint::Seeds)
        } else if !self.borrower.is_signer {
            broken(AccountName::Borrower, Constraint::Signer)
        } else if authority != Some(self.signer) {
            broken(AccountName::Signer, Constraint::Seeds)
        } else {
            None
        }
    }

    /// Checks the accounts against their rules.
    pub fn check(&self, nonce: u8, authority: &Option<Address>, place: &Option<(Address, u8)>) -> (r:
        Option<Violation>)
        ensures
            r == self.violation(nonce, *authority, *place),
    {
        let placed = match place {
            Some((address, bump)) => *address == self.order.key && *bump == nonce,
            None => false,
        };
        if !self.nft_collaterized_loans.has(&self.stablecoin_mint, &self.stablecoin_vault) {
            breaks(AccountName::NftCollaterizedLoans, Constraint::HasOne)
        } else if !self.stablecoin_vault.held_for(&self.stablecoin_mint.key, &self.signer) {
            breaks(AccountName::StablecoinVault, Constraint::Raw)
        } else if !self.user_stablecoin_vault.held_for(&self.stablecoin_mint.key, &self.borrower.key) {
            breaks(AccountName::UserStablecoinVault, Constraint::Raw)
        } else if !self.nft_mint.unique() {
            breaks(AccountName::NftMint, Constraint::Raw)
        } else if !self.nft_vault.held_for(&self.nft_mint.key, &self.signer) {
            breaks(AccountName::NftVault, Constraint::Raw)
        } else if !self.user_nft_vault.held_for(&self.nft_mint.key, &self.borrower.key) {
            breaks(AccountName::UserNftVault, Constraint::Raw)
        } else if !placed {
            breaks(AccountName::Order, Constraint::Seeds)
        } else if !self.borrower.is_signer {
            breaks(AccountName::Borrower, Constraint::Signer)
        } else if !derives(authority, &self.signer) {
            breaks(AccountName::Signer, Constraint::Seeds)
        } else {
            None
        }
    }
}

/// The accounts of `cancel_order`.
#[derive(Clone, Copy, Debug, PartialEq, Eq)]
pub struct CancelOrder {
    /// The program under which addresses are derived.
    pub program_id: Address,
    /// The registry.
    pub nft_collaterized_loans: RegistryAccount,
    /// The order to cancel.
    pub order: OrderAccount,
    /// The stable token.
    pub stablecoin_mint: Mint,
    /// The registry's escrow account for additional collateral.
    pub stablecoin_vault: TokenAccount,
    /// The borrower's own stable-token account.
    pub user_stablecoin_vault: TokenAccount,
    /// The unique token that is pledged.
    pub nft_mint: Mint,
    /// The escrow account that holds the pledged token.
    pub nft_vault: TokenAccount,
    /// The borrower's own account of the pledged token.
    pub user_nft_vault: TokenAccount,
    /// The borrower.
    pub borrower: Signer,
    /// The vault authority.
    pub signer: Address,
}

impl CancelOrder {
    /// The first rule that the accounts break, if any, where `authority` is the derived
    /// vault authority and `place` the address that the given sequence number and the
    /// order's bump seed derive.
    ///
    /// The registry names the escrow account and the stable token; the order lies at the
    /// derived address, is the borrower's and has its collateral in the escrow accounts
    /// given; the escrow accounts belong to the vault authority and the borrower's accounts
    /// to the borrower, each for the right token; the pledged token is unique; the borrower
    /// signed; the vault authority is the derived address.
    pub open spec fn violation(self, authority: Option<Address>, place: Option<Address>) -> Option<
        Violation,
    > {
        if !self.nft_collaterized_loans.names(self.stablecoin_mint, self.stablecoin_vault) {
            broken(AccountName::NftCollaterizedLoans, Constraint::HasOne)
        } else if place != Some(self.order.key) {
            broken(AccountName::Order, Constraint::Seeds)
        } else if !(self.order.pledges(self.nft_mint, self.nft_vault, self.stablecoin_vault)
            && self.order.is_of(self.borrower.key, self.user_stablecoin_vault)) {
            broken(AccountName::Order, Constraint::Raw)
        } else if !self.stablecoin_vault.holds_for(self.stablecoin_mint.key, self.signer) {
            broken(AccountName::StablecoinVault, Constraint::Raw)
        } else if !self.user_stablecoin_vault.holds_for(self.stablecoin_mint.key, self.borrower.key) {
            broken(AccountName::UserStablecoinVault, Constraint::Raw)
        } else if !self.nft_mint.is_unique() {
            broken(AccountName::NftMint, Constraint::Raw)
        } else if !self.nft_vault.holds_for(self.nft_mint.key, self.signer) {
            broken(AccountName::NftVault, Constraint::Raw)
        } else if !self.user_nft_vault.holds_for(self.nft_mint.key, self.borrower.key) {
            broken(AccountName::UserNftVault, Constraint::Raw)
        } else if !self.borrower.is_signer {
            broken(AccountName::Borrower, Constraint::Signer)
        } else if authority != Some(self.signer) {
            broken(AccountName::Signer, Constraint::Seeds)
        } else {
            None
        }
    }

    /// Checks the accounts against their rules.
    pub fn check(&self, authority: &Option<Address>, place: &Option<Address>) -> (r: Option<Violation>)
        ensures
            r == self.violation(*authority, *place),
    {
        if !self.nft_collaterized_loans.has(&self.stablecoin_mint, &self.stablecoin_vault) {
            breaks(AccountName::NftCollaterizedLoans, Constraint::HasOne)
        } else if !derives(place, &self.order.key) {
            breaks(AccountName::Order, Constraint::Seeds)
        } else if !(self.order.has_pledged(&self.nft_mint, &self.nft_vault, &self.stablecoin_vault)
            && self.order.belongs_to(&self.borrower.key, &self.user_stablecoin_vault)) {
            breaks(AccountName::Order, Constraint::Raw)
        } else if !self.stablecoin_vault.held_for(&self.stablecoin_mint.key, &self.signer) {
            breaks(AccountName::StablecoinVault, Constraint::Raw)
        } else if !self.user_stablecoin_vault.held_for(&self.stablecoin_mint.key, &self.borrower.key) {
            breaks(AccountName::UserStablecoinVault, Constraint::Raw)
        } else if !self.nft_mint.unique() {
            breaks(AccountName::NftMint, Constraint::Raw)
        } else if !self.nft_vault.held_for(&self.nft_mint.key, &self.signer) {
            breaks(AccountName::NftVault, Constraint::Raw)
        } else if !self.user_nft_vault.held_for(&self.nft_mint.key, &self.borrower.key) {
            breaks(AccountName::UserNftVault, Constraint::Raw)
        } else if !self.borrower.is_signer {
            breaks(AccountName::Borrower, Constraint::Signer)
        } else if !derives(authority, &self.signer) {
            breaks(AccountName::Signer, Constraint::Seeds)
        } else {
            None
        }
    }
}

/// The accounts of `give_loan`.
#[derive(Clone, Copy, Debug, PartialEq, Eq)]
pub struct GiveLoan {
    /// The program under which addresses are derived.
    pub program_id: Address,
    /// The registry.
    pub nft_collaterized_loans: RegistryAccount,
    /// The order to fund.
    pub order: OrderAccount,
    /// The stable token.
    pub stablecoin_mint: Mint,
    /// The registry's escrow account for additional collateral.
    pub stablecoin_vault: TokenAccount,
    /// The lender's own stable-token account, from which the principal comes.
    pub lender_stablecoin_vault: TokenAccount,
    /// The borrower's own stable-token account, to which the principal goes.
    pub borrower_stablecoin_vault: TokenAccount,
    /// The lender.
    pub lender: Signer,
    /// The vault authority.
    pub signer: Address,
}

impl GiveLoan {
    /// The lender is not the borrower, the order's collateral is in the registry's escrow
    /// account, and the principal goes to the account that the order names.
    pub open spec fn order_is_fundable(self) -> bool {
        &&& self.order.data.stable_escrow_account == self.stablecoin_vault.key
        &&& self.order.data.borrower_stable_account == self.borrower_stablecoin_vault.key
        &&& self.order.data.borrower != self.lender.key
    }

    /// The first rule that the accounts break, if any, where `authority` is the derived
    /// vault authority and `place` the address that the given sequence number and the
    /// order's bump seed derive.
    ///
    /// The registry names the escrow account and the stable token; the order lies at the
    /// derived address and is fundable by this lender; the escrow account belongs to the
    /// vault authority, the lender's account to the lender and the borrower's account to
    /// the order's borrower, each for the stable token; the lender signed; the vault
    /// authority is the derived address.
    pub open spec fn violation(self, authority: Option<Address>, place: Option<Address>) -> Option<
        Violation,
    > {
        if !self.nft_collaterized_loans.names(self.stablecoin_mint, self.stablecoin_vault) {
            broken(AccountName::NftCollaterizedLoans, Constraint::HasOne)
        } else if place != Some(self.order.key) {
            broken(AccountName::Order, Constraint::Seeds)
        } else if !self.order_is_fundable() {
            broken(AccountName::Order, Constraint::Raw)
        } else if !self.stablecoin_vault.holds_for(self.stablecoin_mint.key, self.signer) {
            broken(AccountName::StablecoinVault, Constraint::Raw)
        } else if !self.lender_stablecoin_vault.holds_for(self.stablecoin_mint.key, self.lender.key) {
            broken(AccountName::LenderStablecoinVault, Constraint::Raw)
        } else if !self.borrower_stablecoin_vault.holds_for(
            self.stablecoin_mint.key,
            self.order.data.borrower,
        ) {
            broken(AccountName::BorrowerStablecoinVault, Constraint::Raw)
        } else if !self.lender.is_signer {
            broken(AccountName::Lender, Constraint::Signer)
        } else if authority != Some(self.signer) {
            broken(AccountName::Signer, Constraint::Seeds)
        } else {
            None
        }
    }

    /// Checks the accounts against their rules.
    pub fn check(&self, authority: &Option<Address>, place: &Option<Address>) -> (r: Option<Violation>)
        ensures
            r == self.violation(*authority, *place),
    {
        let fundable = self.order.data.stable_escrow_account == self.stablecoin_vault.key
            && self.order.data.borrower_stable_account == self.borrower_stablecoin_vault.key && !(
        self.order.data.borrower == self.lender.key);
        if !self.nft_collaterized_loans.has(&self.stablecoin_mint, &self.stablecoin_vault) {
            breaks(AccountName::NftCollaterizedLoans, Constraint::HasOne)
        } else if !derives(place, &self.order.key) {
            breaks(AccountName::Order, Constraint::Seeds)
        } else if !fundable {
            breaks(AccountName::Order, Constraint::Raw)
        } else if !self.stablecoin_vault.held_for(&self.stablecoin_mint.key, &self.signer) {
            breaks(AccountName::StablecoinVault, Constraint::Raw)
        } else if !self.lender_stablecoin_vault.held_for(&self.stablecoin_mint.key, &self.lender.key) {
            breaks(AccountName::LenderStablecoinVault, Constraint::Raw)
        } else if !self.borrower_stablecoin_vault.held_for(
            &self.stablecoin_mint.key,
            &self.order.data.borrower,
        ) {
            breaks(AccountName::BorrowerStablecoinVault, Constraint::Raw)
        } else if !self.lender.is_signer {
            breaks(AccountName::Lender, Constraint::Signer)
        } else if !derives(authority, &self.signer) {
            breaks(AccountName::Signer, Constraint::Seeds)
        } else {
            None
        }
    }
}

/// The accounts of `payback`.
#[derive(Clone, Copy, Debug, PartialEq, Eq)]
pub struct Payback {
    /// The program under which addresses are derived.
    pub program_id: Address,
    /// The registry.
    pub nft_collaterized_loans: RegistryAccount,
    /// The order to repay.
    pub order: OrderAccount,
    /// The stable token.
    pub stablecoin_mint: Mint,
    /// The registry's escrow account for additional collateral.
    pub stablecoin_vault: TokenAccount,
    /// The lender's own stable-token account, to which principal and interest go.
    pub lender_stablecoin_vault: TokenAccount,
    /// The borrower's own stable-token account.
    pub user_stablecoin_vault: TokenAccount,
    /// The unique token that is pledged.
    pub nft_mint: Mint,
    /// The escrow account that holds the pledged token.
    pub nft_vault: TokenAccount,
    /// The borrower's own account of the pledged token.
    pub user_nft_vault: TokenAccount,
    /// The borrower.
    pub borrower: Signer,
    /// The vault authority.
    pub signer: Address,
}

impl Payback {
    /// The lender's account holds the stable token and, where the order was funded, belongs
    /// to the lender that the order records. An order that was never funded has no lender
    /// to pay, and the rule asks nothing about the owner.
    pub open spec fn pays_the_lender(self) -> bool {
        &&& self.lender_stablecoin_vault.mint == self.stablecoin_mint.key
        &&& self.order.data.was_funded() ==> self.order.data.lender == Some(
            self.lender_stablecoin_vault.owner,
        )
    }

    /// The first rule that the accounts break, if any, where `authority` is the derived
    /// vault authority and `place` the address that the given sequence number and the
    /// order's bump seed derive.
    ///
    /// The rules of a cancellation, and between the escrow account and the borrower's
    /// account: the lender's account holds the stable token, for the order's lender where
    /// the order was funded. So the repayment of an order that was never funded is refused
    /// by the protocol itself, not for the lender's account.
    pub open spec fn violation(self, authority: Option<Address>, place: Option<Address>) -> Option<
        Violation,
    > {
        if !self.nft_collaterized_loans.names(self.stablecoin_mint, self.stablecoin_vault) {
            broken(AccountName::NftCollaterizedLoans, Constraint::HasOne)
        } else if place != Some(self.order.key) {
            broken(AccountName::Order, Constraint::Seeds)
        } else if !(self.order.pledges(self.nft_mint, self.nft_vault, self.stablecoin_vault)
            && self.order.is_of(self.borrower.key, self.user_stablecoin_vault)) {
            broken(AccountName::Order, Constraint::Raw)
        } else if !self.stablecoin_vault.holds_for(self.stablecoin_mint.key, self.signer) {
            broken(AccountName::StablecoinVault, Constraint::Raw)
        } else if !self.pays_the_lender() {
            broken(AccountName::LenderStablecoinVault, Constraint::Raw)
        } else if !self.user_stablecoin_vault.holds_for(self.stablecoin_mint.key, self.borrower.key) {
            broken(AccountName::UserStablecoinVault, Constraint::Raw)
        } else if !self.nft_mint.is_unique() {
            broken(AccountName::NftMint, Constraint::Raw)
        } else if !self.nft_vault.holds_for(self.nft_mint.key, self.signer) {
            broken(AccountName::NftVault, Constraint::Raw)
        } else if !self.user_nft_vault.holds_for(self.nft_mint.key, self.borrower.key) {
            broken(AccountName::UserNftVault, Constraint::Raw)
        } else if !self.borrower.is_signer {
            broken(AccountName::Borrower, Constraint::Signer)
        } else if authority != Some(self.signer) {
            broken(AccountName::Signer, Constraint::Seeds)
        } else {
            None
        }
    }

    /// Checks the accounts against their rules.
    pub fn check(&self, authority: &Option<Address>, place: &Option<Address>) -> (r: Option<Violation>)
        ensures
            r == self.violation(*authority, *place),
    {
        let pays = self.lender_stablecoin_vault.mint == self.stablecoin_mint.key && (
        !self.order.data.has_been_funded() || derives(
            &self.order.data.lender,
            &self.lender_stablecoin_vault.owner,
        ));
        if !self.nft_collaterized_loans.has(&self.stablecoin_mint, &self.stablecoin_vault) {
            breaks(AccountName::NftCollaterizedLoans, Constraint::HasOne)
        } else if !derives(place, &self.order.key) {
            breaks(AccountName::Order, Constraint::Seeds)
        } else if !(self.order.has_pledged(&self.nft_mint, &self.nft_vault, &self.stablecoin_vault)
            && self.order.belongs_to(&self.borrower.key, &self.user_stablecoin_vault)) {
            breaks(AccountName::Order, Constraint::Raw)
        } else if !self.stablecoin_vault.held_for(&self.stablecoin_mint.key, &self.signer) {
            breaks(AccountName::StablecoinVault, Constraint::Raw)
        } else if !pays {
            breaks(AccountName::LenderStablecoinVault, Constraint::Raw)
        } else if !self.user_stablecoin_vault.held_for(&self.stablecoin_mint.key, &self.borrower.key) {
            breaks(AccountName::UserStablecoinVault, Constraint::Raw)
        } else if !self.nft_mint.unique() {
            breaks(AccountName::NftMint, Constraint::Raw)
        } else if !self.nft_vault.held_for(&self.nft_mint.key, &self.signer) {
            breaks(AccountName::NftVault, Constraint::Raw)
        } else if !self.user_nft_vault.held_for(&self.nft_mint.key, &self.borrower.key) {
            breaks(AccountName::UserNftVault, Constraint::Raw)
        } else if !self.borrower.is_signer {
            breaks(AccountName::Borrower, Constraint::Signer)
        } else if !derives(authority, &self.signer) {
            breaks(AccountName::Signer, Constraint::Seeds)
        } else {
            None
        }
    }
}

/// The accounts of `liquidate`.
#[derive(Clone, Copy, Debug, PartialEq, Eq)]
pub struct Liquidate {
    /// The program under which addresses are derived.
    pub program_id: Address,
    /// The registry.
    pub nft_collaterized_loans: RegistryAccount,
    /// The order to liquidate.
    pub order: OrderAccount,
    /// The stable token.
    pub stablecoin_mint: Mint,
    /// The registry's escrow account for additional collateral.
    pub stablecoin_vault: TokenAccount,
    /// The lender's own stable-token account, to which the additional collateral goes.
    pub lender_stablecoin_vault: TokenAccount,
    /// The unique token that is pledged.
    pub nft_mint: Mint,
    /// The escrow account that holds the pledged token.
    pub nft_vault: TokenAccount,
    /// The lender's own account of the pledged token, to which it goes.
    pub user_nft_vault: TokenAccount,
    /// The lender.
    pub lender: Signer,
    /// The vault authority.
    pub signer: Address,
}

impl Liquidate {
    /// Where the order was funded, the lender that it records is the lender of these
    /// accounts.
    pub open spec fn names_the_lender(self) -> bool {
        self.order.data.was_funded() ==> self.order.data.lender == Some(self.lender.key)
    }

    /// The first rule that the accounts break, if any, where `authority` is the derived
    /// vault authority and `place` the address that the given sequence number and the
    /// order's bump seed derive.
    ///
    /// The registry names the escrow account and the stable token; the order lies at the
    /// derived address, records this lender where it was funded, and has its collateral in
    /// the escrow accounts given; the escrow accounts belong to the vault authority and the
    /// receiving accounts to the lender, each for the right token; the pledged token is
    /// unique; the lender signed; the vault authority is the derived address. An order that
    /// was never funded records no lender, so its liquidation is refused by the protocol
    /// itself, whoever asks.
    pub open spec fn violation(self, authority: Option<Address>, place: Option<Address>) -> Option<
        Violation,
    > {
        if !self.nft_collaterized_loans.names(self.stablecoin_mint, self.stablecoin_vault) {
            broken(AccountName::NftCollaterizedLoans, Constraint::HasOne)
        } else if place != Some(self.order.key) {
            broken(AccountName::Order, Constraint::Seeds)
        } else if !self.names_the_lender() {
            broken(AccountName::Order, Constraint::HasOne)
        } else if !self.order.pledges(self.nft_mint, self.nft_vault, self.stablecoin_vault) {
            broken(AccountName::Order, Constraint::Raw)
        } else if !self.stablecoin_vault.holds_for(self.stablecoin_mint.key, self.signer) {
            broken(AccountName::StablecoinVault, Constraint::Raw)
        } else if !self.lender_stablecoin_vault.holds_for(self.stablecoin_mint.key, self.lender.key) {
            broken(AccountName::LenderStablecoinVault, Constraint::Raw)
        } else if !self.nft_mint.is_unique() {
            broken(AccountName::NftMint, Constraint::Raw)
        } else if !self.nft_vault.holds_for(self.nft_mint.key, self.signer) {
            broken(AccountName::NftVault, Constraint::Raw)
        } else if !self.user_nft_vault.holds_for(self.nft_mint.key, self.lender.key) {
            broken(AccountName::UserNftVault, Constraint::Raw)
        } else if !self.lender.is_signer {
            broken(AccountName::Lender, Constraint::Signer)
        } else if authority != Some(self.signer) {
            broken(AccountName::Signer, Constraint::Seeds)
        } else {
            None
        }
    }

    /// Checks the accounts against their rules.
    pub fn check(&self, authority: &Option<Address>, place: &Option<Address>) -> (r: Option<Violation>)
        ensures
            r == self.violation(*authority, *place),
    {
        if !self.nft_collaterized_loans.has(&self.stablecoin_mint, &self.stablecoin_vault) {
            breaks(AccountName::NftCollaterizedLoans, Constraint::HasOne)
        } else if !derives(place, &self.order.key) {
            breaks(AccountName::Order, Constraint::Seeds)
        } else if self.order.data.has_been_funded() && !derives(
            &self.order.data.lender,
            &self.lender.key,
        ) {
            breaks(AccountName::Order, Constraint::HasOne)
        } else if !self.order.has_pledged(&self.nft_mint, &self.nft_vault, &self.stablecoin_vault) {
            breaks(AccountName::Order, Constraint::Raw)
        } else if !self.stablecoin_vault.held_for(&self.stablecoin_mint.key, &self.signer) {
            breaks(AccountName::StablecoinVault, Constraint::Raw)
        } else if !self.lender_stablecoin_vault.held_for(&self.stablecoin_mint.key, &self.lender.key) {
            breaks(AccountName::LenderStablecoinVault, Constraint::Raw)
        } else if !self.nft_mint.unique() {
            breaks(AccountName::NftMint, Constraint::Raw)
        } else if !self.nft_vault.held_for(&self.nft_mint.key, &self.signer) {
            breaks(AccountName::NftVault, Constraint::Raw)
        } else if !self.user_nft_vault.held_for(&self.nft_mint.key, &self.lender.key) {
            breaks(AccountName::UserNftVault, Constraint::Raw)
        } else if !self.lender.is_signer {
            breaks(AccountName::Lender, Constraint::Signer)
        } else if !derives(authority, &self.signer) {
            breaks(AccountName::Signer, Constraint::Seeds)
        } else {
            None
        }
    }
}

} // verus!
