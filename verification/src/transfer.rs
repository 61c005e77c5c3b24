//! The movements of assets that an operation asks of the ledger's transfer service.

use vstd::prelude::*;
use crate::address::Address;

verus! {

/// The right to move assets out of the protocol's escrow accounts.
///
/// The escrow accounts belong to the vault authority, an address without a private key. A
/// transfer in its name is authorized by the registry's address and nonce, from which the
/// ledger derives that address again. Only the operations of this crate issue such a value,
/// one for each transfer, and it cannot be copied.
#[derive(Debug, PartialEq, Eq)]
pub struct EscrowAuthorization {
    registry: Address,
    nonce: u8,
}

impl EscrowAuthorization {
    /// The authorization that stands for the given registry and nonce.
    pub closed spec fn issued(registry: Address, nonce: u8) -> EscrowAuthorization {
        EscrowAuthorization { registry, nonce }
    }

    /// The registry in whose name the authorization was issued.
    pub closed spec fn issuer(self) -> Address {
        self.registry
    }

    /// The nonce with which the authorization was issued.
    pub closed spec fn issuer_nonce(self) -> u8 {
        self.nonce
    }

    /// An authorization is what it was issued with, and nothing else.
    pub proof fn issued_with(registry: Address, nonce: u8)
        ensures
            EscrowAuthorization::issued(registry, nonce).issuer() == registry,
            EscrowAuthorization::issued(registry, nonce).issuer_nonce() == nonce,
    {
    }

    /// Two authorizations with the same registry and nonce are the same.
    pub proof fn issuer_determines(a: EscrowAuthorization, b: EscrowAuthorization)
        requires
            a.issuer() == b.issuer(),
            a.issuer_nonce() == b.issuer_nonce(),
        ensures
            a == b,
    {
    }

    pub(crate) fn issue(registry: Address, nonce: u8) -> (r: EscrowAuthorization)
        ensures
            r == EscrowAuthorization::issued(registry, nonce),
    {
        EscrowAuthorization { registry, nonce }
    }

    /// The registry's address: the first of the two seeds that authorize the transfer.
    pub fn registry(&self) -> (r: Address)
        ensures
            r == self.issuer(),
    {
        self.registry
    }

    /// The nonce: the second of the two seeds that authorize the transfer.
    pub fn nonce(&self) -> (r: u8)
        ensures
            r == self.issuer_nonce(),
    {
        self.nonce
    }
}

/// Who authorizes a transfer.
#[derive(Debug, PartialEq, Eq)]
pub enum Authority {
    /// The owner of the source account, by signature.
    Owner(Address),
    /// The vault authority, by derivation.
    Vault(EscrowAuthorization),
}

/// One movement of `amount` units from the account `from` to the account `to`.
#[derive(Debug, PartialEq, Eq)]
pub struct Transfer {
    pub from: Address,
    pub to: Address,
    pub authority: Authority,
    pub amount: u64,
}

impl Transfer {
    /// A transfer that the owner of the source account signs.
    pub open spec fn signed(from: Address, to: Address, owner: Address, amount: u64) -> Transfer {
        Transfer { from, to, authority: Authority::Owner(owner), amount }
    }

    /// A transfer out of escrow, in the name of the vault authority of the given registry.
    pub open spec fn from_escrow(
        from: Address,
        to: Address,
        registry: Address,
        nonce: u8,
        amount: u64,
    ) -> Transfer {
        Transfer {
            from,
            to,
            authority: Authority::Vault(EscrowAuthorization::issued(registry, nonce)),
            amount,
        }
    }

    pub(crate) fn by_owner(from: Address, to: Address, owner: Address, amount: u64) -> (r: Transfer)
        ensures
            r == Transfer::signed(from, to, owner, amount),
    {
        Transfer { from, to, authority: Authority::Owner(owner), amount }
    }

    pub(crate) fn by_vault(from: Address, to: Address, registry: Address, nonce: u8, amount: u64) -> (r:
        Transfer)
        ensures
            r == Transfer::from_escrow(from, to, registry, nonce, amount),
    {
        Transfer { from, to, authority: Authority::Vault(EscrowAuthorization::issue(registry, nonce)), amount }
    }
}

} // verus!
