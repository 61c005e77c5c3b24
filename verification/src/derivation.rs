//! Program-derived addresses.
//!
//! The protocol owns its escrow accounts through an address that no private key stands
//! behind: it is derived by the ledger from seeds and the program's own address, and only
//! the program can authorize in its name. Orders live at addresses derived the same way.

use vstd::prelude::*;
use crate::address::{address_with, address_with_view, Address};

verus! {

/// What `Pubkey::create_program_address` returns for the given seeds and program address:
/// the derived address, or `None` where the seeds derive none.
pub uninterp spec fn derived_address(seeds: Seq<Seq<u8>>, program: Seq<u8>) -> Option<Seq<u8>>;

/// What `Pubkey::try_find_program_address` returns for the given seeds and program address:
/// an address together with the bump seed that was appended to derive it, or `None`.
pub uninterp spec fn found_address(seeds: Seq<Seq<u8>>, program: Seq<u8>) -> Option<(Seq<u8>, u8)>;

/// The derivation takes at most sixteen seeds, each of at most thirty-two bytes.
pub open spec fn seeds_within_limits(seeds: Seq<Seq<u8>>) -> bool {
    &&& seeds.len() <= 16
    &&& forall|i: int| 0 <= i < seeds.len() ==> (#[trigger] seeds[i]).len() <= 32
}

/// Calls `Pubkey::create_program_address` of `solana_program` (as `anchor_lang` re-exports
/// it) and reports any error as `None`.
///
/// Trusted: the result is a function of the seeds and the program address alone, named
/// `derived_address`; seeds beyond the limits derive nothing.
#[verifier::external_body]
fn create_program_address(seeds: &Vec<Vec<u8>>, program: &Address) -> (r: Option<Address>)
    ensures
        match r {
            Some(a) => derived_address(seeds.deep_view(), program@) == Some(a@),
            None => derived_address(seeds.deep_view(), program@) is None,
        },
        !seeds_within_limits(seeds.deep_view()) ==> r is None,
{
    let parts: Vec<&[u8]> = seeds.iter().map(|s| s.as_slice()).collect();
    let id = anchor_lang::prelude::Pubkey::new_from_array(program.bytes);
    match anchor_lang::prelude::Pubkey::create_program_address(&parts, &id) {
        Ok(key) => Some(Address { bytes: key.to_bytes() }),
        Err(_) => None,
    }
}

/// Calls `Pubkey::try_find_program_address` of `solana_program` (as `anchor_lang` re-exports
/// it).
///
/// Trusted: the result is a function of the seeds and the program address alone, named
/// `found_address`; an address that is found is the one that the seeds followed by the
/// one-byte bump seed derive.
#[verifier::external_body]
fn try_find_program_address(seeds: &Vec<Vec<u8>>, program: &Address) -> (r: Option<(Address, u8)>)
    ensures
        match r {
            Some((a, bump)) => {
                &&& found_address(seeds.deep_view(), program@) == Some((a@, bump))
                &&& derived_address(seeds.deep_view().push(seq![bump]), program@) == Some(a@)
            },
            None => found_address(seeds.deep_view(), program@) is None,
        },
{
    let parts: Vec<&[u8]> = seeds.iter().map(|s| s.as_slice()).collect();
    let id = anchor_lang::prelude::Pubkey::new_from_array(program.bytes);
    match anchor_lang::prelude::Pubkey::try_find_program_address(&parts, &id) {
        Some((key, bump)) => Some((Address { bytes: key.to_bytes() }, bump)),
        None => None,
    }
}

/// The decimal digits of `n` in ASCII, most significant first, without leading zeros.
pub open spec fn decimal(n: nat) -> Seq<u8>
    decreases n,
{
    if n < 10 {
        seq![(48 + n) as u8]
    } else {
        decimal(n / 10).push((48 + n % 10) as u8)
    }
}

/// Ten to the power `k`.
pub open spec fn pow10(k: nat) -> nat
    decreases k,
{
    if k == 0 {
        1
    } else {
        10 * pow10((k - 1) as nat)
    }
}

/// A number below ten to the `k` has at most `k` digits.
pub proof fn decimal_len_bound(n: nat, k: nat)
    requires
        k >= 1,
        n < pow10(k),
    ensures
        1 <= decimal(n).len() <= k,
    decreases k,
{
    if n >= 10 {
        assert(pow10(1) == 10) by {
            reveal_with_fuel(pow10, 3);
        }
        assert(k >= 2);
        assert(pow10(k) == 10 * pow10((k - 1) as nat));
        decimal_len_bound(n / 10, (k - 1) as nat);
    }
}

/// Every `u64` has at most twenty digits.
pub proof fn decimal_of_u64_len(n: u64)
    ensures
        1 <= decimal(n as nat).len() <= 20,
{
    assert(pow10(20) == 100000000000000000000) by {
        reveal_with_fuel(pow10, 22);
    }
    decimal_len_bound(n as nat, 20);
}

/// The decimal digits of `n` in ASCII.
pub fn decimal_bytes(n: u64) -> (r: Vec<u8>)
    ensures
        r@ == decimal(n as nat),
        1 <= r@.len() <= 20,
    decreases n,
{
    proof {
        decimal_of_u64_len(n);
    }
    if n < 10 {
        let digit: u8 = 48 + (n as u8);
        let mut out: Vec<u8> = Vec::new();
        out.push(digit);
        assert(out@ =~= decimal(n as nat));
        out
    } else {
        let mut out = decimal_bytes(n / 10);
        let digit: u8 = 48 + ((n % 10) as u8);
        out.push(digit);
        out
    }
}

/// The seeds of the vault authority: the registry's address, then the one-byte nonce.
pub open spec fn vault_seeds(registry: Address, nonce: u8) -> Seq<Seq<u8>> {
    seq![registry@, seq![nonce]]
}

/// The seeds of an order, before the bump seed: the decimal digits of its sequence number,
/// then the registry's address.
pub open spec fn order_seeds(registry: Address, sequence: u64) -> Seq<Seq<u8>> {
    seq![decimal(sequence as nat), registry@]
}

/// An optional address from its optional bytes.
pub open spec fn lifted(bytes: Option<Seq<u8>>) -> Option<Address> {
    match bytes {
        Some(b) => Some(address_with(b)),
        None => None,
    }
}

/// The vault authority of a registry: the address that the registry's own address and the
/// nonce derive under the program, if they derive one.
pub open spec fn vault_authority(registry: Address, nonce: u8, program: Address) -> Option<Address> {
    lifted(derived_address(vault_seeds(registry, nonce), program@))
}

/// The address of the order with the given sequence number under a registry, derived with
/// the given bump seed.
pub open spec fn order_address(registry: Address, sequence: u64, bump: u8, program: Address) -> Option<
    Address,
> {
    lifted(derived_address(order_seeds(registry, sequence).push(seq![bump]), program@))
}

/// The address at which the order with the given sequence number is created, with the bump
/// seed that derives it.
pub open spec fn new_order_address(registry: Address, sequence: u64, program: Address) -> Option<
    (Address, u8),
> {
    match found_address(order_seeds(registry, sequence), program@) {
        Some((b, bump)) => Some((address_with(b), bump)),
        None => None,
    }
}

/// Derives the vault authority of a registry.
pub fn vault_authority_address(registry: &Address, nonce: u8, program: &Address) -> (r: Option<Address>)
    ensures
        r == vault_authority(*registry, nonce, *program),
{
    let mut seeds: Vec<Vec<u8>> = Vec::new();
    seeds.push(registry.to_vec());
    let mut last: Vec<u8> = Vec::new();
    last.push(nonce);
    seeds.push(last);
    assert(seeds.deep_view() =~~= vault_seeds(*registry, nonce));
    let r = create_program_address(&seeds, program);
    proof {
        if let Some(a) = r {
            address_with_view(a);
        }
    }
    r
}

/// Derives the address of an order from its sequence number and its stored bump seed.
pub fn derive_order_address(registry: &Address, sequence: u64, bump: u8, program: &Address) -> (r: Option<
    Address,
>)
    ensures
        r == order_address(*registry, sequence, bump, *program),
{
    let mut seeds: Vec<Vec<u8>> = Vec::new();
    seeds.push(decimal_bytes(sequence));
    seeds.push(registry.to_vec());
    let mut last: Vec<u8> = Vec::new();
    last.push(bump);
    seeds.push(last);
    assert(seeds.deep_view() =~~= order_seeds(*registry, sequence).push(seq![bump]));
    let r = create_program_address(&seeds, program);
    proof {
        if let Some(a) = r {
            address_with_view(a);
        }
    }
    r
}

/// Finds the address at which the order with the given sequence number is created.
///
/// The bump seed that comes with the address derives it again.
pub fn find_order_address(registry: &Address, sequence: u64, program: &Address) -> (r: Option<
    (Address, u8),
>)
    ensures
        r == new_order_address(*registry, sequence, *program),
        r matches Some((a, bump)) ==> order_address(*registry, sequence, bump, *program) == Some(a),
{
    let mut seeds: Vec<Vec<u8>> = Vec::new();
    seeds.push(decimal_bytes(sequence));
    seeds.push(registry.to_vec());
    assert(seeds.deep_view() =~~= order_seeds(*registry, sequence));
    let r = try_find_program_address(&seeds, program);
    proof {
        if let Some((a, bump)) = r {
            address_with_view(a);
        }
    }
    r
}

} // verus!
