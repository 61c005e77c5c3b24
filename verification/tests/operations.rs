use std::collections::HashMap;

use anchor_lang::prelude::Pubkey;
use nft_collaterized_loans::accounts::{
    CancelOrder, CreateOrder, GiveLoan, Initialize, Liquidate, Mint, OrderAccount, Payback,
    RegistryAccount, Signer, TokenAccount,
};
use nft_collaterized_loans::address::Address;
use nft_collaterized_loans::derivation::{
    derive_order_address, find_order_address, vault_authority_address,
};
use nft_collaterized_loans::error::{AccountName, Constraint, ErrorCode, Failure, Violation};
use nft_collaterized_loans::state::{NFTCollaterizedLoans, Order, Phase};
use nft_collaterized_loans::transfer::{Authority, Transfer};
use nft_collaterized_loans::{cancel_order, create_order, give_loan, initialize, liquidate, payback};

fn addr(n: u8) -> Address {
    Address::new([n; 32])
}

fn invalid(account: AccountName, constraint: Constraint) -> Failure {
    Failure::Invalid(Violation { account, constraint })
}

fn blank_order() -> Order {
    Order::default()
}

/// A deployment with one borrower and one lender, and the token balances of their accounts.
struct World {
    program: Address,
    registry: RegistryAccount,
    authority: Address,
    stable_mint: Mint,
    nft_mint: Mint,
    escrow: TokenAccount,
    nft_escrow: TokenAccount,
    borrower: Address,
    borrower_stable: TokenAccount,
    borrower_nft: TokenAccount,
    lender: Address,
    lender_stable: TokenAccount,
    lender_nft: TokenAccount,
    owners: HashMap<Address, Address>,
    balances: HashMap<Address, u64>,
}

impl World {
    fn new() -> World {
        let program = addr(42);
        let registry_key = addr(1);
        let (authority, nonce) = Pubkey::find_program_address(
            &[&registry_key.bytes[..]],
            &Pubkey::new_from_array(program.bytes),
        );
        let authority = Address::new(authority.to_bytes());
        let stable_mint = Mint { key: addr(2), supply: 1_000_000_000, decimals: 6 };
        let nft_mint = Mint { key: addr(3), supply: 1, decimals: 0 };
        let borrower = addr(10);
        let lender = addr(20);
        let escrow = TokenAccount { key: addr(4), mint: stable_mint.key, owner: authority };
        let nft_escrow = TokenAccount { key: addr(5), mint: nft_mint.key, owner: authority };
        let borrower_stable = TokenAccount { key: addr(11), mint: stable_mint.key, owner: borrower };
        let borrower_nft = TokenAccount { key: addr(12), mint: nft_mint.key, owner: borrower };
        let lender_stable = TokenAccount { key: addr(21), mint: stable_mint.key, owner: lender };
        let lender_nft = TokenAccount { key: addr(22), mint: nft_mint.key, owner: lender };
        let mut owners = HashMap::new();
        let mut balances = HashMap::new();
        for (account, balance) in [
            (escrow, 0u64),
            (nft_escrow, 0),
            (borrower_stable, 10_000),
            (borrower_nft, 1),
            (lender_stable, 50_000),
            (lender_nft, 0),
        ] {
            owners.insert(account.key, account.owner);
            balances.insert(account.key, balance);
        }
        let mut ctx = Initialize {
            program_id: program,
            nft_collaterized_loans: RegistryAccount {
                key: registry_key,
                data: NFTCollaterizedLoans::new(addr(0), addr(0), 0),
            },
            stablecoin_mint: stable_mint,
            stablecoin_vault: escrow,
            signer: authority,
        };
        assert_eq!(initialize(&mut ctx, nonce), Ok(()));
        World {
            program,
            registry: ctx.nft_collaterized_loans,
            authority,
            stable_mint,
            nft_mint,
            escrow,
            nft_escrow,
            borrower,
            borrower_stable,
            borrower_nft,
            lender,
            lender_stable,
            lender_nft,
            owners,
            balances,
        }
    }

    fn balance(&self, account: &TokenAccount) -> u64 {
        self.balances[&account.key]
    }

    /// The bump seed found for the registry's current sequence number.
    fn bump(&self) -> u8 {
        find_order_address(&self.registry.key, self.registry.data.order_sequence, &self.program)
            .unwrap()
            .1
    }

    /// Lets the borrower pledge once more: the orders of one test share one token account.
    fn restock(&mut self) {
        self.balances.insert(self.borrower_nft.key, 1);
    }

    /// Performs the transfers as the ledger would: each must be authorized by the owner of
    /// its source account, and covered by its balance.
    fn perform(&mut self, transfers: &[Transfer]) {
        for t in transfers {
            let owner = self.owners[&t.from];
            match &t.authority {
                Authority::Owner(signer) => assert_eq!(*signer, owner),
                Authority::Vault(auth) => assert_eq!(
                    vault_authority_address(&auth.registry(), auth.nonce(), &self.program),
                    Some(owner)
                ),
            }
            let from = self.balances[&t.from];
            assert!(from >= t.amount);
            self.balances.insert(t.from, from - t.amount);
            let to = self.balances[&t.to];
            self.balances.insert(t.to, to + t.amount);
        }
    }

    fn creation(&self) -> CreateOrder {
        let (place, _) =
            find_order_address(&self.registry.key, self.registry.data.order_sequence, &self.program)
                .unwrap();
        CreateOrder {
            program_id: self.program,
            nft_collaterized_loans: self.registry,
            stablecoin_mint: self.stable_mint,
            stablecoin_vault: self.escrow,
            user_stablecoin_vault: self.borrower_stable,
            nft_mint: self.nft_mint,
            nft_vault: self.nft_escrow,
            user_nft_vault: self.borrower_nft,
            order: OrderAccount { key: place, data: blank_order() },
            borrower: Signer { key: self.borrower, is_signer: true },
            signer: self.authority,
        }
    }

    /// Creates an order and performs its transfers; returns the order and its sequence number.
    fn create(&mut self, amount: u64, interest: u64, period: u64, collateral: u64, now: u64) -> (OrderAccount, u64) {
        let mut ctx = self.creation();
        let sequence = self.registry.data.order_sequence;
        let (_, bump) = find_order_address(&self.registry.key, sequence, &self.program).unwrap();
        let transfers = create_order(&mut ctx, bump, amount, interest, period, collateral, now).unwrap();
        self.perform(&transfers);
        self.registry = ctx.nft_collaterized_loans;
        (ctx.order, sequence)
    }

    fn cancellation(&self, order: OrderAccount) -> CancelOrder {
        CancelOrder {
            program_id: self.program,
            nft_collaterized_loans: self.registry,
            order,
            stablecoin_mint: self.stable_mint,
            stablecoin_vault: self.escrow,
            user_stablecoin_vault: self.borrower_stable,
            nft_mint: self.nft_mint,
            nft_vault: self.nft_escrow,
            user_nft_vault: self.borrower_nft,
            borrower: Signer { key: self.borrower, is_signer: true },
            signer: self.authority,
        }
    }

    fn funding(&self, order: OrderAccount) -> GiveLoan {
        GiveLoan {
            program_id: self.program,
            nft_collaterized_loans: self.registry,
            order,
            stablecoin_mint: self.stable_mint,
            stablecoin_vault: self.escrow,
            lender_stablecoin_vault: self.lender_stable,
            borrower_stablecoin_vault: self.borrower_stable,
            lender: Signer { key: self.lender, is_signer: true },
            signer: self.authority,
        }
    }

    fn fund(&mut self, order: OrderAccount, sequence: u64, now: u64) -> OrderAccount {
        let mut ctx = self.funding(order);
        let transfers = give_loan(&mut ctx, sequence, now).unwrap();
        self.perform(&transfers);
        ctx.order
    }

    fn repayment(&self, order: OrderAccount) -> Payback {
        Payback {
            program_id: self.program,
            nft_collaterized_loans: self.registry,
            order,
            stablecoin_mint: self.stable_mint,
            stablecoin_vault: self.escrow,
            lender_stablecoin_vault: self.lender_stable,
            user_stablecoin_vault: self.borrower_stable,
            nft_mint: self.nft_mint,
            nft_vault: self.nft_escrow,
            user_nft_vault: self.borrower_nft,
            borrower: Signer { key: self.borrower, is_signer: true },
            signer: self.authority,
        }
    }

    fn liquidation(&self, order: OrderAccount) -> Liquidate {
        Liquidate {
            program_id: self.program,
            nft_collaterized_loans: self.registry,
            order,
            stablecoin_mint: self.stable_mint,
            stablecoin_vault: self.escrow,
            lender_stablecoin_vault: self.lender_stable,
            nft_mint: self.nft_mint,
            nft_vault: self.nft_escrow,
            user_nft_vault: self.lender_nft,
            lender: Signer { key: self.lender, is_signer: true },
            signer: self.authority,
        }
    }
}

#[test]
fn initialize_writes_a_fresh_registry() {
    let w = World::new();
    assert_eq!(w.registry.key, addr(1));
    assert_eq!(w.registry.data.stable_asset_id, w.stable_mint.key);
    assert_eq!(w.registry.data.stable_escrow_account, w.escrow.key);
    assert_eq!(w.registry.data.order_sequence, 0);
    assert_eq!(w.registry.data.total_locked_collateral, 0);
    assert_eq!(
        vault_authority_address(&w.registry.key, w.registry.data.authority_nonce, &w.program),
        Some(w.authority)
    );
}

#[test]
fn initialize_checks_the_escrow_account_and_the_authority() {
    let w = World::new();
    let nonce = w.registry.data.authority_nonce;
    let good = Initialize {
        program_id: w.program,
        nft_collaterized_loans: RegistryAccount { key: w.registry.key, data: NFTCollaterizedLoans::new(addr(0), addr(0), 0) },
        stablecoin_mint: w.stable_mint,
        stablecoin_vault: w.escrow,
        signer: w.authority,
    };

    let mut ctx = good;
    ctx.stablecoin_vault.mint = w.nft_mint.key;
    let before = ctx;
    assert_eq!(initialize(&mut ctx, nonce), Err(invalid(AccountName::StablecoinVault, Constraint::Raw)));
    assert_eq!(ctx, before);

    let mut ctx = good;
    ctx.stablecoin_vault.owner = w.borrower;
    assert_eq!(initialize(&mut ctx, nonce), Err(invalid(AccountName::StablecoinVault, Constraint::Raw)));

    let mut ctx = good;
    ctx.signer = w.borrower;
    ctx.stablecoin_vault.owner = w.borrower;
    let before = ctx;
    assert_eq!(initialize(&mut ctx, nonce), Err(invalid(AccountName::Signer, Constraint::Seeds)));
    assert_eq!(ctx, before);

    let mut ctx = good;
    assert_eq!(
        initialize(&mut ctx, nonce.wrapping_sub(1)),
        Err(invalid(AccountName::Signer, Constraint::Seeds))
    );

    let mut ctx = good;
    ctx.program_id = addr(43);
    assert_eq!(initialize(&mut ctx, nonce), Err(invalid(AccountName::Signer, Constraint::Seeds)));

    let mut ctx = good;
    assert_eq!(ctx.apply(7, &None), Err(invalid(AccountName::Signer, Constraint::Seeds)));
    assert_eq!(ctx.apply(7, &Some(w.authority)), Ok(()));
    assert_eq!(ctx.nft_collaterized_loans.data, NFTCollaterizedLoans::new(w.stable_mint.key, w.escrow.key, 7));
}

#[test]
fn create_order_escrows_both_pieces_of_collateral() {
    let mut w = World::new();
    let mut ctx = w.creation();
    let place = ctx.order.key;
    let transfers = create_order(&mut ctx, w.bump(), 1000, 50, 86400, 200, 777).unwrap();
    assert_eq!(
        transfers,
        vec![
            Transfer { from: w.borrower_nft.key, to: w.nft_escrow.key, authority: Authority::Owner(w.borrower), amount: 1 },
            Transfer { from: w.borrower_stable.key, to: w.escrow.key, authority: Authority::Owner(w.borrower), amount: 200 },
        ]
    );
    assert_eq!(
        ctx.order,
        OrderAccount {
            key: place,
            data: Order {
                borrower: w.borrower,
                lender: None,
                nft_id: w.nft_mint.key,
                nft_escrow_account: w.nft_escrow.key,
                stable_escrow_account: w.escrow.key,
                borrower_stable_account: w.borrower_stable.key,
                requested_amount: 1000,
                interest: 50,
                period: 86400,
                additional_collateral: 200,
                created_at: 777,
                funded_at: 0,
                repaid_at: 0,
                liquidated_at: 0,
                is_open: true,
                authority_bump: w.bump(),
            },
        }
    );
    assert_eq!(ctx.nft_collaterized_loans.data.total_locked_collateral, 200);
    assert_eq!(ctx.nft_collaterized_loans.data.order_sequence, 1);
    assert_eq!(ctx.nft_collaterized_loans.key, w.registry.key);
    w.perform(&transfers);
    assert_eq!(w.balance(&w.nft_escrow), 1);
    assert_eq!(w.balance(&w.borrower_nft), 0);
    assert_eq!(w.balance(&w.escrow), 200);
    assert_eq!(w.balance(&w.borrower_stable), 9_800);
}

#[test]
fn create_order_refuses_a_zero_principal() {
    let w = World::new();
    let mut ctx = w.creation();
    let before = ctx;
    assert_eq!(
        create_order(&mut ctx, w.bump(), 0, 50, 86400, 200, 777),
        Err(Failure::Rejected(ErrorCode::AmountMustBeGreaterThanZero))
    );
    assert_eq!(ctx, before);
}

#[test]
fn create_order_needs_the_address_of_the_current_sequence_number() {
    let mut w = World::new();
    let first = w.creation();
    let _ = w.create(1000, 50, 86400, 200, 777);
    let mut stale = w.creation();
    stale.order.key = first.order.key;
    let before = stale;
    assert_eq!(
        create_order(&mut stale, w.bump(), 1000, 50, 86400, 0, 778),
        Err(invalid(AccountName::Order, Constraint::Seeds))
    );
    assert_eq!(stale, before);
    let mut next = w.creation();
    assert_ne!(next.order.key, first.order.key);
    assert!(create_order(&mut next, w.bump(), 1000, 50, 86400, 0, 778).is_ok());
    assert_eq!(next.nft_collaterized_loans.data.order_sequence, 2);
}

#[test]
fn create_order_reports_the_first_broken_rule() {
    let w = World::new();
    let good = w.creation();
    let run = |change: &dyn Fn(&mut CreateOrder)| {
        let mut ctx = good;
        change(&mut ctx);
        let before = ctx;
        let r = create_order(&mut ctx, w.bump(), 1000, 50, 86400, 200, 777);
        assert!(r.is_err());
        assert_eq!(ctx, before);
        r.unwrap_err()
    };
    assert_eq!(
        run(&|c| c.nft_collaterized_loans.data.stable_escrow_account = addr(99)),
        invalid(AccountName::NftCollaterizedLoans, Constraint::HasOne)
    );
    assert_eq!(
        run(&|c| c.nft_collaterized_loans.data.stable_asset_id = addr(99)),
        invalid(AccountName::NftCollaterizedLoans, Constraint::HasOne)
    );
    assert_eq!(run(&|c| c.stablecoin_vault.mint = addr(99)), invalid(AccountName::StablecoinVault, Constraint::Raw));
    assert_eq!(run(&|c| c.stablecoin_vault.owner = addr(99)), invalid(AccountName::StablecoinVault, Constraint::Raw));
    assert_eq!(
        run(&|c| c.user_stablecoin_vault.mint = addr(99)),
        invalid(AccountName::UserStablecoinVault, Constraint::Raw)
    );
    assert_eq!(
        run(&|c| c.user_stablecoin_vault.owner = addr(99)),
        invalid(AccountName::UserStablecoinVault, Constraint::Raw)
    );
    assert_eq!(run(&|c| c.nft_mint.supply = 2), invalid(AccountName::NftMint, Constraint::Raw));
    assert_eq!(run(&|c| c.nft_mint.decimals = 1), invalid(AccountName::NftMint, Constraint::Raw));
    assert_eq!(run(&|c| c.nft_vault.mint = addr(99)), invalid(AccountName::NftVault, Constraint::Raw));
    assert_eq!(run(&|c| c.nft_vault.owner = addr(99)), invalid(AccountName::NftVault, Constraint::Raw));
    assert_eq!(run(&|c| c.user_nft_vault.mint = addr(99)), invalid(AccountName::UserNftVault, Constraint::Raw));
    assert_eq!(run(&|c| c.user_nft_vault.owner = addr(99)), invalid(AccountName::UserNftVault, Constraint::Raw));
    assert_eq!(run(&|c| c.order.key = addr(99)), invalid(AccountName::Order, Constraint::Seeds));
    assert_eq!(run(&|c| c.program_id = addr(99)), invalid(AccountName::Order, Constraint::Seeds));
    assert_eq!(run(&|c| c.borrower.is_signer = false), invalid(AccountName::Borrower, Constraint::Signer));
    assert_eq!(
        run(&|c| c.nft_collaterized_loans.data.authority_nonce = c.nft_collaterized_loans.data.authority_nonce.wrapping_sub(1)),
        invalid(AccountName::Signer, Constraint::Seeds)
    );
    assert_eq!(
        run(&|c| {
            c.borrower.is_signer = false;
            c.nft_mint.supply = 0;
            c.order.key = addr(99);
        }),
        invalid(AccountName::NftMint, Constraint::Raw)
    );
    assert_eq!(
        run(&|c| {
            c.borrower.is_signer = false;
            c.order.key = addr(99);
        }),
        invalid(AccountName::Order, Constraint::Seeds)
    );
}

#[test]
fn create_order_given_the_derived_addresses() {
    let w = World::new();
    let good = w.creation();
    let place = Some((good.order.key, 250u8));
    let mut ctx = good;
    assert_eq!(
        ctx.apply(250, 1000, 50, 86400, 200, 777, &Some(w.authority), &None),
        Err(invalid(AccountName::Order, Constraint::Seeds))
    );
    assert_eq!(
        ctx.apply(250, 1000, 50, 86400, 200, 777, &Some(w.authority), &Some((addr(99), 250))),
        Err(invalid(AccountName::Order, Constraint::Seeds))
    );
    assert_eq!(
        ctx.apply(249, 1000, 50, 86400, 200, 777, &Some(w.authority), &place),
        Err(invalid(AccountName::Order, Constraint::Seeds))
    );
    assert_eq!(
        ctx.apply(250, 1000, 50, 86400, 200, 777, &None, &place),
        Err(invalid(AccountName::Signer, Constraint::Seeds))
    );
    assert_eq!(
        ctx.apply(250, 1000, 50, 86400, 200, 777, &Some(addr(99)), &place),
        Err(invalid(AccountName::Signer, Constraint::Seeds))
    );
    assert_eq!(ctx, good);
    let transfers = ctx.apply(250, 1000, 50, 86400, 200, 777, &Some(w.authority), &place).unwrap();
    assert_eq!(transfers.len(), 2);
    assert_eq!(transfers[1].amount, 200);
    assert_eq!(ctx.order.data.authority_bump, 250);
    assert!(ctx.order.data.is_open);
}

#[test]
fn a_round_trip_restores_the_collateral_and_pays_the_lender() {
    let mut w = World::new();
    let (order, sequence) = w.create(1000, 50, 86400, 200, 100);
    assert_eq!(w.registry.data.total_locked_collateral, 200);
    assert_eq!(w.balance(&w.borrower_nft), 0);
    assert_eq!(w.balance(&w.borrower_stable), 9_800);

    let order = w.fund(order, sequence, 1_000);
    assert_eq!(order.data.lender, Some(w.lender));
    assert_eq!(order.data.funded_at, 1_000);
    assert!(!order.data.is_open);
    assert_eq!(w.balance(&w.lender_stable), 49_000);
    assert_eq!(w.balance(&w.borrower_stable), 10_800);
    assert_eq!(w.balance(&w.escrow), 200);

    let mut ctx = w.repayment(order);
    let transfers = payback(&mut ctx, sequence, 1_000 + 86_400 - 1).unwrap();
    assert_eq!(transfers.len(), 3);
    assert_eq!(
        transfers[0],
        Transfer { from: w.borrower_stable.key, to: w.lender_stable.key, authority: Authority::Owner(w.borrower), amount: 1050 }
    );
    assert_eq!((transfers[1].from, transfers[1].to, transfers[1].amount), (w.nft_escrow.key, w.borrower_nft.key, 1));
    assert_eq!((transfers[2].from, transfers[2].to, transfers[2].amount), (w.escrow.key, w.borrower_stable.key, 200));
    for t in &transfers[1..] {
        match &t.authority {
            Authority::Vault(auth) => {
                assert_eq!(auth.registry(), w.registry.key);
                assert_eq!(auth.nonce(), w.registry.data.authority_nonce);
            }
            Authority::Owner(_) => panic!("escrow is released by the vault authority"),
        }
    }
    w.perform(&transfers);
    assert_eq!(ctx.order.data.repaid_at, 1_000 + 86_400 - 1);
    assert_eq!(ctx.order.data.current_phase(), Phase::Repaid);
    assert_eq!(ctx.nft_collaterized_loans.data.total_locked_collateral, 0);
    assert_eq!(w.registry.data.total_locked_collateral - ctx.nft_collaterized_loans.data.total_locked_collateral, 200);

    assert_eq!(w.balance(&w.borrower_nft), 1);
    assert_eq!(w.balance(&w.nft_escrow), 0);
    assert_eq!(w.balance(&w.escrow), 0);
    assert_eq!(w.balance(&w.borrower_stable), 10_000 - 50);
    assert_eq!(w.balance(&w.lender_stable), 49_000 + 1050);
    assert_eq!(w.balance(&w.lender_stable), 50_000 + 50);
}

#[test]
fn cancel_order_returns_both_pieces_and_works_only_once() {
    let mut w = World::new();
    let (order, sequence) = w.create(1000, 50, 86400, 200, 100);
    let mut ctx = w.cancellation(order);
    let transfers = cancel_order(&mut ctx, sequence).unwrap();
    assert_eq!(transfers.len(), 2);
    assert_eq!((transfers[0].from, transfers[0].to, transfers[0].amount), (w.nft_escrow.key, w.borrower_nft.key, 1));
    assert_eq!((transfers[1].from, transfers[1].to, transfers[1].amount), (w.escrow.key, w.borrower_stable.key, 200));
    w.perform(&transfers);
    assert!(!ctx.order.data.is_open);
    assert_eq!(ctx.order.data, Order { is_open: false, ..order.data });
    assert_eq!(ctx.nft_collaterized_loans.data.total_locked_collateral, 0);
    assert_eq!(ctx.nft_collaterized_loans.data.order_sequence, 1);
    assert_eq!(w.balance(&w.borrower_nft), 1);
    assert_eq!(w.balance(&w.borrower_stable), 10_000);
    assert_eq!(w.balance(&w.escrow), 0);

    let before = ctx;
    assert_eq!(cancel_order(&mut ctx, sequence), Err(Failure::Rejected(ErrorCode::LoanAlreadyStarted)));
    assert_eq!(ctx, before);

    w.registry = ctx.nft_collaterized_loans;
    let mut late = w.funding(ctx.order);
    assert_eq!(give_loan(&mut late, sequence, 500), Err(Failure::Rejected(ErrorCode::LoanAlreadyStarted)));
}

#[test]
fn give_loan_refuses_a_lender_who_is_the_borrower() {
    let mut w = World::new();
    let (order, sequence) = w.create(1000, 50, 86400, 200, 100);
    let mut ctx = w.funding(order);
    ctx.lender = Signer { key: w.borrower, is_signer: true };
    ctx.lender_stablecoin_vault = w.borrower_stable;
    let before = ctx;
    assert_eq!(give_loan(&mut ctx, sequence, 500), Err(invalid(AccountName::Order, Constraint::Raw)));
    assert_eq!(ctx, before);
    assert!(ctx.order.data.is_open);
    assert_eq!(ctx.order.data.lender, None);
    assert_eq!(
        ctx.apply(500, &Some(w.authority), &Some(order.key)),
        Err(invalid(AccountName::Order, Constraint::Raw))
    );
}

#[test]
fn give_loan_pays_the_principal_to_the_borrower() {
    let mut w = World::new();
    let (order, sequence) = w.create(1000, 50, 86400, 200, 100);
    let mut ctx = w.funding(order);
    let transfers = give_loan(&mut ctx, sequence, 500).unwrap();
    assert_eq!(
        transfers,
        vec![Transfer { from: w.lender_stable.key, to: w.borrower_stable.key, authority: Authority::Owner(w.lender), amount: 1000 }]
    );
    assert_eq!(ctx.order.data, Order { lender: Some(w.lender), funded_at: 500, is_open: false, ..order.data });
    assert_eq!(ctx.nft_collaterized_loans, w.registry);
    let before = ctx;
    assert_eq!(give_loan(&mut ctx, sequence, 501), Err(Failure::Rejected(ErrorCode::LoanAlreadyStarted)));
    assert_eq!(ctx, before);
    let mut cancel = w.cancellation(ctx.order);
    assert_eq!(cancel_order(&mut cancel, sequence), Err(Failure::Rejected(ErrorCode::LoanAlreadyStarted)));
}

#[test]
fn give_loan_reports_the_first_broken_rule() {
    let mut w = World::new();
    let (order, sequence) = w.create(1000, 50, 86400, 200, 100);
    let good = w.funding(order);
    let run = |change: &dyn Fn(&mut GiveLoan), id: u64| {
        let mut ctx = good;
        change(&mut ctx);
        let before = ctx;
        let r = give_loan(&mut ctx, id, 500);
        assert_eq!(ctx, before);
        r.unwrap_err()
    };
    assert_eq!(
        run(&|c| c.stablecoin_mint.key = addr(99), sequence),
        invalid(AccountName::NftCollaterizedLoans, Constraint::HasOne)
    );
    assert_eq!(run(&|_| {}, sequence + 1), invalid(AccountName::Order, Constraint::Seeds));
    assert_eq!(run(&|c| c.order.key = addr(99), sequence), invalid(AccountName::Order, Constraint::Seeds));
    assert_eq!(
        run(&|c| c.order.data.authority_bump = c.order.data.authority_bump.wrapping_add(1), sequence),
        invalid(AccountName::Order, Constraint::Seeds)
    );
    assert_eq!(
        run(&|c| c.order.data.stable_escrow_account = addr(99), sequence),
        invalid(AccountName::Order, Constraint::Raw)
    );
    assert_eq!(
        run(&|c| c.borrower_stablecoin_vault.key = addr(99), sequence),
        invalid(AccountName::Order, Constraint::Raw)
    );
    assert_eq!(run(&|c| c.stablecoin_vault.owner = addr(99), sequence), invalid(AccountName::StablecoinVault, Constraint::Raw));
    assert_eq!(
        run(&|c| c.lender_stablecoin_vault.owner = addr(99), sequence),
        invalid(AccountName::LenderStablecoinVault, Constraint::Raw)
    );
    assert_eq!(
        run(&|c| c.lender_stablecoin_vault.mint = addr(99), sequence),
        invalid(AccountName::LenderStablecoinVault, Constraint::Raw)
    );
    assert_eq!(
        run(&|c| c.borrower_stablecoin_vault.owner = addr(99), sequence),
        invalid(AccountName::BorrowerStablecoinVault, Constraint::Raw)
    );
    assert_eq!(
        run(&|c| c.borrower_stablecoin_vault.mint = addr(99), sequence),
        invalid(AccountName::BorrowerStablecoinVault, Constraint::Raw)
    );
    assert_eq!(run(&|c| c.lender.is_signer = false, sequence), invalid(AccountName::Lender, Constraint::Signer));
    assert_eq!(
        run(&|c| {
            c.signer = addr(99);
            c.stablecoin_vault.owner = addr(99);
        }, sequence),
        invalid(AccountName::Signer, Constraint::Seeds)
    );
}

#[test]
fn cancel_order_reports_the_first_broken_rule() {
    let mut w = World::new();
    let (order, sequence) = w.create(1000, 50, 86400, 200, 100);
    let good = w.cancellation(order);
    let run = |change: &dyn Fn(&mut CancelOrder), id: u64| {
        let mut ctx = good;
        change(&mut ctx);
        let before = ctx;
        let r = cancel_order(&mut ctx, id);
        assert_eq!(ctx, before);
        r.unwrap_err()
    };
    assert_eq!(
        run(&|c| c.stablecoin_vault.key = addr(99), sequence),
        invalid(AccountName::NftCollaterizedLoans, Constraint::HasOne)
    );
    assert_eq!(run(&|_| {}, sequence + 1), invalid(AccountName::Order, Constraint::Seeds));
    assert_eq!(run(&|c| c.nft_collaterized_loans.key = addr(99), sequence), invalid(AccountName::Order, Constraint::Seeds));
    assert_eq!(run(&|c| c.order.data.borrower = addr(99), sequence), invalid(AccountName::Order, Constraint::Raw));
    assert_eq!(
        run(&|c| c.borrower = Signer { key: addr(20), is_signer: true }, sequence),
        invalid(AccountName::Order, Constraint::Raw)
    );
    assert_eq!(run(&|c| c.order.data.nft_escrow_account = addr(99), sequence), invalid(AccountName::Order, Constraint::Raw));
    assert_eq!(run(&|c| c.order.data.nft_id = addr(99), sequence), invalid(AccountName::Order, Constraint::Raw));
    assert_eq!(run(&|c| c.order.data.stable_escrow_account = addr(99), sequence), invalid(AccountName::Order, Constraint::Raw));
    assert_eq!(
        run(&|c| c.order.data.borrower_stable_account = addr(99), sequence),
        invalid(AccountName::Order, Constraint::Raw)
    );
    assert_eq!(run(&|c| c.stablecoin_vault.mint = addr(99), sequence), invalid(AccountName::StablecoinVault, Constraint::Raw));
    assert_eq!(
        run(&|c| c.user_stablecoin_vault.owner = addr(99), sequence),
        invalid(AccountName::UserStablecoinVault, Constraint::Raw)
    );
    assert_eq!(run(&|c| c.nft_mint.supply = 0, sequence), invalid(AccountName::NftMint, Constraint::Raw));
    assert_eq!(run(&|c| c.nft_vault.owner = addr(99), sequence), invalid(AccountName::NftVault, Constraint::Raw));
    assert_eq!(run(&|c| c.user_nft_vault.owner = addr(20), sequence), invalid(AccountName::UserNftVault, Constraint::Raw));
    assert_eq!(run(&|c| c.user_nft_vault.mint = addr(2), sequence), invalid(AccountName::UserNftVault, Constraint::Raw));
    assert_eq!(run(&|c| c.borrower.is_signer = false, sequence), invalid(AccountName::Borrower, Constraint::Signer));
    assert_eq!(
        run(&|c| {
            c.signer = addr(99);
            c.stablecoin_vault.owner = addr(99);
            c.nft_vault.owner = addr(99);
        }, sequence),
        invalid(AccountName::Signer, Constraint::Seeds)
    );
}

#[test]
fn create_order_stores_the_bump_seed_that_derives_the_order_again() {
    let mut w = World::new();
    let bump = w.bump();
    let mut ctx = w.creation();
    let before = ctx;
    for other in 0..=255u8 {
        if other != bump {
            assert_eq!(
                create_order(&mut ctx, other, 1000, 50, 86400, 200, 100),
                Err(invalid(AccountName::Order, Constraint::Seeds))
            );
            assert_eq!(ctx, before);
        }
    }
    let transfers = create_order(&mut ctx, bump, 1000, 50, 86400, 200, 100).unwrap();
    w.perform(&transfers);
    w.registry = ctx.nft_collaterized_loans;
    assert_eq!(ctx.order.data.authority_bump, bump);
    assert_eq!(
        derive_order_address(&w.registry.key, 0, ctx.order.data.authority_bump, &w.program),
        Some(ctx.order.key)
    );
    let mut cancel = w.cancellation(ctx.order);
    assert_eq!(cancel_order(&mut cancel, 0).map(|t| t.len()), Ok(2));
}

#[test]
fn repayment_at_the_deadline_and_one_past_it() {
    let mut w = World::new();
    let (order, sequence) = w.create(1000, 50, 86400, 200, 100);
    let order = w.fund(order, sequence, 1_000);
    let mut ctx = w.repayment(order);
    let before = ctx;
    assert_eq!(
        payback(&mut ctx, sequence, 1_000 + 86_400 + 1),
        Err(Failure::Rejected(ErrorCode::RepaymentPeriodExceeded))
    );
    assert_eq!(ctx, before);
    assert_eq!(payback(&mut ctx, sequence, 1_000 + 86_400).map(|t| t.len()), Ok(3));
    assert_eq!(ctx.order.data.repaid_at, 1_000 + 86_400);
    let before = ctx;
    assert_eq!(payback(&mut ctx, sequence, 1_000 + 86_400), Err(Failure::Rejected(ErrorCode::LoanNotProvided)));
    assert_eq!(ctx, before);
}

#[test]
fn payback_needs_a_funded_order() {
    let mut w = World::new();
    let (order, sequence) = w.create(1000, 50, 86400, 200, 100);
    assert_eq!(order.data.lender, None);
    for now in [0u64, 100, 200, 86_500, u64::MAX] {
        let mut ctx = w.repayment(order);
        let before = ctx;
        assert_eq!(payback(&mut ctx, sequence, now), Err(Failure::Rejected(ErrorCode::LoanNotProvided)));
        assert_eq!(ctx, before);
    }
    let mut ctx = w.repayment(order);
    ctx.lender_stablecoin_vault.owner = addr(99);
    assert_eq!(payback(&mut ctx, sequence, 200), Err(Failure::Rejected(ErrorCode::LoanNotProvided)));
    let mut ctx = w.repayment(order);
    ctx.lender_stablecoin_vault.mint = addr(99);
    assert_eq!(
        payback(&mut ctx, sequence, 200),
        Err(invalid(AccountName::LenderStablecoinVault, Constraint::Raw))
    );

    let mut cancel = w.cancellation(order);
    let transfers = cancel_order(&mut cancel, sequence).unwrap();
    w.perform(&transfers);
    w.registry = cancel.nft_collaterized_loans;
    let mut ctx = w.repayment(cancel.order);
    let before = ctx;
    assert_eq!(payback(&mut ctx, sequence, 200), Err(Failure::Rejected(ErrorCode::LoanNotProvided)));
    assert_eq!(ctx, before);
    assert_eq!(w.balance(&w.borrower_stable), 10_000);
    assert_eq!(w.balance(&w.lender_stable), 50_000);
}

#[test]
fn payback_reports_the_first_broken_rule() {
    let mut w = World::new();
    let (order, sequence) = w.create(1000, 50, 86400, 200, 100);
    let order = w.fund(order, sequence, 1_000);
    let good = w.repayment(order);
    let run = |change: &dyn Fn(&mut Payback), id: u64| {
        let mut ctx = good;
        change(&mut ctx);
        let before = ctx;
        let r = payback(&mut ctx, id, 2_000);
        assert_eq!(ctx, before);
        r.unwrap_err()
    };
    assert_eq!(
        run(&|c| c.nft_collaterized_loans.data.stable_asset_id = addr(99), sequence),
        invalid(AccountName::NftCollaterizedLoans, Constraint::HasOne)
    );
    assert_eq!(run(&|_| {}, 7), invalid(AccountName::Order, Constraint::Seeds));
    assert_eq!(run(&|c| c.order.data.nft_id = addr(99), sequence), invalid(AccountName::Order, Constraint::Raw));
    assert_eq!(run(&|c| c.order.data.borrower = addr(20), sequence), invalid(AccountName::Order, Constraint::Raw));
    assert_eq!(run(&|c| c.stablecoin_vault.owner = addr(99), sequence), invalid(AccountName::StablecoinVault, Constraint::Raw));
    assert_eq!(
        run(&|c| c.lender_stablecoin_vault.owner = addr(99), sequence),
        invalid(AccountName::LenderStablecoinVault, Constraint::Raw)
    );
    assert_eq!(
        run(&|c| c.lender_stablecoin_vault.mint = addr(3), sequence),
        invalid(AccountName::LenderStablecoinVault, Constraint::Raw)
    );
    assert_eq!(
        run(&|c| c.order.data.lender = None, sequence),
        invalid(AccountName::LenderStablecoinVault, Constraint::Raw)
    );
    assert_eq!(
        run(&|c| c.user_stablecoin_vault.mint = addr(99), sequence),
        invalid(AccountName::UserStablecoinVault, Constraint::Raw)
    );
    assert_eq!(run(&|c| c.nft_mint.decimals = 9, sequence), invalid(AccountName::NftMint, Constraint::Raw));
    assert_eq!(run(&|c| c.nft_vault.mint = addr(99), sequence), invalid(AccountName::NftVault, Constraint::Raw));
    assert_eq!(run(&|c| c.user_nft_vault.owner = addr(99), sequence), invalid(AccountName::UserNftVault, Constraint::Raw));
    assert_eq!(run(&|c| c.borrower.is_signer = false, sequence), invalid(AccountName::Borrower, Constraint::Signer));
    assert_eq!(
        run(&|c| c.nft_collaterized_loans.data.authority_nonce = c.nft_collaterized_loans.data.authority_nonce.wrapping_sub(1), sequence),
        invalid(AccountName::Signer, Constraint::Seeds)
    );
}

#[test]
fn liquidation_around_the_deadline() {
    let mut w = World::new();
    let (order, sequence) = w.create(1000, 50, 86400, 200, 100);
    let order = w.fund(order, sequence, 1_000);
    let mut ctx = w.liquidation(order);
    let before = ctx;
    assert_eq!(
        liquidate(&mut ctx, sequence, 1_000 + 86_400 - 1),
        Err(Failure::Rejected(ErrorCode::RepaymentPeriodNotExceeded))
    );
    assert_eq!(
        liquidate(&mut ctx, sequence, 1_000 + 86_400),
        Err(Failure::Rejected(ErrorCode::RepaymentPeriodNotExceeded))
    );
    assert_eq!(ctx, before);
    let transfers = liquidate(&mut ctx, sequence, 1_000 + 86_400 + 1).unwrap();
    assert_eq!(transfers.len(), 2);
    assert_eq!((transfers[0].from, transfers[0].to, transfers[0].amount), (w.nft_escrow.key, w.lender_nft.key, 1));
    assert_eq!((transfers[1].from, transfers[1].to, transfers[1].amount), (w.escrow.key, w.lender_stable.key, 200));
    w.perform(&transfers);
    assert_eq!(ctx.order.data, Order { liquidated_at: 1_000 + 86_400 + 1, ..order.data });
    assert_eq!(ctx.nft_collaterized_loans.data.total_locked_collateral, 0);
    assert_eq!(w.balance(&w.lender_nft), 1);
    assert_eq!(w.balance(&w.borrower_nft), 0);
    assert_eq!(w.balance(&w.nft_escrow), 0);
    assert_eq!(w.balance(&w.escrow), 0);
    assert_eq!(w.balance(&w.lender_stable), 50_000 - 1000 + 200);
    assert_eq!(w.balance(&w.borrower_stable), 10_000 - 200 + 1000);

    let before = ctx;
    assert_eq!(
        liquidate(&mut ctx, sequence, 1_000 + 86_400 + 2),
        Err(Failure::Rejected(ErrorCode::AlreadyLiquidated))
    );
    assert_eq!(ctx, before);
    w.registry = ctx.nft_collaterized_loans;
    let mut late = w.repayment(ctx.order);
    assert_eq!(payback(&mut late, sequence, 1_500), Err(Failure::Rejected(ErrorCode::LoanNotProvided)));
}

#[test]
fn liquidate_needs_a_funded_order() {
    let mut w = World::new();
    let (order, sequence) = w.create(1000, 50, 86400, 200, 100);
    assert_eq!(order.data.lender, None);
    for now in [0u64, 100, 86_400, 86_501, u64::MAX] {
        let mut ctx = w.liquidation(order);
        let before = ctx;
        assert_eq!(liquidate(&mut ctx, sequence, now), Err(Failure::Rejected(ErrorCode::LoanNotProvided)));
        assert_eq!(ctx, before);
    }
    let mut ctx = w.liquidation(order);
    ctx.lender.is_signer = false;
    assert_eq!(liquidate(&mut ctx, sequence, u64::MAX), Err(invalid(AccountName::Lender, Constraint::Signer)));

    let mut cancel = w.cancellation(order);
    let transfers = cancel_order(&mut cancel, sequence).unwrap();
    w.perform(&transfers);
    w.registry = cancel.nft_collaterized_loans;
    let mut ctx = w.liquidation(cancel.order);
    let before = ctx;
    assert_eq!(liquidate(&mut ctx, sequence, u64::MAX), Err(Failure::Rejected(ErrorCode::LoanNotProvided)));
    assert_eq!(ctx, before);
    assert_eq!(w.balance(&w.lender_nft), 0);
    assert_eq!(w.balance(&w.borrower_nft), 1);
}

#[test]
fn settlement_of_a_funded_order_is_for_its_lender_only() {
    let mut w = World::new();
    let (order, sequence) = w.create(1000, 50, 86400, 200, 100);
    let order = w.fund(order, sequence, 1_000);
    let mut ctx = w.liquidation(order);
    ctx.lender = Signer { key: addr(30), is_signer: true };
    ctx.lender_stablecoin_vault.owner = addr(30);
    ctx.user_nft_vault.owner = addr(30);
    let before = ctx;
    assert_eq!(liquidate(&mut ctx, sequence, 100_000), Err(invalid(AccountName::Order, Constraint::HasOne)));
    assert_eq!(ctx, before);
    let mut ctx = w.repayment(order);
    ctx.lender_stablecoin_vault.owner = addr(30);
    let before = ctx;
    assert_eq!(
        payback(&mut ctx, sequence, 2_000),
        Err(invalid(AccountName::LenderStablecoinVault, Constraint::Raw))
    );
    assert_eq!(ctx, before);
}

#[test]
fn liquidate_reports_the_first_broken_rule() {
    let mut w = World::new();
    let (order, sequence) = w.create(1000, 50, 86400, 200, 100);
    let order = w.fund(order, sequence, 1_000);
    let good = w.liquidation(order);
    let run = |change: &dyn Fn(&mut Liquidate), id: u64| {
        let mut ctx = good;
        change(&mut ctx);
        let before = ctx;
        let r = liquidate(&mut ctx, id, 100_000);
        assert_eq!(ctx, before);
        r.unwrap_err()
    };
    assert_eq!(
        run(&|c| c.nft_collaterized_loans.data.stable_escrow_account = addr(99), sequence),
        invalid(AccountName::NftCollaterizedLoans, Constraint::HasOne)
    );
    assert_eq!(run(&|_| {}, 7), invalid(AccountName::Order, Constraint::Seeds));
    assert_eq!(
        run(&|c| c.lender = Signer { key: addr(10), is_signer: true }, sequence),
        invalid(AccountName::Order, Constraint::HasOne)
    );
    assert_eq!(run(&|c| c.order.data.nft_escrow_account = addr(99), sequence), invalid(AccountName::Order, Constraint::Raw));
    assert_eq!(run(&|c| c.order.data.nft_id = addr(99), sequence), invalid(AccountName::Order, Constraint::Raw));
    assert_eq!(run(&|c| c.stablecoin_vault.mint = addr(99), sequence), invalid(AccountName::StablecoinVault, Constraint::Raw));
    assert_eq!(
        run(&|c| c.lender_stablecoin_vault.owner = addr(10), sequence),
        invalid(AccountName::LenderStablecoinVault, Constraint::Raw)
    );
    assert_eq!(run(&|c| c.nft_mint.supply = 2, sequence), invalid(AccountName::NftMint, Constraint::Raw));
    assert_eq!(run(&|c| c.nft_vault.owner = addr(10), sequence), invalid(AccountName::NftVault, Constraint::Raw));
    assert_eq!(run(&|c| c.user_nft_vault.owner = addr(10), sequence), invalid(AccountName::UserNftVault, Constraint::Raw));
    assert_eq!(run(&|c| c.lender.is_signer = false, sequence), invalid(AccountName::Lender, Constraint::Signer));
    assert_eq!(
        run(&|c| c.nft_collaterized_loans.data.authority_nonce = c.nft_collaterized_loans.data.authority_nonce.wrapping_sub(1), sequence),
        invalid(AccountName::Signer, Constraint::Seeds)
    );
}

#[test]
fn overflow_fails_the_whole_operation() {
    let mut w = World::new();
    let (order, sequence) = w.create(u64::MAX, 1, u64::MAX, 200, 100);
    let order = w.fund_unchecked(order, sequence, 1_000);
    let mut ctx = w.repayment(order);
    let before = ctx;
    assert_eq!(payback(&mut ctx, sequence, 2_000), Err(Failure::Overflow));
    assert_eq!(ctx, before);
    let mut ctx = w.liquidation(order);
    let before = ctx;
    assert_eq!(liquidate(&mut ctx, sequence, u64::MAX), Err(Failure::Overflow));
    assert_eq!(ctx, before);

    let mut full = w.creation();
    full.nft_collaterized_loans.data.total_locked_collateral = u64::MAX;
    let before = full;
    assert_eq!(create_order(&mut full, w.bump(), 1000, 50, 86400, 1, 100), Err(Failure::Overflow));
    assert_eq!(full, before);
    assert!(create_order(&mut full, w.bump(), 1000, 50, 86400, 0, 100).is_ok());

    w.restock();
    let (second, _) = w.create(1000, 50, 86400, 300, 100);
    let mut short = w.cancellation(second);
    short.nft_collaterized_loans.data.total_locked_collateral = 299;
    let before = short;
    assert_eq!(cancel_order(&mut short, sequence + 1), Err(Failure::Overflow));
    assert_eq!(short, before);
}

impl World {
    /// Funds the order without performing the transfer of the principal.
    fn fund_unchecked(&mut self, order: OrderAccount, sequence: u64, now: u64) -> OrderAccount {
        let mut ctx = self.funding(order);
        give_loan(&mut ctx, sequence, now).unwrap();
        ctx.order
    }
}

#[test]
fn the_registry_total_follows_the_orders_through_the_operations() {
    let mut w = World::new();
    let (a, ia) = w.create(1000, 50, 1000, 200, 100);
    w.restock();
    let (b, ib) = w.create(2000, 10, 1000, 0, 101);
    w.restock();
    let (c, ic) = w.create(500, 5, 1000, 35, 102);
    assert_eq!((ia, ib, ic), (0, 1, 2));
    assert_eq!(w.registry.data.total_locked_collateral, 235);
    assert_eq!(w.registry.data.order_sequence, 3);
    assert_eq!(w.balance(&w.escrow), 235);

    let mut cancel = w.cancellation(a);
    let transfers = cancel_order(&mut cancel, ia).unwrap();
    w.perform(&transfers);
    w.registry = cancel.nft_collaterized_loans;
    assert_eq!(w.registry.data.total_locked_collateral, 35);
    assert_eq!(w.balance(&w.escrow), 35);

    let b = w.fund(b, ib, 200);
    let c = w.fund(c, ic, 200);
    assert_eq!(w.registry.data.total_locked_collateral, 35);

    let mut seize = w.liquidation(c);
    let transfers = liquidate(&mut seize, ic, 1_201).unwrap();
    w.perform(&transfers);
    w.registry = seize.nft_collaterized_loans;
    assert_eq!(w.registry.data.total_locked_collateral, 0);
    assert_eq!(w.balance(&w.escrow), 0);

    let mut repay = w.repayment(b);
    assert_eq!(payback(&mut repay, ib, 1_200).map(|t| t[0].amount), Ok(2010));
    assert_eq!(repay.nft_collaterized_loans.data.total_locked_collateral, 0);
    assert_eq!(repay.nft_collaterized_loans.data.order_sequence, 3);
}
