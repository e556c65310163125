use claimable_yield::{
    checked_accrue_pending_yield, claim_into_self, claim_yield_authority, id, initialize_mint,
    process_claim_yield, process_disable_yield, process_enable_yield, process_initialize_mint,
    process_instruction, process_update_index, update_index, update_index_authority,
    yield_eligibility_authority, ClaimableYieldAccount, ClaimableYieldConfig, Mint,
    OptionalNonZeroPubkey, ProgramError, Pubkey, TokenAccount, TokenError,
};

const ONE: u64 = 1_000_000_000;

fn key(b: u8) -> Pubkey {
    Pubkey::new_from_array([b; 32])
}

// Keys: mint 1, owner 2, yield authority 8, index authority 9.
fn mint_with(global_index: u64, supply: u64) -> Mint {
    Mint {
        is_initialized: true,
        supply,
        yield_authority: OptionalNonZeroPubkey(key(8)),
        claimable_yield: Some(ClaimableYieldConfig {
            index_authority: OptionalNonZeroPubkey(key(9)),
            global_index,
        }),
    }
}

fn account_with(amount: u64, pending: u64, local: u64) -> TokenAccount {
    TokenAccount {
        is_initialized: true,
        mint: key(1),
        owner: key(2),
        amount,
        yield_eligible: false,
        claimable_yield: Some(ClaimableYieldAccount { pending_amount: pending, local_index: local }),
    }
}

fn blank_mint() -> Mint {
    Mint {
        is_initialized: false,
        supply: 5,
        yield_authority: OptionalNonZeroPubkey::default(),
        claimable_yield: None,
    }
}

#[test]
fn initialize_sets_config() {
    let mut mint = blank_mint();
    assert_eq!(
        process_initialize_mint(&mut mint, OptionalNonZeroPubkey(key(3)), OptionalNonZeroPubkey(key(4)), ONE),
        Ok(())
    );
    assert_eq!(
        mint,
        Mint {
            is_initialized: false,
            supply: 5,
            yield_authority: OptionalNonZeroPubkey(key(3)),
            claimable_yield: Some(ClaimableYieldConfig {
                index_authority: OptionalNonZeroPubkey(key(4)),
                global_index: ONE
            }),
        }
    );
}

#[test]
fn initialize_refuses_initialized_mint() {
    let mut mint = mint_with(ONE, 7);
    assert_eq!(
        process_initialize_mint(&mut mint, OptionalNonZeroPubkey(key(3)), OptionalNonZeroPubkey(key(4)), 2 * ONE),
        Err(ProgramError::Token(TokenError::AlreadyInUse))
    );
    assert_eq!(mint, mint_with(ONE, 7));
}

#[test]
fn update_index_authority_cases() {
    assert_eq!(update_index_authority(&mint_with(ONE, 0)), Ok(key(9)));
    let mut no_auth = mint_with(ONE, 0);
    no_auth.claimable_yield = Some(ClaimableYieldConfig::default());
    assert_eq!(
        update_index_authority(&no_auth),
        Err(ProgramError::Token(TokenError::NoAuthorityExists))
    );
    let no_ext = Mint { claimable_yield: None, ..mint_with(ONE, 0) };
    assert_eq!(update_index_authority(&no_ext), Err(ProgramError::InvalidAccountData));
}

#[test]
fn update_index_refuses_decrease() {
    let mut mint = mint_with(1_200_000_000, 0);
    assert_eq!(
        process_update_index(&mut mint, &key(9), 1_100_000_000),
        Err(ProgramError::Token(TokenError::InvalidInstruction))
    );
    assert_eq!(mint, mint_with(1_200_000_000, 0));
    assert_eq!(process_update_index(&mut mint, &key(9), 1_200_000_000), Ok(()));
    assert_eq!(process_update_index(&mut mint, &key(9), 1_300_000_000), Ok(()));
    assert_eq!(mint, mint_with(1_300_000_000, 0));
    let mut no_ext = Mint { claimable_yield: None, ..mint_with(ONE, 0) };
    assert_eq!(process_update_index(&mut no_ext, &key(9), 5), Err(ProgramError::InvalidAccountData));
}

#[test]
fn update_index_needs_index_authority() {
    let mut mint = mint_with(ONE, 0);
    assert_eq!(
        process_update_index(&mut mint, &key(2), 2 * ONE),
        Err(ProgramError::Token(TokenError::OwnerMismatch))
    );
    assert_eq!(mint, mint_with(ONE, 0));
    let mut no_auth = mint_with(ONE, 0);
    no_auth.claimable_yield = Some(ClaimableYieldConfig { global_index: ONE, ..ClaimableYieldConfig::default() });
    let before = no_auth;
    assert_eq!(
        process_update_index(&mut no_auth, &key(9), 2 * ONE),
        Err(ProgramError::Token(TokenError::NoAuthorityExists))
    );
    assert_eq!(no_auth, before);
}

#[test]
fn checked_accrue_without_extension_is_no_op() {
    let mut acct = TokenAccount { claimable_yield: None, ..account_with(100, 0, ONE) };
    let before = acct;
    assert_eq!(checked_accrue_pending_yield(&mut acct, &mint_with(2 * ONE, 0)), Ok(()));
    assert_eq!(acct, before);
}

#[test]
fn checked_accrue_needs_mint_extension() {
    let mut acct = account_with(100, 0, ONE);
    let mint = Mint { claimable_yield: None, ..mint_with(ONE, 0) };
    assert_eq!(checked_accrue_pending_yield(&mut acct, &mint), Err(ProgramError::InvalidAccountData));
    assert_eq!(acct, account_with(100, 0, ONE));
}

#[test]
fn checked_accrue_accrues() {
    let mut acct = account_with(1_000, 0, ONE);
    assert_eq!(checked_accrue_pending_yield(&mut acct, &mint_with(1_200_000_000, 0)), Ok(()));
    assert_eq!(acct, account_with(1_000, 200, 1_200_000_000));
}

#[test]
fn eligibility_authority_cases() {
    let mint = mint_with(ONE, 0);
    let acct = account_with(0, 0, ONE);
    assert_eq!(yield_eligibility_authority(&acct, &key(1), &mint), Ok(key(8)));
    assert_eq!(
        yield_eligibility_authority(&acct, &key(7), &mint),
        Err(ProgramError::Token(TokenError::MintMismatch))
    );
    let no_auth = Mint { yield_authority: OptionalNonZeroPubkey::default(), ..mint };
    assert_eq!(
        yield_eligibility_authority(&acct, &key(1), &no_auth),
        Err(ProgramError::Token(TokenError::NoAuthorityExists))
    );
}

#[test]
fn enable_then_disable_eligibility() {
    let mint = mint_with(ONE, 0);
    let initial = account_with(0, 0, ONE);
    let mut acct = initial;
    assert_eq!(process_enable_yield(&mut acct, &key(1), &mint, &key(8)), Ok(()));
    assert!(acct.yield_eligible);
    assert_eq!(
        process_enable_yield(&mut acct, &key(1), &mint, &key(8)),
        Err(ProgramError::Token(TokenError::InvalidState))
    );
    assert_eq!(process_disable_yield(&mut acct, &key(1), &mint, &key(8)), Ok(()));
    assert_eq!(acct, initial);
    assert_eq!(
        process_disable_yield(&mut acct, &key(1), &mint, &key(8)),
        Err(ProgramError::Token(TokenError::InvalidState))
    );
}

#[test]
fn enable_refuses_wrong_mint_authority_or_signer() {
    let mint = mint_with(ONE, 0);
    let mut acct = account_with(0, 0, ONE);
    assert_eq!(
        process_enable_yield(&mut acct, &key(7), &mint, &key(8)),
        Err(ProgramError::Token(TokenError::MintMismatch))
    );
    let no_auth = Mint { yield_authority: OptionalNonZeroPubkey::default(), ..mint };
    assert_eq!(
        process_enable_yield(&mut acct, &key(1), &no_auth, &key(8)),
        Err(ProgramError::Token(TokenError::NoAuthorityExists))
    );
    assert_eq!(
        process_enable_yield(&mut acct, &key(1), &mint, &key(2)),
        Err(ProgramError::Token(TokenError::OwnerMismatch))
    );
    assert_eq!(
        process_disable_yield(&mut acct, &key(7), &mint, &key(8)),
        Err(ProgramError::Token(TokenError::MintMismatch))
    );
    assert_eq!(acct, account_with(0, 0, ONE));
}

#[test]
fn claim_authority_depends_on_eligibility() {
    let mint = mint_with(ONE, 0);
    let mut source = account_with(0, 0, ONE);
    let target = account_with(0, 0, ONE);
    assert_eq!(claim_yield_authority(&source, &target, &key(1), &mint), Ok(key(8)));
    source.yield_eligible = true;
    assert_eq!(claim_yield_authority(&source, &target, &key(1), &mint), Ok(key(2)));
    let other = TokenAccount { mint: key(6), ..target };
    assert_eq!(
        claim_yield_authority(&source, &other, &key(1), &mint),
        Err(ProgramError::Token(TokenError::MintMismatch))
    );
}

#[test]
fn owner_claims_when_no_yield_authority() {
    let mint = Mint { yield_authority: OptionalNonZeroPubkey::default(), ..mint_with(1_100_000_000, 0) };
    let source = account_with(1_000, 0, ONE);
    let target = account_with(0, 0, ONE);
    assert_eq!(claim_yield_authority(&source, &target, &key(1), &mint), Ok(key(2)));
    let mut s = source;
    let mut t = target;
    let mut m = mint;
    assert_eq!(process_claim_yield(&mut s, &mut t, &key(1), &mut m, &key(2)), Ok(()));
    assert_eq!(t.amount, 100);
}

#[test]
fn claim_mints_pending_to_target() {
    let mut source = account_with(1_000, 50, ONE);
    let mut target = account_with(10, 0, ONE);
    let mut mint = mint_with(1_100_000_000, 5_000);
    assert_eq!(process_claim_yield(&mut source, &mut target, &key(1), &mut mint, &key(8)), Ok(()));
    // principal 1050 * 0.1 = 105, plus 50 pending = 155
    assert_eq!(source, account_with(1_000, 0, 1_100_000_000));
    assert_eq!(target.amount, 165);
    assert_eq!(mint.supply, 5_155);
}

#[test]
fn claim_moves_index_even_when_yield_rounds_to_zero() {
    let mut source = account_with(10, 0, ONE);
    let mut target = account_with(10, 0, ONE);
    let mut mint = mint_with(1_005_000_000, 77);
    assert_eq!(process_claim_yield(&mut source, &mut target, &key(1), &mut mint, &key(8)), Ok(()));
    assert_eq!(source, account_with(10, 0, 1_005_000_000));
    assert_eq!(target, account_with(10, 0, ONE));
    assert_eq!(mint, mint_with(1_005_000_000, 77));
}

#[test]
fn claim_refuses_wrong_signer() {
    let mut source = account_with(1_000, 50, ONE);
    let mut target = account_with(10, 0, ONE);
    let mut mint = mint_with(1_100_000_000, 5_000);
    assert_eq!(
        process_claim_yield(&mut source, &mut target, &key(1), &mut mint, &key(2)),
        Err(ProgramError::Token(TokenError::OwnerMismatch))
    );
    assert_eq!(source, account_with(1_000, 50, ONE));
    assert_eq!(mint, mint_with(1_100_000_000, 5_000));
}

#[test]
fn claim_supply_overflow() {
    let mut source = account_with(0, 5, ONE);
    let mut target = account_with(0, 0, ONE);
    let mut mint = mint_with(ONE, u64::MAX - 1);
    assert_eq!(
        process_claim_yield(&mut source, &mut target, &key(1), &mut mint, &key(8)),
        Err(ProgramError::Token(TokenError::Overflow))
    );
    assert_eq!(target, account_with(0, 0, ONE));
    assert_eq!(mint.supply, u64::MAX - 1);
}

#[test]
fn claim_target_overflow() {
    let mut source = account_with(0, 5, ONE);
    let mut target = account_with(u64::MAX - 1, 0, ONE);
    let mut mint = mint_with(ONE, 0);
    assert_eq!(
        process_claim_yield(&mut source, &mut target, &key(1), &mut mint, &key(8)),
        Err(ProgramError::Token(TokenError::Overflow))
    );
    assert_eq!(target.amount, u64::MAX - 1);
}

#[test]
fn claim_without_extension() {
    let mut source = TokenAccount { claimable_yield: None, ..account_with(0, 5, ONE) };
    let mut target = account_with(0, 0, ONE);
    let mut mint = mint_with(ONE, 0);
    assert_eq!(
        process_claim_yield(&mut source, &mut target, &key(1), &mut mint, &key(8)),
        Err(ProgramError::InvalidAccountData)
    );
}

#[test]
fn second_claim_mints_nothing() {
    let mut source = account_with(10, 7, ONE);
    let mut target = account_with(0, 0, ONE);
    let mut mint = mint_with(1_005_000_000, 100);
    assert_eq!(process_claim_yield(&mut source, &mut target, &key(1), &mut mint, &key(8)), Ok(()));
    assert_eq!(source, account_with(10, 0, 1_005_000_000));
    assert_eq!((target.amount, mint.supply), (7, 107));
    let (s1, t1, m1) = (source, target, mint);
    assert_eq!(process_claim_yield(&mut source, &mut target, &key(1), &mut mint, &key(8)), Ok(()));
    assert_eq!((source, target, mint), (s1, t1, m1));
}

#[test]
fn claim_into_self_adds_to_balance() {
    let mut acct = account_with(1_000, 50, ONE);
    let mut mint = mint_with(1_100_000_000, 5_000);
    assert_eq!(claim_into_self(&mut acct, &key(1), &mut mint, &key(8)), Ok(()));
    assert_eq!(acct, account_with(1_155, 0, 1_100_000_000));
    assert_eq!(mint.supply, 5_155);
}

#[test]
fn claim_into_self_refusals() {
    let mut acct = account_with(1_000, 50, ONE);
    let mut mint = mint_with(1_100_000_000, 5_000);
    assert_eq!(
        claim_into_self(&mut acct, &key(6), &mut mint, &key(8)),
        Err(ProgramError::Token(TokenError::MintMismatch))
    );
    assert_eq!(
        claim_into_self(&mut acct, &key(1), &mut mint, &key(2)),
        Err(ProgramError::Token(TokenError::OwnerMismatch))
    );
    let mut full = account_with(u64::MAX, 50, ONE);
    assert_eq!(
        claim_into_self(&mut full, &key(1), &mut mint, &key(8)),
        Err(ProgramError::ArithmeticOverflow)
    );
    assert_eq!(acct, account_with(1_000, 50, ONE));
}

#[test]
fn dispatch_runs_built_instructions() {
    let mut mint = blank_mint();
    let mut acct = account_with(1_000, 0, ONE);
    let ix = initialize_mint(&id(), &key(1), Some(key(8)), Some(key(9)), ONE).unwrap();
    assert_eq!(process_instruction(&id(), &ix.data[1..], &mut acct, &key(1), &mut mint, &key(9)), Ok(()));
    // The mint itself is initialized next, by the token program's own instruction.
    mint.is_initialized = true;
    assert_eq!(update_index_authority(&mint), Ok(key(9)));
    let ix = update_index(&id(), &key(1), &key(9), &[], 1_200_000_000).unwrap();
    assert_eq!(process_instruction(&id(), &ix.data[1..], &mut acct, &key(1), &mut mint, &key(9)), Ok(()));
    assert_eq!(mint.claimable_yield.unwrap().global_index, 1_200_000_000);
    let ix = claimable_yield::claim_yield(&id(), &key(1), &key(1), &key(8), &[]).unwrap();
    assert_eq!(process_instruction(&id(), &ix.data[1..], &mut acct, &key(1), &mut mint, &key(8)), Ok(()));
    assert_eq!(acct, account_with(1_200, 0, 1_200_000_000));
    assert_eq!(mint.supply, 205);
}

#[test]
fn dispatch_decoding_errors_change_nothing() {
    let mut mint = mint_with(ONE, 0);
    let mut acct = account_with(1_000, 0, ONE);
    assert_eq!(
        process_instruction(&key(5), &[2], &mut acct, &key(1), &mut mint, &key(8)),
        Err(ProgramError::IncorrectProgramId)
    );
    assert_eq!(
        process_instruction(&id(), &[9], &mut acct, &key(1), &mut mint, &key(8)),
        Err(ProgramError::Token(TokenError::InvalidInstruction))
    );
    assert_eq!((acct, mint), (account_with(1_000, 0, ONE), mint_with(ONE, 0)));
}

#[test]
fn uninitialized_mint_or_account_is_refused() {
    let mut mint = Mint { is_initialized: false, ..mint_with(ONE, 0) };
    let before = mint;
    assert_eq!(
        process_update_index(&mut mint, &key(9), 2 * ONE),
        Err(ProgramError::UninitializedAccount)
    );
    assert_eq!(mint, before);
    let mut acct = account_with(1_000, 0, ONE);
    assert_eq!(
        process_enable_yield(&mut acct, &key(1), &mint, &key(8)),
        Err(ProgramError::UninitializedAccount)
    );
    assert_eq!(
        claim_into_self(&mut acct, &key(1), &mut mint, &key(8)),
        Err(ProgramError::UninitializedAccount)
    );
    let mut ready = mint_with(1_100_000_000, 0);
    let mut blank = TokenAccount { is_initialized: false, ..account_with(1_000, 0, ONE) };
    assert_eq!(
        process_claim_yield(&mut acct, &mut blank, &key(1), &mut ready, &key(8)),
        Err(ProgramError::UninitializedAccount)
    );
    assert_eq!(
        process_disable_yield(&mut blank, &key(1), &ready, &key(8)),
        Err(ProgramError::UninitializedAccount)
    );
    assert_eq!(acct, account_with(1_000, 0, ONE));
    assert_eq!(ready, mint_with(1_100_000_000, 0));
}
