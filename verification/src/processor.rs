use vstd::prelude::*;

use crate::error::{ProgramError, TokenError};
use crate::instruction::{
    decode_error, decode_instruction, decodes_to, is_token_program_id, DecodedInstruction,
};
use crate::laws::lemma_decode_deterministic;
use crate::pubkey::{optional_key_view, OptionalNonZeroPubkey, Pubkey};
use crate::state::{accrue_result, ClaimableYieldAccount, ClaimableYieldConfig};

verus! {

/// What the claimable-yield processor reads and writes of a mint.
#[derive(Clone, Copy, Debug, PartialEq)]
pub struct Mint {
    /// Whether the mint itself has been initialized.
    pub is_initialized: bool,
    /// Total supply of the mint's tokens.
    pub supply: u64,
    /// The authority over which accounts may claim yield; the all-zero key
    /// when there is none.
    pub yield_authority: OptionalNonZeroPubkey,
    /// The mint's claimable-yield configuration, if the mint has the extension.
    pub claimable_yield: Option<ClaimableYieldConfig>,
}

/// What the claimable-yield processor reads and writes of a token account.
#[derive(Clone, Copy, Debug, PartialEq)]
pub struct TokenAccount {
    /// Whether the account has been initialized.
    pub is_initialized: bool,
    /// The mint of the account's tokens.
    pub mint: Pubkey,
    /// The account's owner.
    pub owner: Pubkey,
    /// The account's spendable balance.
    pub amount: u64,
    /// Whether the account's owner may claim its yield itself; otherwise the
    /// mint's yield authority must.
    pub yield_eligible: bool,
    /// The account's claimable-yield state, if the account has the extension.
    pub claimable_yield: Option<ClaimableYieldAccount>,
}

/// Brings the account's pending yield up to the mint's global index, if the
/// account has the claimable-yield extension; an account without it is left
/// alone.
///
/// Fails with `InvalidAccountData` when the account has the extension and the
/// mint does not, and with the error of `accrue_result` when accruing fails;
/// the account is unchanged on failure.
pub fn checked_accrue_pending_yield(account: &mut TokenAccount, mint: &Mint) -> (r: Result<
    (),
    ProgramError,
>)
    ensures
        old(account).claimable_yield is None ==> r is Ok && *final(account) == *old(account),
        old(account).claimable_yield is Some && mint.claimable_yield is None ==> r == Err::<
            (),
            ProgramError,
        >(ProgramError::InvalidAccountData) && *final(account) == *old(account),
        old(account).claimable_yield matches Some(ext) ==> (mint.claimable_yield matches Some(
            cfg,
        ) ==> match accrue_result(ext, old(account).amount, cfg.global_index) {
            Ok(n) => r is Ok && *final(account) == (TokenAccount {
                claimable_yield: Some(n),
                ..*old(account)
            }),
            Err(e) => r == Err::<(), ProgramError>(e) && *final(account) == *old(account),
        }),
{
    match account.claimable_yield {
        None => Ok(()),
        Some(ext) => {
            let global_index: u64 = match mint.claimable_yield {
                Some(cfg) => cfg.get_global_index(),
                None => return Err(ProgramError::InvalidAccountData),
            };
            let account_amount: u64 = account.amount;
            let mut updated = ext;
            updated.accrue_pending_yield(account_amount, global_index)?;
            account.claimable_yield = Some(updated);
            Ok(())
        },
    }
}

/// Checks that `signer` is the authority that `authority` gives: its error
/// when there is none, `TokenError::OwnerMismatch` when `signer` is another
/// key.
pub open spec fn authorize(authority: Result<Pubkey, ProgramError>, signer: Pubkey) -> Result<
    (),
    ProgramError,
> {
    match authority {
        Err(e) => Err(e),
        Ok(k) => if signer == k {
            Ok(())
        } else {
            Err(ProgramError::Token(TokenError::OwnerMismatch))
        },
    }
}

/// Checks that `signer` is `authority`; fails with
/// `TokenError::OwnerMismatch` otherwise.
fn check_signer(authority: &Pubkey, signer: &Pubkey) -> (r: Result<(), ProgramError>)
    ensures
        r == authorize(Ok::<Pubkey, ProgramError>(*authority), *signer),
{
    if *signer == *authority {
        Ok(())
    } else {
        Err(ProgramError::Token(TokenError::OwnerMismatch))
    }
}

// ---------------------------------------------------------------------------
// InitializeMint

/// The result of setting up the claimable-yield extension of a mint, and the
/// mint after it: `TokenError::AlreadyInUse` for a mint that is already
/// initialized (the mint is then unchanged); otherwise the mint with the
/// yield authority, the index authority and the initial global index.
pub open spec fn initialize_mint_result(
    mint: Mint,
    yield_authority: OptionalNonZeroPubkey,
    index_authority: OptionalNonZeroPubkey,
    initial_index: u64,
) -> (Result<(), ProgramError>, Mint) {
    if mint.is_initialized {
        (Err(ProgramError::Token(TokenError::AlreadyInUse)), mint)
    } else {
        (
            Ok(()),
            Mint {
                yield_authority,
                claimable_yield: Some(
                    ClaimableYieldConfig { index_authority, global_index: initial_index },
                ),
                ..mint
            },
        )
    }
}

/// Sets up the claimable-yield extension of a mint before the mint itself is
/// initialized (see `initialize_mint_result`); an initialized mint is refused.
pub fn process_initialize_mint(
    mint: &mut Mint,
    yield_authority: OptionalNonZeroPubkey,
    index_authority: OptionalNonZeroPubkey,
    initial_index: u64,
) -> (r: Result<(), ProgramError>)
    ensures
        (r, *final(mint)) == initialize_mint_result(
            *old(mint),
            yield_authority,
            index_authority,
            initial_index,
        ),
{
    if mint.is_initialized {
        return Err(ProgramError::Token(TokenError::AlreadyInUse));
    }
    let mut extension = ClaimableYieldConfig::default();
    extension.index_authority = index_authority;
    extension.set_global_index(initial_index);
    mint.yield_authority = yield_authority;
    mint.claimable_yield = Some(extension);
    Ok(())
}

// ---------------------------------------------------------------------------
// UpdateIndex

/// The authority that must authorize an update of the mint's global index:
/// `UninitializedAccount` when the mint is not initialized,
/// `InvalidAccountData` when the mint has no claimable-yield extension,
/// `TokenError::NoAuthorityExists` when it has no index authority.
pub open spec fn index_authority_result(mint: Mint) -> Result<Pubkey, ProgramError> {
    if !mint.is_initialized {
        Err(ProgramError::UninitializedAccount)
    } else {
    match mint.claimable_yield {
        None => Err(ProgramError::InvalidAccountData),
        Some(cfg) => match optional_key_view(cfg.index_authority) {
            None => Err(ProgramError::Token(TokenError::NoAuthorityExists)),
            Some(k) => Ok(k),
        },
    }
    }
}

/// The authority that must authorize an update of the mint's global index
/// (see `index_authority_result`).
pub fn update_index_authority(mint: &Mint) -> (r: Result<Pubkey, ProgramError>)
    ensures
        r == index_authority_result(*mint),
{
    if !mint.is_initialized {
        return Err(ProgramError::UninitializedAccount);
    }
    let extension = match mint.claimable_yield {
        Some(cfg) => cfg,
        None => return Err(ProgramError::InvalidAccountData),
    };
    match extension.index_authority.to_option() {
        Some(k) => Ok(k),
        None => Err(ProgramError::Token(TokenError::NoAuthorityExists)),
    }
}

/// The result of setting the mint's global index to `new_index`, and the
/// mint after it: `InvalidAccountData` when the mint has no claimable-yield
/// extension, `TokenError::InvalidInstruction` when `new_index` is below the
/// current global index (the mint is then unchanged), and otherwise the mint
/// with the new global index.
pub open spec fn update_index_result(mint: Mint, new_index: u64) -> (Result<(), ProgramError>, Mint) {
    match mint.claimable_yield {
        None => (Err(ProgramError::InvalidAccountData), mint),
        Some(cfg) => if new_index < cfg.global_index {
            (Err(ProgramError::Token(TokenError::InvalidInstruction)), mint)
        } else {
            (
                Ok(()),
                Mint {
                    claimable_yield: Some(ClaimableYieldConfig { global_index: new_index, ..cfg }),
                    ..mint
                },
            )
        },
    }
}

/// The result of an index update authorized by `signer`, and the mint after
/// it: the errors of `index_authority_result` and `authorize` first (the
/// mint is then unchanged), then `update_index_result`.
pub open spec fn update_index_step(mint: Mint, signer: Pubkey, new_index: u64) -> (
    Result<(), ProgramError>,
    Mint,
) {
    match authorize(index_authority_result(mint), signer) {
        Err(e) => (Err(e), mint),
        Ok(_) => update_index_result(mint, new_index),
    }
}

/// Sets the mint's global index to `new_index` (see `update_index_step`).
///
/// `signer` is the key of the account that authorizes the update; the caller
/// has checked its signature, or that of its multisignature signers. A
/// signer other than the index authority is refused, and so is a new index
/// below the current one, so that yield is never reduced.
pub fn process_update_index(mint: &mut Mint, signer: &Pubkey, new_index: u64) -> (r: Result<
    (),
    ProgramError,
>)
    ensures
        (r, *final(mint)) == update_index_step(*old(mint), *signer, new_index),
{
    let authority = update_index_authority(mint)?;
    check_signer(&authority, signer)?;
    let mut extension = match mint.claimable_yield {
        Some(cfg) => cfg,
        None => return Err(ProgramError::InvalidAccountData),
    };
    let current_index: u64 = extension.get_global_index();
    if new_index < current_index {
        return Err(ProgramError::Token(TokenError::InvalidInstruction));
    }
    extension.set_global_index(new_index);
    mint.claimable_yield = Some(extension);
    Ok(())
}

// ---------------------------------------------------------------------------
// EnableYield / DisableYield

/// The authority that must authorize a change of the account's yield
/// eligibility, the mint's yield authority. Errors, in this order:
/// `UninitializedAccount` when the account is not initialized,
/// `TokenError::MintMismatch` when it is not of the mint at `mint_key`,
/// `InvalidAccountData` when it has no claimable-yield extension,
/// `UninitializedAccount` when the mint is not initialized,
/// `InvalidAccountData` when the mint has no claimable-yield extension, and
/// `TokenError::NoAuthorityExists` when the mint has no yield authority.
pub open spec fn eligibility_authority_result(account: TokenAccount, mint_key: Pubkey, mint: Mint) -> Result<
    Pubkey,
    ProgramError,
> {
    if !account.is_initialized {
        Err(ProgramError::UninitializedAccount)
    } else if account.mint != mint_key {
        Err(ProgramError::Token(TokenError::MintMismatch))
    } else if account.claimable_yield is None {
        Err(ProgramError::InvalidAccountData)
    } else if !mint.is_initialized {
        Err(ProgramError::UninitializedAccount)
    } else if mint.claimable_yield is None {
        Err(ProgramError::InvalidAccountData)
    } else {
        match optional_key_view(mint.yield_authority) {
            None => Err(ProgramError::Token(TokenError::NoAuthorityExists)),
            Some(k) => Ok(k),
        }
    }
}

/// The authority that must authorize a change of the account's yield
/// eligibility (see `eligibility_authority_result`).
pub fn yield_eligibility_authority(account: &TokenAccount, mint_key: &Pubkey, mint: &Mint) -> (r:
    Result<Pubkey, ProgramError>)
    ensures
        r == eligibility_authority_result(*account, *mint_key, *mint),
{
    if !account.is_initialized {
        return Err(ProgramError::UninitializedAccount);
    }
    if !(account.mint == *mint_key) {
        return Err(ProgramError::Token(TokenError::MintMismatch));
    }
    if account.claimable_yield.is_none() {
        return Err(ProgramError::InvalidAccountData);
    }
    if !mint.is_initialized {
        return Err(ProgramError::UninitializedAccount);
    }
    if mint.claimable_yield.is_none() {
        return Err(ProgramError::InvalidAccountData);
    }
    match mint.yield_authority.to_option() {
        Some(k) => Ok(k),
        None => Err(ProgramError::Token(TokenError::NoAuthorityExists)),
    }
}

/// The result of setting the account's yield eligibility to `eligible`,
/// authorized by `signer`, and the account after it: the errors of
/// `eligibility_authority_result` and `authorize` first, then
/// `TokenError::InvalidState` when the eligibility is already `eligible`;
/// on any error the account is unchanged. Otherwise the account with the new
/// eligibility.
pub open spec fn eligibility_step(
    account: TokenAccount,
    mint_key: Pubkey,
    mint: Mint,
    signer: Pubkey,
    eligible: bool,
) -> (Result<(), ProgramError>, TokenAccount) {
    match authorize(eligibility_authority_result(account, mint_key, mint), signer) {
        Err(e) => (Err(e), account),
        Ok(_) => if account.yield_eligible == eligible {
            (Err(ProgramError::Token(TokenError::InvalidState)), account)
        } else {
            (Ok(()), TokenAccount { yield_eligible: eligible, ..account })
        },
    }
}

/// Sets the account's yield eligibility to `eligible` (see
/// `eligibility_step`).
fn set_yield_eligibility(
    account: &mut TokenAccount,
    mint_key: &Pubkey,
    mint: &Mint,
    signer: &Pubkey,
    eligible: bool,
) -> (r: Result<(), ProgramError>)
    ensures
        (r, *final(account)) == eligibility_step(*old(account), *mint_key, *mint, *signer, eligible),
{
    let authority = yield_eligibility_authority(account, mint_key, mint)?;
    check_signer(&authority, signer)?;
    if account.yield_eligible == eligible {
        return Err(ProgramError::Token(TokenError::InvalidState));
    }
    account.yield_eligible = eligible;
    Ok(())
}

/// Marks the account as eligible to claim its own yield (see
/// `eligibility_step`); an account that is already eligible is refused.
///
/// `signer` is the key of the account that authorizes the change; the caller
/// has checked its signature, or that of its multisignature signers.
pub fn process_enable_yield(
    account: &mut TokenAccount,
    mint_key: &Pubkey,
    mint: &Mint,
    signer: &Pubkey,
) -> (r: Result<(), ProgramError>)
    ensures
        (r, *final(account)) == eligibility_step(*old(account), *mint_key, *mint, *signer, true),
{
    set_yield_eligibility(account, mint_key, mint, signer, true)
}

/// Marks the account as no longer eligible to claim its own yield (see
/// `eligibility_step`); an account that is not eligible is refused.
///
/// `signer` is the key of the account that authorizes the change; the caller
/// has checked its signature, or that of its multisignature signers.
pub fn process_disable_yield(
    account: &mut TokenAccount,
    mint_key: &Pubkey,
    mint: &Mint,
    signer: &Pubkey,
) -> (r: Result<(), ProgramError>)
    ensures
        (r, *final(account)) == eligibility_step(*old(account), *mint_key, *mint, *signer, false),
{
    set_yield_eligibility(account, mint_key, mint, signer, false)
}

// ---------------------------------------------------------------------------
// Claims

/// The authority that must authorize a claim of the source account's yield:
/// the account's owner when the account is eligible to claim or when the
/// mint has no yield authority, the mint's yield authority otherwise.
///
/// Errors, in this order: `UninitializedAccount` when the source is not
/// initialized, `TokenError::MintMismatch` when it is not of the mint at
/// `mint_key`, the same two for the target, `UninitializedAccount` when the
/// mint is not initialized, and `InvalidAccountData` when the mint or the
/// source account has no claimable-yield extension.
pub open spec fn claim_authority_result(
    source: TokenAccount,
    target: TokenAccount,
    mint_key: Pubkey,
    mint: Mint,
) -> Result<Pubkey, ProgramError> {
    if !source.is_initialized {
        Err(ProgramError::UninitializedAccount)
    } else if source.mint != mint_key {
        Err(ProgramError::Token(TokenError::MintMismatch))
    } else if !target.is_initialized {
        Err(ProgramError::UninitializedAccount)
    } else if target.mint != mint_key {
        Err(ProgramError::Token(TokenError::MintMismatch))
    } else if !mint.is_initialized {
        Err(ProgramError::UninitializedAccount)
    } else if mint.claimable_yield is None || source.claimable_yield is None {
        Err(ProgramError::InvalidAccountData)
    } else if source.yield_eligible {
        Ok(source.owner)
    } else {
        match optional_key_view(mint.yield_authority) {
            None => Ok(source.owner),
            Some(k) => Ok(k),
        }
    }
}

/// The authority that must authorize a claim of the source account's yield
/// into the target account (see `claim_authority_result`). With no yield
/// authority, token account owners may always claim yield.
pub fn claim_yield_authority(
    source: &TokenAccount,
    target: &TokenAccount,
    mint_key: &Pubkey,
    mint: &Mint,
) -> (r: Result<Pubkey, ProgramError>)
    ensures
        r == claim_authority_result(*source, *target, *mint_key, *mint),
{
    if !source.is_initialized {
        return Err(ProgramError::UninitializedAccount);
    }
    if !(source.mint == *mint_key) {
        return Err(ProgramError::Token(TokenError::MintMismatch));
    }
    if !target.is_initialized {
        return Err(ProgramError::UninitializedAccount);
    }
    if !(target.mint == *mint_key) {
        return Err(ProgramError::Token(TokenError::MintMismatch));
    }
    if !mint.is_initialized {
        return Err(ProgramError::UninitializedAccount);
    }
    if mint.claimable_yield.is_none() || source.claimable_yield.is_none() {
        return Err(ProgramError::InvalidAccountData);
    }
    if source.yield_eligible {
        Ok(source.owner)
    } else {
        match mint.yield_authority.to_option() {
            Some(k) => Ok(k),
            None => Ok(source.owner),
        }
    }
}

/// The account's claimable-yield state after a claim has taken its yield:
/// nothing pending, and the local index at the mint's global index.
pub open spec fn claimed(account: TokenAccount, global_index: u64) -> TokenAccount {
    TokenAccount {
        claimable_yield: Some(ClaimableYieldAccount { pending_amount: 0, local_index: global_index }),
        ..account
    }
}

/// The result of a claim of the source account's yield into the target
/// account, and the source, target and mint after it.
///
/// The source account's yield is first accrued up to the mint's global index
/// (`accrue_result`). Then its pending amount is taken: the source is left
/// with nothing pending and its local index at the global index, and the
/// amount, if positive, is added to the mint's supply and then to the
/// target's balance. Each step that fails stops the claim and leaves the
/// later steps undone.
pub open spec fn claim_result(source: TokenAccount, target: TokenAccount, mint: Mint) -> (
    Result<(), ProgramError>,
    TokenAccount,
    TokenAccount,
    Mint,
) {
    match (source.claimable_yield, mint.claimable_yield) {
        (Some(ext), Some(cfg)) => match accrue_result(ext, source.amount, cfg.global_index) {
            Err(e) => (Err(e), source, target, mint),
            Ok(n) => {
                let total: u64 = n.pending_amount;
                let cleared = claimed(source, cfg.global_index);
                if total == 0 {
                    (Ok(()), cleared, target, mint)
                } else if mint.supply + total > u64::MAX {
                    (Err(ProgramError::Token(TokenError::Overflow)), cleared, target, mint)
                } else {
                    let minted = Mint { supply: (mint.supply + total) as u64, ..mint };
                    if target.amount + total > u64::MAX {
                        (Err(ProgramError::Token(TokenError::Overflow)), cleared, target, minted)
                    } else {
                        (
                            Ok(()),
                            cleared,
                            TokenAccount { amount: (target.amount + total) as u64, ..target },
                            minted,
                        )
                    }
                }
            },
        },
        _ => (Err(ProgramError::InvalidAccountData), source, target, mint),
    }
}

/// The result of a claim into another account authorized by `signer`, and
/// the source, target and mint after it: the errors of
/// `claim_authority_result` and `authorize` first (nothing changes), then
/// `claim_result`.
pub open spec fn claim_step(
    source: TokenAccount,
    target: TokenAccount,
    mint_key: Pubkey,
    mint: Mint,
    signer: Pubkey,
) -> (Result<(), ProgramError>, TokenAccount, TokenAccount, Mint) {
    match authorize(claim_authority_result(source, target, mint_key, mint), signer) {
        Err(e) => (Err(e), source, target, mint),
        Ok(_) => claim_result(source, target, mint),
    }
}

/// Takes the source account's accrued yield: accrues it, clears the pending
/// amount and moves the local index to the global index. Returns the amount
/// to mint, the source after it, and the error that stopped it.
fn take_yield(source: &mut TokenAccount, mint: &Mint) -> (r: Result<u64, ProgramError>)
    ensures
        match (old(source).claimable_yield, mint.claimable_yield) {
            (Some(ext), Some(cfg)) => match accrue_result(ext, old(source).amount, cfg.global_index) {
                Err(e) => r == Err::<u64, ProgramError>(e) && *final(source) == *old(source),
                Ok(n) => r == Ok::<u64, ProgramError>(n.pending_amount) && *final(source)
                    == claimed(*old(source), cfg.global_index),
            },
            _ => r == Err::<u64, ProgramError>(ProgramError::InvalidAccountData) && *final(source)
                == *old(source),
        },
{
    let global_index: u64 = match mint.claimable_yield {
        Some(cfg) => cfg.get_global_index(),
        None => return Err(ProgramError::InvalidAccountData),
    };
    let mut extension = match source.claimable_yield {
        Some(ext) => ext,
        None => return Err(ProgramError::InvalidAccountData),
    };
    let source_amount: u64 = source.amount;
    extension.accrue_pending_yield(source_amount, global_index)?;
    let total_yield: u64 = extension.get_pending_amount();
    extension.reset_pending_amount();
    extension.set_local_index(global_index);
    source.claimable_yield = Some(extension);
    Ok(total_yield)
}

/// Claims the source account's yield into the target account (see
/// `claim_step`). The source must be of the mint at `mint_key`, as must the
/// target.
///
/// `signer` is the key of the account that authorizes the claim; the caller
/// has checked its signature, or that of its multisignature signers.
pub fn process_claim_yield(
    source: &mut TokenAccount,
    target: &mut TokenAccount,
    mint_key: &Pubkey,
    mint: &mut Mint,
    signer: &Pubkey,
) -> (r: Result<(), ProgramError>)
    ensures
        (r, *final(source), *final(target), *final(mint)) == claim_step(
            *old(source),
            *old(target),
            *mint_key,
            *old(mint),
            *signer,
        ),
{
    let authority = claim_yield_authority(source, target, mint_key, mint)?;
    check_signer(&authority, signer)?;
    let total_yield: u64 = take_yield(source, mint)?;
    if total_yield > 0 {
        mint.supply = mint.supply.checked_add(total_yield).ok_or(
            ProgramError::Token(TokenError::Overflow),
        )?;
        target.amount = target.amount.checked_add(total_yield).ok_or(
            ProgramError::Token(TokenError::Overflow),
        )?;
    }
    Ok(())
}

/// The result of a claim of an account's yield into its own balance, and
/// the account and mint after it: as `claim_result` with the account as both
/// source and target.
pub open spec fn claim_into_self_result(account: TokenAccount, mint: Mint) -> (
    Result<(), ProgramError>,
    TokenAccount,
    Mint,
) {
    match (account.claimable_yield, mint.claimable_yield) {
        (Some(ext), Some(cfg)) => match accrue_result(ext, account.amount, cfg.global_index) {
            Err(e) => (Err(e), account, mint),
            Ok(n) => {
                let total: u64 = n.pending_amount;
                let cleared = claimed(account, cfg.global_index);
                if total == 0 {
                    (Ok(()), cleared, mint)
                } else if mint.supply + total > u64::MAX {
                    (Err(ProgramError::Token(TokenError::Overflow)), cleared, mint)
                } else {
                    let minted = Mint { supply: (mint.supply + total) as u64, ..mint };
                    if account.amount + total > u64::MAX {
                        (Err(ProgramError::Token(TokenError::Overflow)), cleared, minted)
                    } else {
                        (
                            Ok(()),
                            TokenAccount { amount: (account.amount + total) as u64, ..cleared },
                            minted,
                        )
                    }
                }
            },
        },
        _ => (Err(ProgramError::InvalidAccountData), account, mint),
    }
}

/// The result of a claim into the account itself authorized by `signer`,
/// and the account and mint after it: the errors of `claim_authority_result`
/// (with the account as source and target) and `authorize` first (nothing
/// changes), then `claim_into_self_result`.
pub open spec fn claim_into_self_step(
    account: TokenAccount,
    mint_key: Pubkey,
    mint: Mint,
    signer: Pubkey,
) -> (Result<(), ProgramError>, TokenAccount, Mint) {
    match authorize(claim_authority_result(account, account, mint_key, mint), signer) {
        Err(e) => (Err(e), account, mint),
        Ok(_) => claim_into_self_result(account, mint),
    }
}

/// Claims all accrued yield of a token account into its own spendable
/// balance (`ClaimableYieldInstruction::ClaimYield`; see
/// `claim_into_self_step`): the yield is accrued, minted, added to the
/// balance, the local index moves to the global index and the pending
/// amount is reset to zero.
///
/// `signer` is the key of the account that authorizes the claim; the caller
/// has checked its signature, or that of its multisignature signers.
pub fn claim_into_self(
    account: &mut TokenAccount,
    mint_key: &Pubkey,
    mint: &mut Mint,
    signer: &Pubkey,
) -> (r: Result<(), ProgramError>)
    ensures
        (r, *final(account), *final(mint)) == claim_into_self_step(
            *old(account),
            *mint_key,
            *old(mint),
            *signer,
        ),
{
    let authority = claim_yield_authority(account, account, mint_key, mint)?;
    check_signer(&authority, signer)?;
    let balance: u64 = account.amount;
    let total_yield: u64 = take_yield(account, mint)?;
    assert(account.amount == balance);
    if total_yield > 0 {
        mint.supply = mint.supply.checked_add(total_yield).ok_or(
            ProgramError::Token(TokenError::Overflow),
        )?;
        account.amount = account.amount.checked_add(total_yield).ok_or(
            ProgramError::Token(TokenError::Overflow),
        )?;
    }
    Ok(())
}

// ---------------------------------------------------------------------------
// Dispatch

/// The result of running a decoded instruction, and the token account and
/// mint after it: `InitializeMint` sets up the mint (`initialize_mint_result`),
/// `UpdateIndex` updates its index (`update_index_step`), and `ClaimYield`
/// claims the account's yield into itself (`claim_into_self_step`).
pub open spec fn dispatch_result(
    d: DecodedInstruction,
    account: TokenAccount,
    mint_key: Pubkey,
    mint: Mint,
    signer: Pubkey,
) -> (Result<(), ProgramError>, TokenAccount, Mint) {
    match d {
        DecodedInstruction::InitializeMint(x) => {
            let (r, m) = initialize_mint_result(
                mint,
                x.yield_authority,
                x.index_authority,
                x.initial_index,
            );
            (r, account, m)
        },
        DecodedInstruction::UpdateIndex(x) => {
            let (r, m) = update_index_step(mint, signer, x.new_index);
            (r, account, m)
        },
        DecodedInstruction::ClaimYield => claim_into_self_step(account, mint_key, mint, signer),
    }
}

/// Decodes an instruction of this extension (after the extension's tag) and
/// runs it (see `decode_instruction` and `dispatch_result`).
///
/// `account` is the token account that a claim names (the other
/// instructions leave it alone), `mint_key` and `mint` the mint, and
/// `signer` the key of the account that authorizes the instruction, whose
/// signature (or that of its multisignature signers) the caller has
/// checked. On a decoding error nothing changes.
pub fn process_instruction(
    program_id: &Pubkey,
    input: &[u8],
    account: &mut TokenAccount,
    mint_key: &Pubkey,
    mint: &mut Mint,
    signer: &Pubkey,
) -> (r: Result<(), ProgramError>)
    ensures
        !is_token_program_id(*program_id) ==> r == Err::<(), ProgramError>(
            ProgramError::IncorrectProgramId,
        ) && *final(account) == *old(account) && *final(mint) == *old(mint),
        is_token_program_id(*program_id) && decode_error(input@) is Some ==> r == Err::<
            (),
            ProgramError,
        >(decode_error(input@)->Some_0) && *final(account) == *old(account) && *final(mint)
            == *old(mint),
        is_token_program_id(*program_id) && decode_error(input@) is None ==> forall|
            d: DecodedInstruction,
        |
            #![trigger decodes_to(input@, d)]
            decodes_to(input@, d) ==> (r, *final(account), *final(mint)) == dispatch_result(
                d,
                *old(account),
                *mint_key,
                *old(mint),
                *signer,
            ),
{
    let decoded = decode_instruction(program_id, input)?;
    proof {
        assert forall|d: DecodedInstruction| #![trigger decodes_to(input@, d)] decodes_to(input@, d) implies d == decoded by {
            lemma_decode_deterministic(input@, decoded, d);
        }
    }
    match decoded {
        DecodedInstruction::InitializeMint(data) => process_initialize_mint(
            mint,
            data.yield_authority,
            data.index_authority,
            data.initial_index,
        ),
        DecodedInstruction::UpdateIndex(data) => process_update_index(mint, signer, data.new_index),
        DecodedInstruction::ClaimYield => claim_into_self(account, mint_key, mint, signer),
    }
}

} // verus!
