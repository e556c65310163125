use vstd::arithmetic::div_mod::{lemma_div_is_ordered, lemma_basic_div, lemma_fundamental_div_mod};
use vstd::arithmetic::mul::{lemma_mul_inequality, lemma_mul_is_commutative};
use vstd::prelude::*;

use crate::error::{ProgramError, TokenError};
use crate::instruction::{
    decode_error, decodes_to, instruction_data, optional_key_bytes, rejects_key,
    ClaimableYieldInstruction, DecodedInstruction,
};
use crate::pod::{le_bytes, lemma_le_bytes_injective};
use crate::pubkey::{optional_key_view, OptionalNonZeroPubkey, Pubkey};
use crate::processor::{
    claim_authority_result, claim_into_self_result, claim_into_self_step, claim_step, claimed,
    eligibility_step, initialize_mint_result, update_index_step, Mint, TokenAccount,
};
use crate::state::ClaimableYieldConfig;
use crate::state::{accrue_result, yield_amount, yield_defined, ClaimableYieldAccount};

verus! {

/// Yield is rounded down: the yield times the local index is at most the
/// exact scaled yield `principal * (global - local)`, and one more unit of
/// yield would exceed it.
pub proof fn lemma_yield_rounds_down(principal: u64, local_index: u64, global_index: u64)
    requires
        0 < local_index <= global_index,
    ensures
        yield_amount(principal, local_index, global_index) * local_index <= principal * (
        global_index - local_index),
        principal * (global_index - local_index) < (yield_amount(
            principal,
            local_index,
            global_index,
        ) + 1) * local_index,
{
    let x: int = principal * (global_index - local_index);
    let d: int = local_index as int;
    lemma_fundamental_div_mod(x, d);
    lemma_mul_is_commutative(d, x / d);
    assert((x / d + 1) * d == (x / d) * d + d) by (nonlinear_arith);
}

/// When the index has not grown, no yield is earned.
pub proof fn lemma_no_growth_no_yield(principal: u64, index: u64)
    requires
        index > 0,
    ensures
        yield_defined(principal, index, index),
        yield_amount(principal, index, index) == 0,
{
    assert(principal * (index - index) == 0);
    lemma_basic_div(0, index as int);
}

/// A principal of zero earns no yield.
pub proof fn lemma_zero_principal_no_yield(local_index: u64, global_index: u64)
    requires
        0 < local_index <= global_index,
    ensures
        yield_defined(0, local_index, global_index),
        yield_amount(0, local_index, global_index) == 0,
{
    assert(0 * (global_index - local_index) == 0);
    lemma_basic_div(0, local_index as int);
}

/// Yield grows with the global index and with the principal.
pub proof fn lemma_yield_monotonic(p1: u64, p2: u64, local_index: u64, g1: u64, g2: u64)
    requires
        0 < local_index <= g1 <= g2,
        p1 <= p2,
    ensures
        yield_amount(p1, local_index, g1) <= yield_amount(p2, local_index, g2),
{
    lemma_mul_inequality(p1 as int, p2 as int, (g1 - local_index) as int);
    lemma_mul_is_commutative(p2 as int, (g1 - local_index) as int);
    lemma_mul_is_commutative(p2 as int, (g2 - local_index) as int);
    lemma_mul_inequality((g1 - local_index) as int, (g2 - local_index) as int, p2 as int);
    lemma_div_is_ordered(
        p1 * (g1 - local_index),
        p2 * (g2 - local_index),
        local_index as int,
    );
}

/// Accruing is idempotent: accruing again with the same balance and global
/// index changes nothing.
pub proof fn lemma_accrue_idempotent(acct: ClaimableYieldAccount, balance: u64, global_index: u64)
    requires
        accrue_result(acct, balance, global_index) is Ok,
    ensures
        accrue_result(accrue_result(acct, balance, global_index)->Ok_0, balance, global_index)
            == accrue_result(acct, balance, global_index),
{
    let n = accrue_result(acct, balance, global_index)->Ok_0;
    if acct.local_index < global_index {
        if n.local_index != global_index {
            assert(n == acct);
        }
    }
}

/// Accruing never decreases the pending amount or the local index, and the
/// local index either stays or moves to the global index.
pub proof fn lemma_accrue_monotonic(acct: ClaimableYieldAccount, balance: u64, global_index: u64)
    requires
        accrue_result(acct, balance, global_index) is Ok,
    ensures
        accrue_result(acct, balance, global_index)->Ok_0.pending_amount >= acct.pending_amount,
        accrue_result(acct, balance, global_index)->Ok_0.local_index >= acct.local_index,
        accrue_result(acct, balance, global_index)->Ok_0.local_index == acct.local_index
            || accrue_result(acct, balance, global_index)->Ok_0.local_index == global_index,
{
}

/// An account whose index has reached the global index accrues nothing.
pub proof fn lemma_accrue_up_to_date(acct: ClaimableYieldAccount, balance: u64, global_index: u64)
    requires
        acct.local_index >= global_index,
    ensures
        accrue_result(acct, balance, global_index) == Ok::<ClaimableYieldAccount, ProgramError>(
            acct,
        ),
{
}

/// Accrued yield is exactly the yield on the principal (balance plus pending
/// amount) over the index growth.
pub proof fn lemma_accrue_adds_yield(acct: ClaimableYieldAccount, balance: u64, global_index: u64)
    requires
        acct.local_index < global_index,
        accrue_result(acct, balance, global_index) is Ok,
    ensures
        accrue_result(acct, balance, global_index)->Ok_0.pending_amount == acct.pending_amount
            + yield_amount(
            (balance + acct.pending_amount) as u64,
            acct.local_index,
            global_index,
        ),
{
}

/// The global index never decreases: an update either fails and leaves the
/// mint unchanged, or was authorized by the index authority and sets an
/// index at least as large as the current one.
pub proof fn lemma_update_index_never_decreases(mint: Mint, signer: Pubkey, new_index: u64)
    ensures
        update_index_step(mint, signer, new_index).0 is Err ==> update_index_step(
            mint,
            signer,
            new_index,
        ).1 == mint,
        update_index_step(mint, signer, new_index).0 is Ok ==> (mint.claimable_yield matches Some(
            cfg,
        ) && update_index_step(mint, signer, new_index).1.claimable_yield matches Some(cfg2)
            && optional_key_view(cfg.index_authority) == Some(signer) && cfg2.global_index
            == new_index && cfg.global_index <= cfg2.global_index && cfg2.index_authority
            == cfg.index_authority),
{
}

/// With no yield authority, token account owners may always claim yield:
/// for initialized accounts and mint, matching mints and the extensions
/// present, the owner is the authority of the claim.
pub proof fn lemma_owner_claims_without_yield_authority(
    source: TokenAccount,
    target: TokenAccount,
    mint_key: Pubkey,
    mint: Mint,
)
    requires
        source.is_initialized,
        target.is_initialized,
        mint.is_initialized,
        source.mint == mint_key,
        target.mint == mint_key,
        source.claimable_yield is Some,
        mint.claimable_yield is Some,
        optional_key_view(mint.yield_authority) is None,
    ensures
        claim_authority_result(source, target, mint_key, mint) == Ok::<Pubkey, ProgramError>(
            source.owner,
        ),
{
}

/// A successful claim was authorized by the claim's authority and mints
/// exactly the accrued pending amount: the mint's supply and the target's
/// balance both grow by it, and the source is left with nothing pending and
/// its local index at the global index.
pub proof fn lemma_claim_conserves(
    source: TokenAccount,
    target: TokenAccount,
    mint_key: Pubkey,
    mint: Mint,
    signer: Pubkey,
)
    requires
        claim_step(source, target, mint_key, mint, signer).0 is Ok,
    ensures
        ({
            let (r, s2, t2, m2) = claim_step(source, target, mint_key, mint, signer);
            &&& claim_authority_result(source, target, mint_key, mint) == Ok::<
                Pubkey,
                ProgramError,
            >(signer)
            &&& source.claimable_yield matches Some(ext)
            &&& mint.claimable_yield matches Some(cfg)
            &&& accrue_result(ext, source.amount, cfg.global_index) matches Ok(n)
            &&& m2.supply == mint.supply + n.pending_amount
            &&& t2.amount == target.amount + n.pending_amount
            &&& s2.amount == source.amount
            &&& s2.claimable_yield == Some(
                ClaimableYieldAccount { pending_amount: 0, local_index: cfg.global_index },
            )
            &&& m2.claimable_yield == mint.claimable_yield
        }),
{
}

/// A second claim right after a successful one, with the same accounts,
/// mint and signer, succeeds and changes nothing: all accrued yield was
/// minted by the first.
pub proof fn lemma_claim_twice_mints_nothing(
    source: TokenAccount,
    target: TokenAccount,
    mint_key: Pubkey,
    mint: Mint,
    signer: Pubkey,
)
    requires
        claim_step(source, target, mint_key, mint, signer).0 is Ok,
    ensures
        ({
            let (r, s2, t2, m2) = claim_step(source, target, mint_key, mint, signer);
            claim_step(s2, t2, mint_key, m2, signer) == (Ok::<(), ProgramError>(()), s2, t2, m2)
        }),
{
    let (r, s2, t2, m2) = claim_step(source, target, mint_key, mint, signer);
    let cfg = mint.claimable_yield->Some_0;
    assert(claimed(s2, cfg.global_index) == s2);
}

/// A claim that fails credits nothing to the target account.
pub proof fn lemma_failed_claim_credits_nothing(
    source: TokenAccount,
    target: TokenAccount,
    mint_key: Pubkey,
    mint: Mint,
    signer: Pubkey,
)
    requires
        claim_step(source, target, mint_key, mint, signer).0 is Err,
    ensures
        claim_step(source, target, mint_key, mint, signer).2 == target,
{
}

/// A successful claim of an account into itself mints exactly the accrued
/// pending amount into the account's own balance, and leaves the account
/// with nothing pending and its local index at the global index.
pub proof fn lemma_claim_into_self_conserves(
    account: TokenAccount,
    mint_key: Pubkey,
    mint: Mint,
    signer: Pubkey,
)
    requires
        claim_into_self_step(account, mint_key, mint, signer).0 is Ok,
    ensures
        ({
            let (r, a2, m2) = claim_into_self_step(account, mint_key, mint, signer);
            &&& account.claimable_yield matches Some(ext)
            &&& mint.claimable_yield matches Some(cfg)
            &&& accrue_result(ext, account.amount, cfg.global_index) matches Ok(n)
            &&& m2.supply == mint.supply + n.pending_amount
            &&& a2.amount == account.amount + n.pending_amount
            &&& a2.claimable_yield == Some(
                ClaimableYieldAccount { pending_amount: 0, local_index: cfg.global_index },
            )
        }),
{
}

/// Enabling and then disabling yield eligibility, with the same mint and
/// signer, gives back the account.
pub proof fn lemma_enable_then_disable(
    account: TokenAccount,
    mint_key: Pubkey,
    mint: Mint,
    signer: Pubkey,
)
    requires
        eligibility_step(account, mint_key, mint, signer, true).0 is Ok,
    ensures
        eligibility_step(
            eligibility_step(account, mint_key, mint, signer, true).1,
            mint_key,
            mint,
            signer,
            false,
        ) == (Ok::<(), ProgramError>(()), account),
{
}

/// The 32 bytes stored for an accepted optional key read back as that key.
pub proof fn lemma_optional_key_bytes_view(k: OptionalNonZeroPubkey, opt: Option<Pubkey>)
    requires
        !rejects_key(opt),
        k.0.0@ == optional_key_bytes(opt),
    ensures
        optional_key_view(k) == opt,
{
    match opt {
        None => {
            assert forall|i: int| 0 <= i < 32 implies k.0.0[i] == 0u8 by {
                assert(k.0.0@[i] == optional_key_bytes(opt)[i]);
            }
        },
        Some(key) => {
            assert forall|i: int| 0 <= i < 32 implies k.0.0[i] == key.0[i] by {
                assert(k.0.0@[i] == key.0@[i]);
            }
            assert(k.0.0 =~= key.0);
        },
    }
}

/// Two keys with the same bytes are the same key.
proof fn lemma_key_bytes_injective(a: Pubkey, b: Pubkey)
    requires
        a.0@ == b.0@,
    ensures
        a == b,
{
    assert forall|i: int| 0 <= i < 32 implies a.0[i] == b.0[i] by {
        assert(a.0@[i] == b.0@[i]);
    }
    assert(a.0 =~= b.0);
}

/// Decoding is deterministic: the bytes an instruction is received as
/// decode to at most one instruction.
pub proof fn lemma_decode_deterministic(input: Seq<u8>, d1: DecodedInstruction, d2: DecodedInstruction)
    requires
        decodes_to(input, d1),
        decodes_to(input, d2),
    ensures
        d1 == d2,
{
    match (d1, d2) {
        (DecodedInstruction::InitializeMint(x1), DecodedInstruction::InitializeMint(x2)) => {
            assert(x1.yield_authority.0.0@ =~= input.subrange(1, 33));
            assert(x2.yield_authority.0.0@ =~= input.subrange(1, 33));
            assert(x1.index_authority.0.0@ =~= input.subrange(33, 65));
            assert(x2.index_authority.0.0@ =~= input.subrange(33, 65));
            assert(le_bytes(x1.initial_index) =~= input.subrange(65, 73));
            assert(le_bytes(x2.initial_index) =~= input.subrange(65, 73));
            lemma_key_bytes_injective(x1.yield_authority.0, x2.yield_authority.0);
            lemma_key_bytes_injective(x1.index_authority.0, x2.index_authority.0);
            lemma_le_bytes_injective(x1.initial_index, x2.initial_index);
        },
        (DecodedInstruction::UpdateIndex(x1), DecodedInstruction::UpdateIndex(x2)) => {
            assert(le_bytes(x1.new_index) =~= input.subrange(1, 9));
            assert(le_bytes(x2.new_index) =~= input.subrange(1, 9));
            lemma_le_bytes_injective(x1.new_index, x2.new_index);
        },
        (DecodedInstruction::ClaimYield, DecodedInstruction::ClaimYield) => {},
        (DecodedInstruction::InitializeMint(_), _) => {
            assert(input[0] == 0u8);
        },
        (DecodedInstruction::UpdateIndex(_), _) => {
            assert(input[0] == 1u8);
        },
        (DecodedInstruction::ClaimYield, DecodedInstruction::InitializeMint(_)) => {
            assert(input[0] == 0u8);
        },
        (DecodedInstruction::ClaimYield, DecodedInstruction::UpdateIndex(_)) => {
            assert(input[0] == 1u8);
        },
    }
}

/// The data that `initialize_mint` builds decodes (after the extension's
/// tag) to the authorities and initial index it was given.
pub proof fn lemma_initialize_mint_roundtrip(
    yield_authority: Option<Pubkey>,
    index_authority: Option<Pubkey>,
    initial_index: u64,
    d: DecodedInstruction,
)
    requires
        !rejects_key(yield_authority),
        !rejects_key(index_authority),
        decodes_to(
            instruction_data(
                ClaimableYieldInstruction::InitializeMint,
                optional_key_bytes(yield_authority) + optional_key_bytes(index_authority)
                    + le_bytes(initial_index),
            ).drop_first(),
            d,
        ),
    ensures
        decode_error(
            instruction_data(
                ClaimableYieldInstruction::InitializeMint,
                optional_key_bytes(yield_authority) + optional_key_bytes(index_authority)
                    + le_bytes(initial_index),
            ).drop_first(),
        ) is None,
        d matches DecodedInstruction::InitializeMint(x) && optional_key_view(x.yield_authority)
            == yield_authority && optional_key_view(x.index_authority) == index_authority
            && x.initial_index == initial_index,
{
    let input = instruction_data(
        ClaimableYieldInstruction::InitializeMint,
        optional_key_bytes(yield_authority) + optional_key_bytes(index_authority) + le_bytes(
            initial_index,
        ),
    ).drop_first();
    assert(input =~= seq![0u8] + optional_key_bytes(yield_authority) + optional_key_bytes(
        index_authority,
    ) + le_bytes(initial_index));
    assert(input.len() == 73);
    assert(input[0] == 0u8);
    match d {
        DecodedInstruction::InitializeMint(x) => {
            assert(x.yield_authority.0.0@ =~= input.subrange(1, 33));
            assert(optional_key_bytes(yield_authority) =~= input.subrange(1, 33));
            assert(x.index_authority.0.0@ =~= input.subrange(33, 65));
            assert(optional_key_bytes(index_authority) =~= input.subrange(33, 65));
            assert(le_bytes(x.initial_index) =~= input.subrange(65, 73));
            assert(le_bytes(initial_index) =~= input.subrange(65, 73));
            lemma_optional_key_bytes_view(x.yield_authority, yield_authority);
            lemma_optional_key_bytes_view(x.index_authority, index_authority);
            lemma_le_bytes_injective(x.initial_index, initial_index);
        },
        DecodedInstruction::UpdateIndex(_) => {
            assert(input[0] == 1u8);
        },
        DecodedInstruction::ClaimYield => {},
    }
}

/// The data that `update_index` builds decodes (after the extension's tag)
/// to the new index it was given.
pub proof fn lemma_update_index_roundtrip(new_index: u64, d: DecodedInstruction)
    requires
        decodes_to(
            instruction_data(ClaimableYieldInstruction::UpdateIndex, le_bytes(new_index)).drop_first(),
            d,
        ),
    ensures
        decode_error(
            instruction_data(ClaimableYieldInstruction::UpdateIndex, le_bytes(new_index)).drop_first(),
        ) is None,
        d matches DecodedInstruction::UpdateIndex(x) && x.new_index == new_index,
{
    let input = instruction_data(ClaimableYieldInstruction::UpdateIndex, le_bytes(new_index)).drop_first();
    assert(input =~= seq![1u8] + le_bytes(new_index));
    assert(input[0] == 1u8);
    match d {
        DecodedInstruction::UpdateIndex(x) => {
            assert(le_bytes(x.new_index) =~= input.subrange(1, 9));
            assert(le_bytes(new_index) =~= input.subrange(1, 9));
            lemma_le_bytes_injective(x.new_index, new_index);
        },
        DecodedInstruction::InitializeMint(_) => {
            assert(input[0] == 0u8);
        },
        DecodedInstruction::ClaimYield => {},
    }
}

/// The data that `claim_yield` builds decodes (after the extension's tag) to
/// a claim.
pub proof fn lemma_claim_yield_roundtrip(d: DecodedInstruction)
    requires
        decodes_to(
            instruction_data(ClaimableYieldInstruction::ClaimYield, Seq::empty()).drop_first(),
            d,
        ),
    ensures
        decode_error(
            instruction_data(ClaimableYieldInstruction::ClaimYield, Seq::empty()).drop_first(),
        ) is None,
        d == DecodedInstruction::ClaimYield,
{
    let input = instruction_data(ClaimableYieldInstruction::ClaimYield, Seq::empty()).drop_first();
    assert(input =~= seq![2u8]);
    match d {
        DecodedInstruction::InitializeMint(_) => {
            assert(input[0] == 0u8);
        },
        DecodedInstruction::UpdateIndex(_) => {
            assert(input[0] == 1u8);
        },
        DecodedInstruction::ClaimYield => {},
    }
}

// ---------------------------------------------------------------------------
// Outcomes in terms of the inputs

/// Whether accruing up to `global_index` can succeed for an account with
/// `pending` pending and local index `local`, on a balance of `balance`:
/// an account already at the index always can; otherwise the local index
/// is positive and the principal, the yield and the new pending amount fit
/// in a `u64`.
pub open spec fn accrual_fits(pending: u64, balance: u64, local: u64, global_index: u64) -> bool {
    local >= global_index || {
        &&& local > 0
        &&& balance + pending <= u64::MAX
        &&& (balance + pending) * (global_index - local) / (local as int) <= u64::MAX
        &&& pending + (balance + pending) * (global_index - local) / (local as int) <= u64::MAX
    }
}

/// The pending amount after accruing: the old pending amount plus, when the
/// index has grown, `(balance + pending) * (global - local) / local`.
pub open spec fn accrued_pending(pending: u64, balance: u64, local: u64, global_index: u64) -> int {
    if local >= global_index {
        pending as int
    } else {
        pending + (balance + pending) * (global_index - local) / (local as int)
    }
}

/// Accrual succeeds whenever the principal, the yield and the new pending
/// amount fit: the pending amount grows by `(balance + pending) *
/// (global - local) / local`, and the local index moves to the global index
/// when that yield is positive.
pub proof fn lemma_accrue_outcome(acct: ClaimableYieldAccount, balance: u64, global_index: u64)
    requires
        accrual_fits(acct.pending_amount, balance, acct.local_index, global_index),
    ensures
        accrue_result(acct, balance, global_index) == Ok::<ClaimableYieldAccount, ProgramError>(
            ClaimableYieldAccount {
                pending_amount: accrued_pending(
                    acct.pending_amount,
                    balance,
                    acct.local_index,
                    global_index,
                ) as u64,
                local_index: if accrued_pending(
                    acct.pending_amount,
                    balance,
                    acct.local_index,
                    global_index,
                ) > acct.pending_amount {
                    global_index
                } else {
                    acct.local_index
                },
            },
        ),
{
    if acct.local_index < global_index {
        let p = (balance + acct.pending_amount) as u64;
        assert(p * (global_index - acct.local_index) >= 0) by (nonlinear_arith)
            requires
                acct.local_index < global_index,
        ;
        lemma_div_is_ordered(0, p * (global_index - acct.local_index), acct.local_index as int);
        lemma_basic_div(0, acct.local_index as int);
    }
}

/// Accrual fails only when the principal, the yield or the new pending
/// amount does not fit in a `u64`, or the local index is zero below a
/// positive global index; it then fails with `ArithmeticOverflow`.
pub proof fn lemma_accrue_fails_only_on_overflow(
    acct: ClaimableYieldAccount,
    balance: u64,
    global_index: u64,
)
    requires
        accrue_result(acct, balance, global_index) is Err,
    ensures
        !accrual_fits(acct.pending_amount, balance, acct.local_index, global_index),
        accrue_result(acct, balance, global_index) == Err::<ClaimableYieldAccount, ProgramError>(
            ProgramError::ArithmeticOverflow,
        ),
{
    if accrual_fits(acct.pending_amount, balance, acct.local_index, global_index) {
        lemma_accrue_outcome(acct, balance, global_index);
    }
}

/// Setting up a mint that is not initialized records exactly the given yield
/// authority, index authority and initial index, and nothing else changes;
/// an initialized mint is refused with `TokenError::AlreadyInUse` and left
/// alone.
pub proof fn lemma_initialize_records_arguments(
    mint: Mint,
    yield_authority: OptionalNonZeroPubkey,
    index_authority: OptionalNonZeroPubkey,
    initial_index: u64,
)
    ensures
        !mint.is_initialized ==> initialize_mint_result(
            mint,
            yield_authority,
            index_authority,
            initial_index,
        ) == (
            Ok::<(), ProgramError>(()),
            Mint {
                is_initialized: false,
                supply: mint.supply,
                yield_authority,
                claimable_yield: Some(ClaimableYieldConfig { index_authority, global_index: initial_index }),
            },
        ),
        mint.is_initialized ==> initialize_mint_result(
            mint,
            yield_authority,
            index_authority,
            initial_index,
        ) == (Err::<(), ProgramError>(ProgramError::Token(TokenError::AlreadyInUse)), mint),
{
}

/// On an initialized mint with the extension, an update signed by the index
/// authority to an index no lower than the current one succeeds and sets
/// exactly that index, whatever the mint's yield authority.
pub proof fn lemma_update_by_index_authority(mint: Mint, signer: Pubkey, new_index: u64)
    requires
        mint.is_initialized,
        mint.claimable_yield matches Some(cfg) && optional_key_view(cfg.index_authority) == Some(
            signer,
        ) && cfg.global_index <= new_index,
    ensures
        update_index_step(mint, signer, new_index) == (
            Ok::<(), ProgramError>(()),
            Mint {
                claimable_yield: Some(
                    ClaimableYieldConfig {
                        index_authority: mint.claimable_yield->Some_0.index_authority,
                        global_index: new_index,
                    },
                ),
                ..mint
            },
        ),
{
}

/// An index update does not depend on the mint's yield authority: changing it
/// changes neither the result nor anything else in the updated mint.
pub proof fn lemma_update_ignores_yield_authority(
    mint: Mint,
    other: OptionalNonZeroPubkey,
    signer: Pubkey,
    new_index: u64,
)
    ensures
        ({
            let (r1, m1) = update_index_step(mint, signer, new_index);
            let (r2, m2) = update_index_step(Mint { yield_authority: other, ..mint }, signer, new_index);
            r1 == r2 && m2 == Mint { yield_authority: other, ..m1 }
        }),
{
}

/// The key that must authorize a claim of `source`'s yield: its owner when it
/// is eligible or the mint has no yield authority, the yield authority
/// otherwise.
pub open spec fn expected_claimer(source: TokenAccount, mint: Mint) -> Pubkey {
    if source.yield_eligible {
        source.owner
    } else {
        match optional_key_view(mint.yield_authority) {
            None => source.owner,
            Some(k) => k,
        }
    }
}

/// Whenever the signer is the claim's authority and the accounts are
/// initialized, of the mint, and hold the extensions, a claim into the
/// account's own balance has exactly the outcome of
/// `claim_into_self_result`: no further authorization can make it fail.
pub proof fn lemma_authorized_claim_into_self(
    account: TokenAccount,
    mint_key: Pubkey,
    mint: Mint,
)
    requires
        account.is_initialized,
        mint.is_initialized,
        account.mint == mint_key,
        account.claimable_yield is Some,
        mint.claimable_yield is Some,
    ensures
        claim_into_self_step(account, mint_key, mint, expected_claimer(account, mint))
            == claim_into_self_result(account, mint),
{
}

/// An authorized claim into the account itself, where accrual and the
/// additions fit, succeeds: the accrued pending amount is added to the
/// account's balance and to the supply, and the account is left with nothing
/// pending and its local index at the global index.
pub proof fn lemma_claim_into_self_outcome(account: TokenAccount, mint_key: Pubkey, mint: Mint)
    requires
        account.is_initialized,
        mint.is_initialized,
        account.mint == mint_key,
        account.claimable_yield matches Some(ext) && mint.claimable_yield matches Some(cfg)
            && accrual_fits(ext.pending_amount, account.amount, ext.local_index, cfg.global_index)
            && mint.supply + accrued_pending(
            ext.pending_amount,
            account.amount,
            ext.local_index,
            cfg.global_index,
        ) <= u64::MAX && account.amount + accrued_pending(
            ext.pending_amount,
            account.amount,
            ext.local_index,
            cfg.global_index,
        ) <= u64::MAX,
    ensures
        ({
            let ext = account.claimable_yield->Some_0;
            let cfg = mint.claimable_yield->Some_0;
            let total = accrued_pending(
                ext.pending_amount,
                account.amount,
                ext.local_index,
                cfg.global_index,
            );
            claim_into_self_step(account, mint_key, mint, expected_claimer(account, mint)) == (
                Ok::<(), ProgramError>(()),
                TokenAccount {
                    amount: (account.amount + total) as u64,
                    claimable_yield: Some(
                        ClaimableYieldAccount { pending_amount: 0, local_index: cfg.global_index },
                    ),
                    ..account
                },
                Mint { supply: (mint.supply + total) as u64, ..mint },
            )
        }),
{
    let ext = account.claimable_yield->Some_0;
    let cfg = mint.claimable_yield->Some_0;
    lemma_accrue_outcome(ext, account.amount, cfg.global_index);
}

/// An authorized claim of `source`'s yield into another account of the mint,
/// where accrual and the additions fit, succeeds whoever owns the target:
/// the accrued pending amount is added to the target's balance and to the
/// supply, and the source is left with nothing pending and its local index
/// at the global index.
pub proof fn lemma_claim_outcome(
    source: TokenAccount,
    target: TokenAccount,
    mint_key: Pubkey,
    mint: Mint,
)
    requires
        source.is_initialized,
        target.is_initialized,
        mint.is_initialized,
        source.mint == mint_key,
        target.mint == mint_key,
        source.claimable_yield matches Some(ext) && mint.claimable_yield matches Some(cfg)
            && accrual_fits(ext.pending_amount, source.amount, ext.local_index, cfg.global_index)
            && mint.supply + accrued_pending(
            ext.pending_amount,
            source.amount,
            ext.local_index,
            cfg.global_index,
        ) <= u64::MAX && target.amount + accrued_pending(
            ext.pending_amount,
            source.amount,
            ext.local_index,
            cfg.global_index,
        ) <= u64::MAX,
    ensures
        ({
            let ext = source.claimable_yield->Some_0;
            let cfg = mint.claimable_yield->Some_0;
            let total = accrued_pending(
                ext.pending_amount,
                source.amount,
                ext.local_index,
                cfg.global_index,
            );
            claim_step(source, target, mint_key, mint, expected_claimer(source, mint)) == (
                Ok::<(), ProgramError>(()),
                TokenAccount {
                    claimable_yield: Some(
                        ClaimableYieldAccount { pending_amount: 0, local_index: cfg.global_index },
                    ),
                    ..source
                },
                TokenAccount { amount: (target.amount + total) as u64, ..target },
                Mint { supply: (mint.supply + total) as u64, ..mint },
            )
        }),
{
    let ext = source.claimable_yield->Some_0;
    let cfg = mint.claimable_yield->Some_0;
    lemma_accrue_outcome(ext, source.amount, cfg.global_index);
}

/// A claim does not depend on who owns the target: changing the target's
/// owner changes neither the result, nor the source, nor the mint, and the
/// target ends the same apart from its owner.
pub proof fn lemma_claim_ignores_target_owner(
    source: TokenAccount,
    target: TokenAccount,
    owner: Pubkey,
    mint_key: Pubkey,
    mint: Mint,
    signer: Pubkey,
)
    ensures
        ({
            let (r1, s1, t1, m1) = claim_step(source, target, mint_key, mint, signer);
            let (r2, s2, t2, m2) = claim_step(
                source,
                TokenAccount { owner, ..target },
                mint_key,
                mint,
                signer,
            );
            r1 == r2 && s1 == s2 && m1 == m2 && t2 == TokenAccount { owner, ..t1 }
        }),
{
}

/// Signed by the mint's yield authority, for an initialized account of the
/// mint with the extension, changing the account's eligibility to the other
/// value succeeds and changes nothing else; asking for the value it already
/// has fails with `TokenError::InvalidState` and leaves it alone.
pub proof fn lemma_eligibility_outcome(
    account: TokenAccount,
    mint_key: Pubkey,
    mint: Mint,
    eligible: bool,
)
    requires
        account.is_initialized,
        mint.is_initialized,
        account.mint == mint_key,
        account.claimable_yield is Some,
        mint.claimable_yield is Some,
        optional_key_view(mint.yield_authority) is Some,
    ensures
        ({
            let k = optional_key_view(mint.yield_authority)->Some_0;
            eligibility_step(account, mint_key, mint, k, eligible) == if account.yield_eligible
                == eligible {
                (Err::<(), ProgramError>(ProgramError::Token(TokenError::InvalidState)), account)
            } else {
                (Ok::<(), ProgramError>(()), TokenAccount { yield_eligible: eligible, ..account })
            }
        }),
{
}

/// Any key other than the authority is refused, leaving the account alone.
pub proof fn lemma_eligibility_needs_yield_authority(
    account: TokenAccount,
    mint_key: Pubkey,
    mint: Mint,
    signer: Pubkey,
    eligible: bool,
)
    requires
        optional_key_view(mint.yield_authority) != Some(signer),
    ensures
        eligibility_step(account, mint_key, mint, signer, eligible).0 is Err,
        eligibility_step(account, mint_key, mint, signer, eligible).1 == account,
{
}

} // verus!
