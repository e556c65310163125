use vstd::prelude::*;

use crate::error::ProgramError;
use crate::pubkey::{optional_key_view, OptionalNonZeroPubkey};

verus! {

/// The yield that `principal` earns while the index grows from `local_index`
/// to `global_index`, rounded down: `principal * (global - local) / local`.
pub open spec fn yield_amount(principal: u64, local_index: u64, global_index: u64) -> int
    recommends
        0 < local_index <= global_index,
{
    (principal * (global_index - local_index)) / (local_index as int)
}

/// Whether `calculate_yield` succeeds on these arguments: the global index is
/// not below the local one, the local index is not zero, and the result fits
/// in a `u64`.
pub open spec fn yield_defined(principal: u64, local_index: u64, global_index: u64) -> bool {
    &&& local_index <= global_index
    &&& local_index > 0
    &&& yield_amount(principal, local_index, global_index) <= u64::MAX
}

/// Yield earned by `principal` as the index grows from `local_index` to
/// `global_index`: `principal * (global_index - local_index) / local_index`,
/// rounded down.
///
/// Fails with `ArithmeticOverflow` when the global index is below the local
/// one, when the local index is zero, or when the result does not fit in a
/// `u64`.
pub fn calculate_yield(principal: u64, local_index: u64, global_index: u64) -> (r: Result<
    u64,
    ProgramError,
>)
    ensures
        yield_defined(principal, local_index, global_index) ==> r == Ok::<u64, ProgramError>(
            yield_amount(principal, local_index, global_index) as u64,
        ),
        !yield_defined(principal, local_index, global_index) ==> r == Err::<u64, ProgramError>(
            ProgramError::ArithmeticOverflow,
        ),
{
    let index_diff: u64 = global_index.checked_sub(local_index).ok_or(
        ProgramError::ArithmeticOverflow,
    )?;
    let p: u128 = principal as u128;
    let d: u128 = index_diff as u128;
    assert(p * d <= u128::MAX) by (nonlinear_arith)
        requires
            p <= u64::MAX,
            d <= u64::MAX,
    ;
    let yield_scaled: u128 = p.checked_mul(d).ok_or(ProgramError::ArithmeticOverflow)?;
    let yield_full: u128 = yield_scaled.checked_div(local_index as u128).ok_or(
        ProgramError::ArithmeticOverflow,
    )?;
    // Round down here
    match u64::try_from(yield_full) {
        Ok(v) => Ok(v),
        Err(_) => Err(ProgramError::ArithmeticOverflow),
    }
}

/// The kinds of extension data that a mint or a token account can carry.
#[derive(Clone, Copy, Debug, PartialEq, Eq, Structural)]
pub enum ExtensionType {
    /// The claimable-yield configuration of a mint.
    ClaimableYieldConfig,
    /// The claimable-yield state of a token account.
    ClaimableYieldAccount,
}

/// Extension data, tagged with the kind of extension it is.
pub trait Extension {
    /// The extension's kind.
    const TYPE: ExtensionType;
}

/// Claimable-yield configuration of a mint.
#[derive(Clone, Copy, Debug, PartialEq)]
pub struct ClaimableYieldConfig {
    /// Authority that can update the global index.
    pub index_authority: OptionalNonZeroPubkey,
    /// Global yield index, a fixed-point number with 9 decimal places: the
    /// cumulative growth factor, starting at 1.0 = 1_000_000_000.
    pub global_index: u64,
}

impl ClaimableYieldConfig {
    /// Scale factor of the fixed-point index (10^9).
    pub const INDEX_SCALE: u64 = 1_000_000_000;

    /// The current global index.
    pub fn get_global_index(&self) -> (r: u64)
        ensures
            r == self.global_index,
    {
        self.global_index
    }

    /// Sets the global index; the authority is unchanged.
    pub fn set_global_index(&mut self, index: u64)
        ensures
            final(self).global_index == index,
            final(self).index_authority == old(self).index_authority,
    {
        self.global_index = index;
    }
}

impl Default for ClaimableYieldConfig {
    fn default() -> (c: ClaimableYieldConfig)
        ensures
            optional_key_view(c.index_authority) is None,
            c.global_index == 0,
    {
        ClaimableYieldConfig { index_authority: OptionalNonZeroPubkey::default(), global_index: 0 }
    }
}

impl Extension for ClaimableYieldConfig {
    const TYPE: ExtensionType = ExtensionType::ClaimableYieldConfig;
}

/// Claimable-yield state of a token account.
#[derive(Clone, Copy, Debug, PartialEq)]
pub struct ClaimableYieldAccount {
    /// Yield that has accrued to the account but has not been minted yet.
    pub pending_amount: u64,
    /// The global index at which the account's yield was last brought up to date.
    pub local_index: u64,
}

/// The principal on which an account earns yield: its balance plus its
/// pending yield, or `None` when the sum does not fit in a `u64`.
pub open spec fn principal_of(acct: ClaimableYieldAccount, balance: u64) -> Option<u64> {
    if balance + acct.pending_amount <= u64::MAX {
        Some((balance + acct.pending_amount) as u64)
    } else {
        None
    }
}

/// The account after accruing yield up to `global_index` for a token balance
/// of `balance`, or the error that stops it.
///
/// Nothing happens when the account's index has already reached the global
/// index. Otherwise the yield on the principal (balance plus pending yield) is
/// added to the pending amount, and the local index moves to the global index
/// only when that yield is positive, so that a yield that rounds down to zero
/// keeps accruing from the old index.
pub open spec fn accrue_result(acct: ClaimableYieldAccount, balance: u64, global_index: u64) -> Result<
    ClaimableYieldAccount,
    ProgramError,
> {
    if acct.local_index >= global_index {
        Ok(acct)
    } else {
        match principal_of(acct, balance) {
            None => Err(ProgramError::ArithmeticOverflow),
            Some(p) => if !yield_defined(p, acct.local_index, global_index) {
                Err(ProgramError::ArithmeticOverflow)
            } else {
                let y: int = yield_amount(p, acct.local_index, global_index);
                if acct.pending_amount + y > u64::MAX {
                    Err(ProgramError::ArithmeticOverflow)
                } else {
                    Ok(
                        ClaimableYieldAccount {
                            pending_amount: (acct.pending_amount + y) as u64,
                            local_index: if y > 0 {
                                global_index
                            } else {
                                acct.local_index
                            },
                        },
                    )
                }
            },
        }
    }
}

impl ClaimableYieldAccount {
    /// The pending amount.
    pub fn get_pending_amount(&self) -> (r: u64)
        ensures
            r == self.pending_amount,
    {
        self.pending_amount
    }

    /// Sets the pending amount; the local index is unchanged.
    pub fn set_pending_amount(&mut self, amount: u64)
        ensures
            final(self).pending_amount == amount,
            final(self).local_index == old(self).local_index,
    {
        self.pending_amount = amount;
    }

    /// Adds `amount` to the pending amount. Fails with `ArithmeticOverflow`,
    /// leaving the account unchanged, when the sum does not fit in a `u64`.
    pub fn add_pending_amount(&mut self, amount: u64) -> (r: Result<(), ProgramError>)
        ensures
            old(self).pending_amount + amount <= u64::MAX ==> r is Ok && final(self).pending_amount
                == old(self).pending_amount + amount,
            old(self).pending_amount + amount > u64::MAX ==> r == Err::<(), ProgramError>(
                ProgramError::ArithmeticOverflow,
            ) && final(self).pending_amount == old(self).pending_amount,
            final(self).local_index == old(self).local_index,
    {
        let current: u64 = self.get_pending_amount();
        let new_amount: u64 = current.checked_add(amount).ok_or(ProgramError::ArithmeticOverflow)?;
        self.set_pending_amount(new_amount);
        Ok(())
    }

    /// The local index.
    pub fn get_local_index(&self) -> (r: u64)
        ensures
            r == self.local_index,
    {
        self.local_index
    }

    /// Sets the local index; the pending amount is unchanged.
    pub fn set_local_index(&mut self, index: u64)
        ensures
            final(self).local_index == index,
            final(self).pending_amount == old(self).pending_amount,
    {
        self.local_index = index;
    }

    /// Resets the pending amount to zero (after it has been minted).
    pub fn reset_pending_amount(&mut self)
        ensures
            final(self).pending_amount == 0,
            final(self).local_index == old(self).local_index,
    {
        self.pending_amount = 0;
    }

    /// The principal: the account balance plus the pending yield. Fails with
    /// `ArithmeticOverflow` when the sum does not fit in a `u64`.
    pub fn get_principal(&self, account_balance: u64) -> (r: Result<u64, ProgramError>)
        ensures
            principal_of(*self, account_balance) matches Some(p) ==> r == Ok::<u64, ProgramError>(p),
            principal_of(*self, account_balance) is None ==> r == Err::<u64, ProgramError>(
                ProgramError::ArithmeticOverflow,
            ),
    {
        account_balance.checked_add(self.get_pending_amount()).ok_or(
            ProgramError::ArithmeticOverflow,
        )
    }

    /// Accrues the yield earned since the local index up to `global_index`
    /// into the pending amount (see `accrue_result`). On failure the account
    /// is unchanged.
    pub fn accrue_pending_yield(&mut self, account_balance: u64, global_index: u64) -> (r: Result<
        (),
        ProgramError,
    >)
        ensures
            accrue_result(*old(self), account_balance, global_index) matches Ok(n) ==> r is Ok
                && *final(self) == n,
            accrue_result(*old(self), account_balance, global_index) matches Err(e) ==> r == Err::<
                (),
                ProgramError,
            >(e) && *final(self) == *old(self),
    {
        if self.get_local_index() >= global_index {
            return Ok(());
        }
        let principal: u64 = self.get_principal(account_balance)?;
        let calculated_yield: u64 = calculate_yield(principal, self.get_local_index(), global_index)?;
        self.add_pending_amount(calculated_yield)?;
        if calculated_yield > 0 {
            self.set_local_index(global_index);
        }
        Ok(())
    }
}

impl Default for ClaimableYieldAccount {
    fn default() -> (a: ClaimableYieldAccount)
        ensures
            a.pending_amount == 0,
            a.local_index == 0,
    {
        ClaimableYieldAccount { pending_amount: 0, local_index: 0 }
    }
}

impl Extension for ClaimableYieldAccount {
    const TYPE: ExtensionType = ExtensionType::ClaimableYieldAccount;
}

} // verus!
