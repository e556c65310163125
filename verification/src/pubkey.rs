use vstd::prelude::*;

use crate::error::ProgramError;
use solana_program_error::ProgramError as SolanaProgramError;

verus! {

/// A 32-byte account address.
#[derive(Clone, Copy, Debug, Eq)]
pub struct Pubkey(pub [u8; 32]);

impl Pubkey {
    /// Whether every byte of the key is zero.
    pub open spec fn is_zero(self) -> bool {
        forall|i: int| 0 <= i < 32 ==> self.0[i] == 0u8
    }

    /// Builds a key from its 32 bytes.
    pub fn new_from_array(bytes: [u8; 32]) -> (k: Pubkey)
        ensures
            k.0 == bytes,
    {
        Pubkey(bytes)
    }

    /// The 32 bytes of the key.
    pub fn to_bytes(&self) -> (b: [u8; 32])
        ensures
            b == self.0,
    {
        self.0
    }
}

impl PartialEq for Pubkey {
    fn eq(&self, other: &Pubkey) -> (r: bool) {
        let mut i: usize = 0;
        while i < 32
            invariant
                i <= 32,
                forall|j: int| 0 <= j < i ==> self.0[j] == other.0[j],
            decreases 32 - i,
        {
            if self.0[i] != other.0[i] {
                return false;
            }
            i = i + 1;
        }
        assert(self.0 =~= other.0);
        true
    }
}

impl vstd::std_specs::cmp::PartialEqSpecImpl for Pubkey {
    open spec fn obeys_eq_spec() -> bool {
        true
    }

    open spec fn eq_spec(&self, other: &Pubkey) -> bool {
        *self == *other
    }
}

impl Default for Pubkey {
    fn default() -> (k: Pubkey)
        ensures
            k.is_zero(),
    {
        Pubkey([0u8; 32])
    }
}

} // verus!

verus! {

/// A key that is either absent or not all zero; absence is written as the
/// all-zero key, so that the value has a fixed 32-byte layout.
#[derive(Clone, Copy, Debug, PartialEq, Eq)]
pub struct OptionalNonZeroPubkey(pub Pubkey);

/// What reading an optional key gives: `None` for the all-zero key, the key
/// otherwise.
pub open spec fn optional_key_view(k: OptionalNonZeroPubkey) -> Option<Pubkey> {
    if k.0.is_zero() {
        None
    } else {
        Some(k.0)
    }
}

/// Whether `r` is what building an optional key from `opt` gives: the
/// all-zero key for `None`, the key itself for a key that is not all zero,
/// and `InvalidArgument` for `Some` of the all-zero key.
pub open spec fn optional_key_from(opt: Option<Pubkey>, r: Result<OptionalNonZeroPubkey, ProgramError>) -> bool {
    match opt {
        None => r is Ok && r->Ok_0.0.is_zero(),
        Some(k) => if k.is_zero() {
            r == Err::<OptionalNonZeroPubkey, ProgramError>(ProgramError::InvalidArgument)
        } else {
            r == Ok::<OptionalNonZeroPubkey, ProgramError>(OptionalNonZeroPubkey(k))
        },
    }
}

/// The error type of the account-key conversions of spl-pod.
#[verifier::external_type_specification]
#[verifier::external_body]
pub struct ExSolanaProgramError(SolanaProgramError);

/// Calls spl-pod's `TryFrom<Option<Pubkey>>` for `OptionalNonZeroPubkey`.
/// Its source maps `None` to the default (all-zero) key, rejects `Some` of the
/// all-zero key with an error, and keeps any other key.
#[verifier::external_body]
fn pod_optional_key_try_from(opt: Option<Pubkey>) -> (r: Result<
    OptionalNonZeroPubkey,
    SolanaProgramError,
>)
    ensures
        match opt {
            None => r is Ok && r->Ok_0.0.is_zero(),
            Some(k) => if k.is_zero() {
                r is Err
            } else {
                r == Ok::<OptionalNonZeroPubkey, SolanaProgramError>(
                    OptionalNonZeroPubkey(k),
                )
            },
        },
{
    let key = match opt {
        Some(k) => Some(solana_pubkey::Pubkey::new_from_array(k.0)),
        None => None,
    };
    match spl_pod::optional_keys::OptionalNonZeroPubkey::try_from(key) {
        Ok(p) => Ok(OptionalNonZeroPubkey(Pubkey(p.0.to_bytes()))),
        Err(e) => Err(e),
    }
}

/// Calls spl-pod's `From<OptionalNonZeroPubkey>` for `Option<Pubkey>`. Its
/// source gives `None` for the default (all-zero) key and the key otherwise.
#[verifier::external_body]
fn pod_optional_key_into(k: OptionalNonZeroPubkey) -> (r: Option<Pubkey>)
    ensures
        r == optional_key_view(k),
{
    let p = spl_pod::optional_keys::OptionalNonZeroPubkey(solana_pubkey::Pubkey::new_from_array((k.0).0));
    match Option::<solana_pubkey::Pubkey>::from(p) {
        Some(key) => Some(Pubkey(key.to_bytes())),
        None => None,
    }
}

impl OptionalNonZeroPubkey {
    /// Builds an optional key; `Some` of the all-zero key is refused with
    /// `InvalidArgument`.
    pub fn try_from_option(opt: Option<Pubkey>) -> (r: Result<OptionalNonZeroPubkey, ProgramError>)
        ensures
            optional_key_from(opt, r),
    {
        match pod_optional_key_try_from(opt) {
            Ok(k) => Ok(k),
            Err(_) => Err(ProgramError::InvalidArgument),
        }
    }

    /// The key, or `None` when it is the all-zero key.
    pub fn to_option(&self) -> (r: Option<Pubkey>)
        ensures
            r == optional_key_view(*self),
    {
        pod_optional_key_into(*self)
    }
}

impl Default for OptionalNonZeroPubkey {
    fn default() -> (k: OptionalNonZeroPubkey)
        ensures
            k.0.is_zero(),
            optional_key_view(k) is None,
    {
        OptionalNonZeroPubkey(Pubkey::default())
    }
}

} // verus!
