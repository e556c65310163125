use vstd::prelude::*;

use crate::error::{ProgramError, TokenError};
use crate::pod::{le_bytes, pod_u64_from, pod_u64_into};
use crate::pubkey::{OptionalNonZeroPubkey, Pubkey};

verus! {

/// The first byte of every instruction of this extension: its tag among the
/// token program's instructions, the next one after the pausable extension's
/// (44).
pub const CLAIMABLE_YIELD_EXTENSION: u8 = 45;

/// The bytes of the token program's id,
/// `TokenzQdBNbLqP5VEhdkAS6EPFLC1PHnBqCXEpPxuEb`.
pub open spec fn token_program_id_bytes() -> Seq<u8> {
    seq![
        6u8, 221u8, 246u8, 225u8, 238u8, 117u8, 143u8, 222u8,
        24u8, 66u8, 93u8, 188u8, 228u8, 108u8, 205u8, 218u8,
        182u8, 26u8, 252u8, 77u8, 131u8, 185u8, 13u8, 39u8,
        254u8, 189u8, 249u8, 40u8, 216u8, 161u8, 139u8, 252u8,
    ]
}

/// Whether `k` is the token program's id.
pub open spec fn is_token_program_id(k: Pubkey) -> bool {
    k.0@ == token_program_id_bytes()
}

/// The token program's id.
pub fn id() -> (k: Pubkey)
    ensures
        is_token_program_id(k),
{
    let k = Pubkey(
        [
            6, 221, 246, 225, 238, 117, 143, 222, 24, 66, 93, 188, 228, 108, 205, 218, 182, 26, 252,
            77, 131, 185, 13, 39, 254, 189, 249, 40, 216, 161, 139, 252,
        ],
    );
    assert(k.0@ =~= token_program_id_bytes());
    k
}

/// Checks that `spl_token_program_id` is the token program's id; fails with
/// `IncorrectProgramId` otherwise.
pub fn check_program_account(spl_token_program_id: &Pubkey) -> (r: Result<(), ProgramError>)
    ensures
        is_token_program_id(*spl_token_program_id) ==> r is Ok,
        !is_token_program_id(*spl_token_program_id) ==> r == Err::<(), ProgramError>(
            ProgramError::IncorrectProgramId,
        ),
{
    let token = id();
    let same = *spl_token_program_id == token;
    if !same {
        proof {
            if is_token_program_id(*spl_token_program_id) {
                assert forall|i: int| 0 <= i < 32 implies spl_token_program_id.0[i] == token.0[i] by {
                    assert(spl_token_program_id.0@[i] == token.0@[i]);
                }
                assert(spl_token_program_id.0 =~= token.0);
            }
        }
        return Err(ProgramError::IncorrectProgramId);
    }
    Ok(())
}

/// The instructions of the claimable-yield extension.
#[derive(Clone, Copy, Debug, PartialEq, Eq, Structural)]
pub enum ClaimableYieldInstruction {
    /// Initialize a mint with claimable yield functionality.
    ///
    /// Fails if the mint has already been initialized, so must be called
    /// before the mint itself is initialized.
    ///
    /// Accounts expected by this instruction:
    ///
    ///   0. `[writable]` The mint to initialize.
    ///
    /// Data expected by this instruction: `InitializeInstructionData`.
    InitializeMint,
    /// Update the global yield index. Only supported for mints that include
    /// the claimable-yield extension.
    ///
    /// The new index must be greater than or equal to the current global
    /// index, so that yield is never reduced.
    ///
    /// Accounts expected by this instruction:
    ///
    ///   * Single authority
    ///   0. `[writable]` The mint.
    ///   1. `[signer]` The index authority.
    ///
    ///   * Multisignature authority
    ///   0. `[writable]` The mint.
    ///   1. `[]` The mint's multisignature index authority.
    ///   2. `..2+M` `[signer]` M signer accounts.
    ///
    /// Data expected by this instruction: `UpdateIndexInstructionData`.
    UpdateIndex,
    /// Claim all accrued yield for a token account: the yield since the
    /// account's local index is added to its pending amount, and the pending
    /// amount is minted to the account and reset to zero.
    ///
    /// Accounts expected by this instruction:
    ///
    ///   0. `[writable]` The token account to claim yield for.
    ///   1. `[writable]` The mint account (to increase supply).
    ///   2. `[signer]` The account's yield authority.
    ///
    ///   * Multisignature authority
    ///   0. `[writable]` The token account to claim yield for.
    ///   1. `[writable]` The mint account.
    ///   2. `[]` The account's multisignature owner.
    ///   3. `..3+M` `[signer]` M signer accounts.
    ClaimYield,
}

/// The byte that encodes an instruction kind.
pub open spec fn instruction_byte(kind: ClaimableYieldInstruction) -> u8 {
    match kind {
        ClaimableYieldInstruction::InitializeMint => 0u8,
        ClaimableYieldInstruction::UpdateIndex => 1u8,
        ClaimableYieldInstruction::ClaimYield => 2u8,
    }
}

impl ClaimableYieldInstruction {
    /// The instruction kind encoded by `b`, or `None` when no kind has that byte.
    pub fn try_from_u8(b: u8) -> (r: Option<ClaimableYieldInstruction>)
        ensures
            r matches Some(kind) ==> instruction_byte(kind) == b,
            r is None <==> b > 2,
    {
        if b == 0 {
            Some(ClaimableYieldInstruction::InitializeMint)
        } else if b == 1 {
            Some(ClaimableYieldInstruction::UpdateIndex)
        } else if b == 2 {
            Some(ClaimableYieldInstruction::ClaimYield)
        } else {
            None
        }
    }
}

impl From<ClaimableYieldInstruction> for u8 {
    fn from(kind: ClaimableYieldInstruction) -> (b: u8) {
        match kind {
            ClaimableYieldInstruction::InitializeMint => 0,
            ClaimableYieldInstruction::UpdateIndex => 1,
            ClaimableYieldInstruction::ClaimYield => 2,
        }
    }
}

impl vstd::std_specs::convert::FromSpecImpl<ClaimableYieldInstruction> for u8 {
    open spec fn obeys_from_spec() -> bool {
        true
    }

    open spec fn from_spec(kind: ClaimableYieldInstruction) -> u8 {
        instruction_byte(kind)
    }
}

/// Data expected by `ClaimableYieldInstruction::InitializeMint`.
#[derive(Clone, Copy, Debug, PartialEq)]
pub struct InitializeInstructionData {
    /// The account which has authority over which accounts can claim yield.
    /// If absent, token account owners may always claim yield.
    pub yield_authority: OptionalNonZeroPubkey,
    /// The account that can update the global index.
    pub index_authority: OptionalNonZeroPubkey,
    /// The initial global index (fixed-point with 9 decimal places).
    pub initial_index: u64,
}

/// Data expected by `ClaimableYieldInstruction::UpdateIndex`.
#[derive(Clone, Copy, Debug, PartialEq, Eq, Structural)]
pub struct UpdateIndexInstructionData {
    /// The new global index (fixed-point with 9 decimal places).
    pub new_index: u64,
}

/// The 72 bytes of `InitializeInstructionData`: the two keys, then the
/// initial index in little-endian order.
pub open spec fn initialize_data_bytes(d: InitializeInstructionData) -> Seq<u8> {
    d.yield_authority.0.0@ + d.index_authority.0.0@ + le_bytes(d.initial_index)
}

/// The 8 bytes of `UpdateIndexInstructionData`: the new index in
/// little-endian order.
pub open spec fn update_index_data_bytes(d: UpdateIndexInstructionData) -> Seq<u8> {
    le_bytes(d.new_index)
}

/// An account that an instruction reads or writes.
#[derive(Clone, Copy, Debug, PartialEq, Eq)]
pub struct AccountMeta {
    /// The account's address.
    pub pubkey: Pubkey,
    /// Whether the instruction needs a signature of this account.
    pub is_signer: bool,
    /// Whether the instruction writes the account.
    pub is_writable: bool,
}

impl AccountMeta {
    /// A writable account.
    pub fn new(pubkey: Pubkey, is_signer: bool) -> (m: AccountMeta)
        ensures
            m == (AccountMeta { pubkey, is_signer, is_writable: true }),
    {
        AccountMeta { pubkey, is_signer, is_writable: true }
    }

    /// A read-only account.
    pub fn new_readonly(pubkey: Pubkey, is_signer: bool) -> (m: AccountMeta)
        ensures
            m == (AccountMeta { pubkey, is_signer, is_writable: false }),
    {
        AccountMeta { pubkey, is_signer, is_writable: false }
    }
}

/// An instruction to the token program: the program, the accounts it
/// touches, and its data.
#[derive(Debug, PartialEq, Eq)]
pub struct Instruction {
    /// The program that runs the instruction.
    pub program_id: Pubkey,
    /// The accounts that the instruction reads or writes, in order.
    pub accounts: Vec<AccountMeta>,
    /// The encoded instruction.
    pub data: Vec<u8>,
}

/// The data of an instruction of this extension: the extension's tag, the
/// instruction kind's byte, then the instruction's own data.
pub open spec fn instruction_data(kind: ClaimableYieldInstruction, payload: Seq<u8>) -> Seq<u8> {
    seq![CLAIMABLE_YIELD_EXTENSION, instruction_byte(kind)] + payload
}

/// Read-only signer entries for each of `signers`.
pub open spec fn signer_metas(signers: Seq<&Pubkey>) -> Seq<AccountMeta> {
    Seq::new(
        signers.len(),
        |i: int| AccountMeta { pubkey: *signers[i], is_signer: true, is_writable: false },
    )
}

/// Whether an optional key is refused: `Some` of the all-zero key.
pub open spec fn rejects_key(opt: Option<Pubkey>) -> bool {
    opt matches Some(k) && k.is_zero()
}

/// The 32 bytes stored for an optional key: zeros for `None`.
pub open spec fn optional_key_bytes(opt: Option<Pubkey>) -> Seq<u8> {
    match opt {
        Some(k) => k.0@,
        None => Seq::new(32, |i: int| 0u8),
    }
}

/// Appends `bytes` to `data`.
fn extend_bytes(data: &mut Vec<u8>, bytes: &[u8])
    ensures
        final(data)@ == old(data)@ + bytes@,
{
    let mut i: usize = 0;
    while i < bytes.len()
        invariant
            i <= bytes@.len(),
            data@ == old(data)@ + bytes@.subrange(0, i as int),
        decreases bytes@.len() - i,
    {
        data.push(bytes[i]);
        i = i + 1;
        assert(bytes@.subrange(0, i as int) =~= bytes@.subrange(0, i - 1) + seq![bytes@[i - 1]]);
    }
    assert(bytes@.subrange(0, i as int) =~= bytes@);
}

/// Builds an instruction of this extension from its accounts, kind and
/// own data.
fn encode_instruction(
    program_id: &Pubkey,
    accounts: Vec<AccountMeta>,
    kind: ClaimableYieldInstruction,
    payload: &[u8],
) -> (ix: Instruction)
    ensures
        ix.program_id == *program_id,
        ix.accounts@ == accounts@,
        ix.data@ == instruction_data(kind, payload@),
{
    let mut data: Vec<u8> = Vec::new();
    data.push(CLAIMABLE_YIELD_EXTENSION);
    data.push(u8::from(kind));
    extend_bytes(&mut data, payload);
    assert(data@ =~= instruction_data(kind, payload@));
    Instruction { program_id: *program_id, accounts, data }
}

/// Appends a read-only signer entry for each of `signers`.
fn push_signers(accounts: &mut Vec<AccountMeta>, signers: &[&Pubkey])
    ensures
        final(accounts)@ == old(accounts)@ + signer_metas(signers@),
{
    let mut i: usize = 0;
    while i < signers.len()
        invariant
            i <= signers@.len(),
            accounts@ == old(accounts)@ + signer_metas(signers@.subrange(0, i as int)),
        decreases signers@.len() - i,
    {
        let signer: &Pubkey = signers[i];
        accounts.push(AccountMeta::new_readonly(*signer, true));
        i = i + 1;
        assert(signer_metas(signers@.subrange(0, i as int)) =~= signer_metas(
            signers@.subrange(0, i - 1),
        ).push(AccountMeta { pubkey: *signers@[i - 1], is_signer: true, is_writable: false }));
    }
    assert(signers@.subrange(0, i as int) =~= signers@);
}

/// Encodes `InitializeInstructionData` as its 72 bytes.
fn initialize_data_to_bytes(d: &InitializeInstructionData) -> (v: Vec<u8>)
    ensures
        v@ == initialize_data_bytes(*d),
{
    let mut v: Vec<u8> = Vec::new();
    extend_bytes(&mut v, d.yield_authority.0.0.as_slice());
    extend_bytes(&mut v, d.index_authority.0.0.as_slice());
    let index = pod_u64_from(d.initial_index);
    extend_bytes(&mut v, index.as_slice());
    assert(v@ =~= initialize_data_bytes(*d));
    v
}

/// Creates an `InitializeMint` instruction.
///
/// Fails with `IncorrectProgramId` when `token_program_id` is not the token
/// program, and with `InvalidArgument` when an authority is given as the
/// all-zero key.
pub fn initialize_mint(
    token_program_id: &Pubkey,
    mint: &Pubkey,
    yield_authority: Option<Pubkey>,
    index_authority: Option<Pubkey>,
    initial_index: u64,
) -> (r: Result<Instruction, ProgramError>)
    ensures
        !is_token_program_id(*token_program_id) ==> r == Err::<Instruction, ProgramError>(
            ProgramError::IncorrectProgramId,
        ),
        is_token_program_id(*token_program_id) && (rejects_key(yield_authority) || rejects_key(
            index_authority,
        )) ==> r == Err::<Instruction, ProgramError>(ProgramError::InvalidArgument),
        is_token_program_id(*token_program_id) && !rejects_key(yield_authority) && !rejects_key(
            index_authority,
        ) ==> (r matches Ok(ix) && ix.program_id == *token_program_id && ix.accounts@ == seq![
            AccountMeta { pubkey: *mint, is_signer: false, is_writable: true },
        ] && ix.data@ == instruction_data(
            ClaimableYieldInstruction::InitializeMint,
            optional_key_bytes(yield_authority) + optional_key_bytes(index_authority) + le_bytes(
                initial_index,
            ),
        )),
{
    check_program_account(token_program_id)?;
    let mut accounts: Vec<AccountMeta> = Vec::new();
    accounts.push(AccountMeta::new(*mint, false));
    let yield_key = OptionalNonZeroPubkey::try_from_option(yield_authority)?;
    let index_key = OptionalNonZeroPubkey::try_from_option(index_authority)?;
    let data = InitializeInstructionData {
        yield_authority: yield_key,
        index_authority: index_key,
        initial_index,
    };
    let payload = initialize_data_to_bytes(&data);
    proof {
        assert(yield_key.0.0@ =~= optional_key_bytes(yield_authority));
        assert(index_key.0.0@ =~= optional_key_bytes(index_authority));
        assert(accounts@ =~= seq![AccountMeta { pubkey: *mint, is_signer: false, is_writable: true }]);
    }
    Ok(encode_instruction(token_program_id, accounts, ClaimableYieldInstruction::InitializeMint, payload.as_slice()))
}

/// Creates an `UpdateIndex` instruction. The index authority signs itself
/// when no multisignature signers are given.
///
/// Fails with `IncorrectProgramId` when `token_program_id` is not the token
/// program.
pub fn update_index(
    token_program_id: &Pubkey,
    mint: &Pubkey,
    index_authority: &Pubkey,
    signers: &[&Pubkey],
    new_index: u64,
) -> (r: Result<Instruction, ProgramError>)
    ensures
        !is_token_program_id(*token_program_id) ==> r == Err::<Instruction, ProgramError>(
            ProgramError::IncorrectProgramId,
        ),
        is_token_program_id(*token_program_id) ==> (r matches Ok(ix) && ix.program_id
            == *token_program_id && ix.accounts@ == seq![
            AccountMeta { pubkey: *mint, is_signer: false, is_writable: true },
            AccountMeta {
                pubkey: *index_authority,
                is_signer: signers@.len() == 0,
                is_writable: false,
            },
        ] + signer_metas(signers@) && ix.data@ == instruction_data(
            ClaimableYieldInstruction::UpdateIndex,
            le_bytes(new_index),
        )),
{
    check_program_account(token_program_id)?;
    let mut accounts: Vec<AccountMeta> = Vec::new();
    accounts.push(AccountMeta::new(*mint, false));
    accounts.push(AccountMeta::new_readonly(*index_authority, signers.len() == 0));
    push_signers(&mut accounts, signers);
    let data = UpdateIndexInstructionData { new_index };
    let payload = pod_u64_from(data.new_index);
    proof {
        assert(accounts@ =~= seq![
            AccountMeta { pubkey: *mint, is_signer: false, is_writable: true },
            AccountMeta {
                pubkey: *index_authority,
                is_signer: signers@.len() == 0,
                is_writable: false,
            },
        ] + signer_metas(signers@));
    }
    Ok(encode_instruction(token_program_id, accounts, ClaimableYieldInstruction::UpdateIndex, payload.as_slice()))
}

/// Creates a `ClaimYield` instruction. The owner signs itself when no
/// multisignature signers are given.
///
/// Fails with `IncorrectProgramId` when `token_program_id` is not the token
/// program.
pub fn claim_yield(
    token_program_id: &Pubkey,
    account: &Pubkey,
    mint: &Pubkey,
    owner: &Pubkey,
    signers: &[&Pubkey],
) -> (r: Result<Instruction, ProgramError>)
    ensures
        !is_token_program_id(*token_program_id) ==> r == Err::<Instruction, ProgramError>(
            ProgramError::IncorrectProgramId,
        ),
        is_token_program_id(*token_program_id) ==> (r matches Ok(ix) && ix.program_id
            == *token_program_id && ix.accounts@ == seq![
            AccountMeta { pubkey: *account, is_signer: false, is_writable: true },
            AccountMeta { pubkey: *mint, is_signer: false, is_writable: true },
            AccountMeta { pubkey: *owner, is_signer: signers@.len() == 0, is_writable: false },
        ] + signer_metas(signers@) && ix.data@ == instruction_data(
            ClaimableYieldInstruction::ClaimYield,
            Seq::empty(),
        )),
{
    check_program_account(token_program_id)?;
    let mut accounts: Vec<AccountMeta> = Vec::new();
    accounts.push(AccountMeta::new(*account, false));
    accounts.push(AccountMeta::new(*mint, false));
    accounts.push(AccountMeta::new_readonly(*owner, signers.len() == 0));
    push_signers(&mut accounts, signers);
    let payload: Vec<u8> = Vec::new();
    proof {
        assert(accounts@ =~= seq![
            AccountMeta { pubkey: *account, is_signer: false, is_writable: true },
            AccountMeta { pubkey: *mint, is_signer: false, is_writable: true },
            AccountMeta { pubkey: *owner, is_signer: signers@.len() == 0, is_writable: false },
        ] + signer_metas(signers@));
        assert(payload@ =~= Seq::<u8>::empty());
    }
    Ok(encode_instruction(token_program_id, accounts, ClaimableYieldInstruction::ClaimYield, payload.as_slice()))
}

/// An instruction of this extension as the processor receives it, with its
/// data decoded.
#[derive(Clone, Copy, Debug, PartialEq)]
pub enum DecodedInstruction {
    /// `ClaimableYieldInstruction::InitializeMint` with its data.
    InitializeMint(InitializeInstructionData),
    /// `ClaimableYieldInstruction::UpdateIndex` with its data.
    UpdateIndex(UpdateIndexInstructionData),
    /// `ClaimableYieldInstruction::ClaimYield`, which carries no data.
    ClaimYield,
}

/// The bytes that the processor receives for a decoded instruction: the
/// kind's byte followed by the instruction's data.
pub open spec fn decoded_bytes(d: DecodedInstruction) -> Seq<u8> {
    match d {
        DecodedInstruction::InitializeMint(x) => seq![
            instruction_byte(ClaimableYieldInstruction::InitializeMint),
        ] + initialize_data_bytes(x),
        DecodedInstruction::UpdateIndex(x) => seq![
            instruction_byte(ClaimableYieldInstruction::UpdateIndex),
        ] + update_index_data_bytes(x),
        DecodedInstruction::ClaimYield => seq![
            instruction_byte(ClaimableYieldInstruction::ClaimYield),
        ],
    }
}

/// Whether `input` decodes to `d`: the bytes of an instruction with data are
/// exactly its encoding; `ClaimYield` reads only its kind's byte.
pub open spec fn decodes_to(input: Seq<u8>, d: DecodedInstruction) -> bool {
    match d {
        DecodedInstruction::ClaimYield => input.len() >= 1 && input[0] == instruction_byte(
            ClaimableYieldInstruction::ClaimYield,
        ),
        _ => input == decoded_bytes(d),
    }
}

/// The error that decoding `input` stops at, if any: empty input, an
/// unknown kind, or data of the wrong length.
pub open spec fn decode_error(input: Seq<u8>) -> Option<ProgramError> {
    if input.len() == 0 {
        Some(ProgramError::InvalidInstructionData)
    } else if input[0] > 2 {
        Some(ProgramError::Token(TokenError::InvalidInstruction))
    } else if input[0] == 0 && input.len() != 73 {
        Some(ProgramError::InvalidInstructionData)
    } else if input[0] == 1 && input.len() != 9 {
        Some(ProgramError::InvalidInstructionData)
    } else {
        None
    }
}

/// Reads the 32 bytes of a key at `offset`.
fn read_key(input: &[u8], offset: usize) -> (k: Pubkey)
    requires
        offset + 32 <= input@.len(),
    ensures
        k.0@ == input@.subrange(offset as int, offset + 32),
{
    let mut bytes: [u8; 32] = [0u8; 32];
    let len: usize = input.len();
    let mut i: usize = 0;
    while i < 32
        invariant
            i <= 32,
            len == input@.len(),
            offset + 32 <= input@.len(),
            forall|j: int| 0 <= j < i ==> bytes[j] == input@[offset + j],
        decreases 32 - i,
    {
        bytes[i] = input[offset + i];
        i = i + 1;
    }
    assert(bytes@ =~= input@.subrange(offset as int, offset + 32));
    Pubkey(bytes)
}

/// Reads a little-endian `u64` at `offset`.
fn read_u64(input: &[u8], offset: usize) -> (v: u64)
    requires
        offset + 8 <= input@.len(),
    ensures
        le_bytes(v) == input@.subrange(offset as int, offset + 8),
{
    let mut bytes: [u8; 8] = [0u8; 8];
    let len: usize = input.len();
    let mut i: usize = 0;
    while i < 8
        invariant
            i <= 8,
            len == input@.len(),
            offset + 8 <= input@.len(),
            forall|j: int| 0 <= j < i ==> bytes[j] == input@[offset + j],
        decreases 8 - i,
    {
        bytes[i] = input[offset + i];
        i = i + 1;
    }
    assert(bytes@ =~= input@.subrange(offset as int, offset + 8));
    pod_u64_into(bytes)
}

/// Decodes an instruction of this extension as the processor receives it
/// (after the extension's tag): the kind's byte, then its data.
///
/// Fails with `IncorrectProgramId` when `program_id` is not the token
/// program; with `InvalidInstructionData` when the input is empty or the
/// data has the wrong length; and with `TokenError::InvalidInstruction`
/// when the kind is unknown.
pub fn decode_instruction(program_id: &Pubkey, input: &[u8]) -> (r: Result<
    DecodedInstruction,
    ProgramError,
>)
    ensures
        !is_token_program_id(*program_id) ==> r == Err::<DecodedInstruction, ProgramError>(
            ProgramError::IncorrectProgramId,
        ),
        is_token_program_id(*program_id) ==> match decode_error(input@) {
            Some(e) => r == Err::<DecodedInstruction, ProgramError>(e),
            None => r matches Ok(d) && decodes_to(input@, d),
        },
{
    check_program_account(program_id)?;
    if input.len() == 0 {
        return Err(ProgramError::InvalidInstructionData);
    }
    let kind = match ClaimableYieldInstruction::try_from_u8(input[0]) {
        Some(k) => k,
        None => return Err(ProgramError::Token(TokenError::InvalidInstruction)),
    };
    match kind {
        ClaimableYieldInstruction::InitializeMint => {
            if input.len() != 73 {
                return Err(ProgramError::InvalidInstructionData);
            }
            let yield_authority = OptionalNonZeroPubkey(read_key(input, 1));
            let index_authority = OptionalNonZeroPubkey(read_key(input, 33));
            let initial_index: u64 = read_u64(input, 65);
            let data = InitializeInstructionData { yield_authority, index_authority, initial_index };
            assert(input@ =~= decoded_bytes(DecodedInstruction::InitializeMint(data)));
            Ok(DecodedInstruction::InitializeMint(data))
        },
        ClaimableYieldInstruction::UpdateIndex => {
            if input.len() != 9 {
                return Err(ProgramError::InvalidInstructionData);
            }
            let new_index: u64 = read_u64(input, 1);
            let data = UpdateIndexInstructionData { new_index };
            assert(input@ =~= decoded_bytes(DecodedInstruction::UpdateIndex(data)));
            Ok(DecodedInstruction::UpdateIndex(data))
        },
        ClaimableYieldInstruction::ClaimYield => Ok(DecodedInstruction::ClaimYield),
    }
}

} // verus!
