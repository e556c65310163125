//! Claimable yield for token accounts: the fixed-point yield formula, the
//! mint and account extension state, the encoding of the extension's
//! instructions, and the processor's state transitions.

pub mod error;
pub mod instruction;
pub mod laws;
pub mod pod;
pub mod processor;
pub mod pubkey;
pub mod state;

pub use error::{ProgramError, TokenError};
pub use instruction::{
    check_program_account, claim_yield, decode_instruction, id, initialize_mint, update_index,
    AccountMeta, ClaimableYieldInstruction, DecodedInstruction, InitializeInstructionData,
    Instruction, UpdateIndexInstructionData, CLAIMABLE_YIELD_EXTENSION,
};
pub use processor::{
    checked_accrue_pending_yield, claim_into_self, claim_yield_authority, process_claim_yield,
    process_disable_yield, process_enable_yield, process_initialize_mint, process_instruction,
    process_update_index, update_index_authority, yield_eligibility_authority, Mint, TokenAccount,
};
pub use pubkey::{OptionalNonZeroPubkey, Pubkey};
pub use state::{
    calculate_yield, ClaimableYieldAccount, ClaimableYieldConfig, Extension, ExtensionType,
};
