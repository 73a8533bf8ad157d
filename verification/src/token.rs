//! The token program: its address, its accounts and its transfer instruction.

use crate::error::ProgramError;
use crate::instruction::{AccountMeta, Instruction, InstructionView};
use crate::pubkey::Pubkey;
use solana_program::program_error::ProgramError as HostError;
use solana_program::program_pack::Pack;
use solana_program::pubkey::Pubkey as HostPubkey;
use spl_token::state::{Account, AccountState as HostAccountState};
use vstd::bytes::spec_u64_to_le_bytes;
use vstd::prelude::*;

verus! {

/// The bytes of the token program's address.
pub const ID_BYTES: [u8; 32] = [
    6, 221, 246, 225, 215, 101, 161, 147, 217, 203, 225, 70, 206, 235, 121, 172,
    28, 180, 133, 237, 95, 91, 55, 145, 58, 140, 245, 133, 126, 255, 0, 169,
];

/// The address of the token program.
pub open spec fn spec_id() -> Pubkey {
    Pubkey(ID_BYTES)
}

/// The address of the token program.
#[verifier::when_used_as_spec(spec_id)]
pub fn id() -> (key: Pubkey)
    ensures
        key == spec_id(),
{
    Pubkey(ID_BYTES)
}

/// What a token account can be used for.
#[derive(Clone, Copy, Debug, PartialEq, Eq, Structural)]
pub enum AccountState {
    /// The account is not a token account yet.
    Uninitialized,
    /// The account's owner and delegate may use it.
    Initialized,
    /// The account is frozen: nobody may use it.
    Frozen,
}

/// What the program reads of a token account.
#[derive(Clone, Copy, Debug, PartialEq, Eq)]
pub struct TokenAccount {
    /// The address that may move the account's tokens.
    pub owner: Pubkey,
    /// The amount of tokens in the account.
    pub amount: u64,
    /// The address that the owner has allowed to move tokens, if any.
    pub delegate: Option<Pubkey>,
    /// What the account can be used for.
    pub state: AccountState,
    /// The address that may close the account, if not the owner alone.
    pub close_authority: Option<Pubkey>,
}

/// The token account that the token program reads from `data`, or the error with which
/// it refuses the data.
pub uninterp spec fn unpacked_account(data: Seq<u8>) -> Result<TokenAccount, ProgramError>;

/// Reads a token account from the data of an account with
/// `spl_token::state::Account::unpack`. The contract claims only that the result is a
/// function of the data.
#[verifier::external_body]
pub(crate) fn unpack_account(data: &[u8]) -> (result: Result<TokenAccount, ProgramError>)
    ensures
        result == unpacked_account(data@),
{
    let key = |k: HostPubkey| Pubkey(k.to_bytes());
    match Account::unpack(data) {
        Ok(a) => Ok(TokenAccount {
            owner: key(a.owner), amount: a.amount,
            delegate: Option::from(a.delegate).map(key),
            state: match a.state {
                HostAccountState::Uninitialized => AccountState::Uninitialized,
                HostAccountState::Initialized => AccountState::Initialized,
                HostAccountState::Frozen => AccountState::Frozen,
            },
            close_authority: Option::from(a.close_authority).map(key),
        }),
        Err(HostError::UninitializedAccount) => Err(ProgramError::UninitializedAccount),
        Err(_) => Err(ProgramError::InvalidAccountData),
    }
}

/// The instruction that asks the token program to move `amount` tokens from `source` to
/// `destination` on the authority of `authority`, which signs alone.
pub open spec fn transfer_instruction(
    source: Pubkey,
    destination: Pubkey,
    authority: Pubkey,
    amount: u64,
) -> InstructionView {
    InstructionView {
        program_id: spec_id(),
        accounts: seq![
            AccountMeta { pubkey: source, is_signer: false, is_writable: true },
            AccountMeta { pubkey: destination, is_signer: false, is_writable: true },
            AccountMeta { pubkey: authority, is_signer: true, is_writable: false },
        ],
        data: seq![3u8] + spec_u64_to_le_bytes(amount),
    }
}

/// Builds a transfer instruction with `spl_token::instruction::transfer`, for an authority
/// that signs alone. The contract claims that the call succeeds exactly for the token
/// program's own address, that it then names the source and the destination as writable
/// and the authority as the one signer, and that the data is the byte 3 followed by the
/// amount in little-endian order.
#[verifier::external_body]
pub(crate) fn transfer(
    token_program_id: &Pubkey,
    source: &Pubkey,
    destination: &Pubkey,
    authority: &Pubkey,
    amount: u64,
) -> (result: Result<Instruction, ProgramError>)
    ensures
        match result {
            Ok(instruction) => *token_program_id == spec_id() && instruction@ == transfer_instruction(
                *source,
                *destination,
                *authority,
                amount,
            ),
            Err(e) => *token_program_id != spec_id() && e == ProgramError::IncorrectProgramId,
        },
{
    let host = |k: &Pubkey| HostPubkey::new_from_array(k.0);
    let (program, from, to) = (host(token_program_id), host(source), host(destination));
    match spl_token::instruction::transfer(&program, &from, &to, &host(authority), &[], amount) {
        Ok(built) => Ok(Instruction {
            program_id: Pubkey(built.program_id.to_bytes()),
            accounts: built.accounts.iter().map(|m| AccountMeta {
                pubkey: Pubkey(m.pubkey.to_bytes()),
                is_signer: m.is_signer,
                is_writable: m.is_writable,
            }).collect(),
            data: built.data,
        }),
        Err(_) => Err(ProgramError::IncorrectProgramId),
    }
}

} // verus!
