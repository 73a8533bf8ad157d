//! The accounts that an instruction names, as the program sees them, and the checks that
//! the program makes on them before it reads their data.

use crate::error::{ProgramError, TokenVestingError};
use crate::pubkey::Pubkey;
use vstd::prelude::*;

verus! {

/// What the program reads of an account that an instruction names.
#[derive(Clone, Debug, PartialEq, Eq)]
pub struct AccountInfo {
    /// The account's address.
    pub key: Pubkey,
    /// The program that owns the account.
    pub owner: Pubkey,
    /// Whether the account has signed the transaction.
    pub is_signer: bool,
    /// The account's data.
    pub data: Vec<u8>,
}

/// The error that an account of the wrong owner is refused with.
pub open spec fn wrong_owner() -> ProgramError {
    ProgramError::Custom(TokenVestingError::WrongOwner.spec_code())
}

/// Accepts the account if its address is `key`.
pub fn check_account_key(account: &AccountInfo, key: &Pubkey) -> (result: Result<
    (),
    ProgramError,
>)
    ensures
        result == if account.key == *key {
            Ok::<(), ProgramError>(())
        } else {
            Err(ProgramError::InvalidArgument)
        },
{
    if account.key != *key {
        return Err(ProgramError::InvalidArgument);
    }
    Ok(())
}

/// Accepts the account if the program `owner` owns it.
pub fn check_account_owner(account: &AccountInfo, owner: &Pubkey) -> (result: Result<
    (),
    ProgramError,
>)
    ensures
        result == if account.owner == *owner {
            Ok::<(), ProgramError>(())
        } else {
            Err(wrong_owner())
        },
{
    if account.owner != *owner {
        return Err(ProgramError::from(TokenVestingError::WrongOwner));
    }
    Ok(())
}

/// Accepts the account if it has signed the transaction.
pub fn check_signer(account: &AccountInfo) -> (result: Result<(), ProgramError>)
    ensures
        result == if account.is_signer {
            Ok::<(), ProgramError>(())
        } else {
            Err(ProgramError::MissingRequiredSignature)
        },
{
    if !account.is_signer {
        return Err(ProgramError::MissingRequiredSignature);
    }
    Ok(())
}

} // verus!
