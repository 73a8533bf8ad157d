//! Token vesting: a program that holds tokens in a vault and releases them to their
//! receiver tranche by tranche, as the times of a schedule come.
//!
//! The handlers of this library decide and compute; they move no tokens and store
//! nothing. For an instruction that they accept they give an [`processor::Outcome`]: the
//! token transfer that the host has to invoke and the data that the contract's account
//! has to hold afterwards.

use vstd::prelude::*;

pub mod account;
pub mod error;
pub mod instruction;
pub mod processor;
pub mod pubkey;
pub mod state;
pub mod token;

verus! {

/// The bytes of the program's address.
pub const ID_BYTES: [u8; 32] = [
    54, 30, 138, 99, 111, 251, 6, 67, 95, 102, 102, 78, 151, 224, 49, 134,
    114, 152, 107, 40, 151, 104, 113, 187, 79, 22, 231, 48, 113, 80, 199, 188,
];

/// The program's address.
pub open spec fn spec_id() -> pubkey::Pubkey {
    pubkey::Pubkey(ID_BYTES)
}

/// The program's address.
#[verifier::when_used_as_spec(spec_id)]
pub fn id() -> (key: pubkey::Pubkey)
    ensures
        key == spec_id(),
{
    pubkey::Pubkey(ID_BYTES)
}

} // verus!
