//! The data that the program keeps in accounts.

use vstd::prelude::*;

pub mod vesting_contract;

verus! {

/// What an account of the program holds, as told by the first eight bytes of its data.
#[derive(Clone, Copy, Debug, PartialEq, Eq, Structural)]
pub enum Tag {
    /// Nothing yet: the account was allocated and never written.
    Uninitialized,
    /// A vesting contract.
    VestingContract,
}

impl Tag {
    /// The number that stands for the tag in an account's data.
    pub open spec fn spec_code(self) -> u64 {
        match self {
            Tag::Uninitialized => 0,
            Tag::VestingContract => 1,
        }
    }

    /// The number that stands for the tag in an account's data.
    #[verifier::when_used_as_spec(spec_code)]
    pub fn code(self) -> (code: u64)
        ensures
            code == self.spec_code(),
    {
        match self {
            Tag::Uninitialized => 0,
            Tag::VestingContract => 1,
        }
    }
}

} // verus!
