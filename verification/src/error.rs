//! The errors that the program reports.

use vstd::prelude::*;

verus! {

/// The failures that are specific to vesting contracts. The host sees each one as a custom
/// error that carries the variant's code.
#[derive(Clone, Copy, Debug, PartialEq, Eq, Structural)]
pub enum TokenVestingError {
    /// The account is already initialized.
    AlreadyInitialized,
    /// The leading tag of an account's data is not the expected one.
    DataTypeMismatch,
    /// An account is not owned by the program that has to own it.
    WrongOwner,
    /// The account was never initialized.
    Uninitialized,
    /// The vault holds tokens, has a delegate or a close authority, or is not owned by the
    /// contract's signing address.
    InvalidVaultAccount,
    /// A contract does not fit the bytes it is read from or written to.
    SerializationError,
}

impl TokenVestingError {
    /// The number under which the host reports the error.
    pub open spec fn spec_code(self) -> u32 {
        match self {
            TokenVestingError::AlreadyInitialized => 0,
            TokenVestingError::DataTypeMismatch => 1,
            TokenVestingError::WrongOwner => 2,
            TokenVestingError::Uninitialized => 3,
            TokenVestingError::InvalidVaultAccount => 4,
            TokenVestingError::SerializationError => 5,
        }
    }

    /// The number under which the host reports the error.
    #[verifier::when_used_as_spec(spec_code)]
    pub fn code(self) -> (code: u32)
        ensures
            code == self.spec_code(),
    {
        match self {
            TokenVestingError::AlreadyInitialized => 0,
            TokenVestingError::DataTypeMismatch => 1,
            TokenVestingError::WrongOwner => 2,
            TokenVestingError::Uninitialized => 3,
            TokenVestingError::InvalidVaultAccount => 4,
            TokenVestingError::SerializationError => 5,
        }
    }

    /// The error that the host reports under `code`, if there is one.
    pub fn from_code(code: u32) -> (error: Option<TokenVestingError>)
        ensures
            match error {
                Some(e) => e.spec_code() == code,
                None => code > 5,
            },
    {
        match code {
            0 => Some(TokenVestingError::AlreadyInitialized),
            1 => Some(TokenVestingError::DataTypeMismatch),
            2 => Some(TokenVestingError::WrongOwner),
            3 => Some(TokenVestingError::Uninitialized),
            4 => Some(TokenVestingError::InvalidVaultAccount),
            5 => Some(TokenVestingError::SerializationError),
            _ => None,
        }
    }

    /// The text that describes the error.
    pub open spec fn spec_message(self) -> Seq<char> {
        match self {
            TokenVestingError::AlreadyInitialized => "This account is already initialized"@,
            TokenVestingError::DataTypeMismatch => "Data type mismatch"@,
            TokenVestingError::WrongOwner => "Wrong account owner"@,
            TokenVestingError::Uninitialized => "Account is uninitialized"@,
            TokenVestingError::InvalidVaultAccount => "The provided vault account is invalid"@,
            TokenVestingError::SerializationError => "Serialization error"@,
        }
    }

    /// The text that describes the error.
    pub fn message(self) -> (text: &'static str)
        ensures
            text@ == self.spec_message(),
    {
        match self {
            TokenVestingError::AlreadyInitialized => "This account is already initialized",
            TokenVestingError::DataTypeMismatch => "Data type mismatch",
            TokenVestingError::WrongOwner => "Wrong account owner",
            TokenVestingError::Uninitialized => "Account is uninitialized",
            TokenVestingError::InvalidVaultAccount => "The provided vault account is invalid",
            TokenVestingError::SerializationError => "Serialization error",
        }
    }
}

/// The failures that the host knows: the ones that the program can end with.
#[derive(Clone, Copy, Debug, PartialEq, Eq, Structural)]
pub enum ProgramError {
    /// A failure of the program's own, by its code.
    Custom(u32),
    /// An argument of the instruction is not acceptable.
    InvalidArgument,
    /// The instruction's data cannot be read.
    InvalidInstructionData,
    /// An account's data cannot be read.
    InvalidAccountData,
    /// An account does not have the expected program id.
    IncorrectProgramId,
    /// An account that has to sign did not.
    MissingRequiredSignature,
    /// An account that has to be initialized is not.
    UninitializedAccount,
    /// The instruction names fewer accounts than it needs.
    NotEnoughAccountKeys,
    /// A seed of an address derivation is too long.
    MaxSeedLengthExceeded,
    /// The seeds of an address derivation yield no program address.
    InvalidSeeds,
    /// The host offers no clock.
    UnsupportedSysvar,
    /// The owner handed to an address derivation is not allowed.
    IllegalOwner,
    /// A sum of token amounts exceeds the largest amount.
    ArithmeticOverflow,
}

impl ProgramError {
    /// The failure of the program's own that the host reports as this error, if it is
    /// one: a custom error with the code of a failure.
    pub open spec fn spec_decode(self) -> Option<TokenVestingError> {
        match self {
            ProgramError::Custom(0) => Some(TokenVestingError::AlreadyInitialized),
            ProgramError::Custom(1) => Some(TokenVestingError::DataTypeMismatch),
            ProgramError::Custom(2) => Some(TokenVestingError::WrongOwner),
            ProgramError::Custom(3) => Some(TokenVestingError::Uninitialized),
            ProgramError::Custom(4) => Some(TokenVestingError::InvalidVaultAccount),
            ProgramError::Custom(5) => Some(TokenVestingError::SerializationError),
            _ => None,
        }
    }

    /// The failure of the program's own that the host reports as this error, if it is
    /// one.
    #[verifier::when_used_as_spec(spec_decode)]
    pub fn decode(self) -> (failure: Option<TokenVestingError>)
        ensures
            failure == self.spec_decode(),
    {
        match self {
            ProgramError::Custom(code) => TokenVestingError::from_code(code),
            _ => None,
        }
    }
}

impl From<TokenVestingError> for ProgramError {
    fn from(e: TokenVestingError) -> (error: ProgramError) {
        ProgramError::Custom(e.code())
    }
}

impl vstd::std_specs::convert::FromSpecImpl<TokenVestingError> for ProgramError {
    open spec fn obeys_from_spec() -> bool {
        true
    }

    open spec fn from_spec(e: TokenVestingError) -> ProgramError {
        ProgramError::Custom(e.spec_code())
    }
}

} // verus!
