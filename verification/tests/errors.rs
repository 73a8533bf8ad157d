use token_vesting::error::{ProgramError, TokenVestingError};

const ALL: [TokenVestingError; 6] = [
    TokenVestingError::AlreadyInitialized,
    TokenVestingError::DataTypeMismatch,
    TokenVestingError::WrongOwner,
    TokenVestingError::Uninitialized,
    TokenVestingError::InvalidVaultAccount,
    TokenVestingError::SerializationError,
];

#[test]
fn codes_count_up_from_zero() {
    for (i, e) in ALL.iter().enumerate() {
        assert_eq!(e.code(), i as u32);
    }
}

#[test]
fn from_code_is_the_inverse_of_code() {
    for e in ALL {
        assert_eq!(TokenVestingError::from_code(e.code()), Some(e));
    }
    assert_eq!(TokenVestingError::from_code(6), None);
    assert_eq!(TokenVestingError::from_code(u32::MAX), None);
}

#[test]
fn messages() {
    assert_eq!(
        TokenVestingError::AlreadyInitialized.message(),
        "This account is already initialized"
    );
    assert_eq!(TokenVestingError::DataTypeMismatch.message(), "Data type mismatch");
    assert_eq!(TokenVestingError::WrongOwner.message(), "Wrong account owner");
    assert_eq!(TokenVestingError::Uninitialized.message(), "Account is uninitialized");
    assert_eq!(
        TokenVestingError::InvalidVaultAccount.message(),
        "The provided vault account is invalid"
    );
    assert_eq!(TokenVestingError::SerializationError.message(), "Serialization error");
}

#[test]
fn the_host_sees_a_custom_error_with_the_code() {
    assert_eq!(
        ProgramError::from(TokenVestingError::AlreadyInitialized),
        ProgramError::Custom(0)
    );
    assert_eq!(
        ProgramError::from(TokenVestingError::InvalidVaultAccount),
        ProgramError::Custom(4)
    );
    let converted: ProgramError = TokenVestingError::SerializationError.into();
    assert_eq!(converted, ProgramError::Custom(5));
}

#[test]
fn a_custom_error_with_a_code_of_the_program_is_decoded() {
    for e in ALL {
        assert_eq!(ProgramError::from(e).decode(), Some(e));
    }
    assert_eq!(ProgramError::Custom(6).decode(), None);
    assert_eq!(ProgramError::InvalidArgument.decode(), None);
    assert_eq!(ProgramError::ArithmeticOverflow.decode(), None);
}
