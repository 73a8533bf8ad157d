use token_vesting::account::{check_account_key, check_account_owner, check_signer, AccountInfo};
use token_vesting::error::ProgramError;
use token_vesting::pubkey::Pubkey;

fn account() -> AccountInfo {
    AccountInfo { key: Pubkey([1; 32]), owner: Pubkey([2; 32]), is_signer: true, data: vec![] }
}

#[test]
fn key_check() {
    assert_eq!(check_account_key(&account(), &Pubkey([1; 32])), Ok(()));
    assert_eq!(
        check_account_key(&account(), &Pubkey([2; 32])),
        Err(ProgramError::InvalidArgument)
    );
}

#[test]
fn owner_check() {
    assert_eq!(check_account_owner(&account(), &Pubkey([2; 32])), Ok(()));
    assert_eq!(check_account_owner(&account(), &Pubkey([1; 32])), Err(ProgramError::Custom(2)));
}

#[test]
fn signer_check() {
    assert_eq!(check_signer(&account()), Ok(()));
    let mut unsigned = account();
    unsigned.is_signer = false;
    assert_eq!(check_signer(&unsigned), Err(ProgramError::MissingRequiredSignature));
}
