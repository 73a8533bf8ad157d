use token_vesting::account::AccountInfo;
use token_vesting::error::ProgramError;
use token_vesting::instruction::{AccountMeta, Instruction};
use token_vesting::processor::claim::{
    authorize, current_timestamp, process, release, Accounts, Params,
};
use token_vesting::processor::Outcome;
use token_vesting::pubkey::Pubkey;
use token_vesting::state::vesting_contract::{VestingContract, VestingSchedule, ALL_RELEASED};
use token_vesting::state::Tag;

const CONTRACT: Pubkey = Pubkey([21; 32]);
const VAULT: Pubkey = Pubkey([22; 32]);
const DESTINATION: Pubkey = Pubkey([23; 32]);
const OWNER: Pubkey = Pubkey([24; 32]);

/// The signing address of the contract at `CONTRACT`, and its nonce.
fn signer() -> (Pubkey, u8) {
    let (address, nonce) = solana_program::pubkey::Pubkey::find_program_address(
        &[&CONTRACT.0],
        &solana_program::pubkey::Pubkey::new_from_array(token_vesting::ID_BYTES),
    );
    (Pubkey(address.to_bytes()), nonce)
}

fn tranche(unlock_timestamp: u64, quantity: u64) -> VestingSchedule {
    VestingSchedule { unlock_timestamp, quantity }
}

fn contract(current_schedule_index: u64, schedule: Vec<VestingSchedule>) -> VestingContract {
    VestingContract {
        owner: OWNER,
        vault: VAULT,
        current_schedule_index,
        signer_nonce: signer().1,
        schedule,
    }
}

fn stored(contract: &VestingContract) -> Vec<u8> {
    let mut data = vec![0u8; 88 + 16 * contract.schedule.len()];
    VestingContract::initialize(&mut data).unwrap();
    contract.commit(&mut data).unwrap();
    data
}

fn accounts(contract: &VestingContract) -> Vec<AccountInfo> {
    let token_program = token_vesting::token::id();
    vec![
        AccountInfo { key: token_program, owner: Pubkey([0; 32]), is_signer: false, data: vec![] },
        AccountInfo {
            key: CONTRACT,
            owner: token_vesting::id(),
            is_signer: false,
            data: stored(contract),
        },
        AccountInfo { key: signer().0, owner: Pubkey([0; 32]), is_signer: false, data: vec![] },
        AccountInfo { key: VAULT, owner: token_program, is_signer: false, data: vec![0; 165] },
        AccountInfo { key: DESTINATION, owner: token_program, is_signer: false, data: vec![0; 165] },
        AccountInfo { key: OWNER, owner: Pubkey([0; 32]), is_signer: true, data: vec![] },
    ]
}

fn three() -> Vec<VestingSchedule> {
    vec![tranche(3600, 10), tranche(7200, 5), tranche(10800, 1)]
}

fn run(accounts: &[AccountInfo], now: i64) -> Result<Outcome, ProgramError> {
    process(&token_vesting::id(), accounts, &Params {}, Some(now))
}

fn amount(outcome: &Outcome) -> u64 {
    assert_eq!(outcome.transfer.data.len(), 9);
    assert_eq!(outcome.transfer.data[0], 3);
    u64::from_le_bytes(outcome.transfer.data[1..].try_into().unwrap())
}

fn after(outcome: &Outcome) -> VestingContract {
    VestingContract::from_buffer(&outcome.contract_data, Tag::VestingContract).unwrap()
}

#[test]
fn claim_before_the_first_tranche_releases_nothing() {
    let before = contract(0, three());
    let outcome = run(&accounts(&before), 3599).unwrap();
    assert_eq!(amount(&outcome), 0);
    assert_eq!(after(&outcome).current_schedule_index, 0);
    assert_eq!(after(&outcome), before);
    assert_eq!(outcome.contract_data, stored(&before));
}

#[test]
fn claim_pays_out_of_the_vault_on_the_signing_address() {
    let outcome = run(&accounts(&contract(0, three())), 3600).unwrap();
    assert_eq!(
        outcome.transfer,
        Instruction {
            program_id: token_vesting::token::id(),
            accounts: vec![
                AccountMeta { pubkey: VAULT, is_signer: false, is_writable: true },
                AccountMeta { pubkey: DESTINATION, is_signer: false, is_writable: true },
                AccountMeta { pubkey: signer().0, is_signer: true, is_writable: false },
            ],
            data: vec![3, 10, 0, 0, 0, 0, 0, 0, 0],
        }
    );
    assert_eq!(outcome.signer_seeds, vec![CONTRACT.0.to_vec(), vec![signer().1]]);
}

#[test]
fn claim_releases_what_has_matured() {
    let outcome = run(&accounts(&contract(0, three())), 7200).unwrap();
    assert_eq!(amount(&outcome), 15);
    assert_eq!(
        after(&outcome),
        contract(1 + 1, vec![tranche(3600, 0), tranche(7200, 0), tranche(10800, 1)])
    );
}

#[test]
fn claim_at_the_very_time_of_a_tranche_releases_it() {
    assert_eq!(amount(&run(&accounts(&contract(0, three())), 3600).unwrap()), 10);
    assert_eq!(amount(&run(&accounts(&contract(0, three())), 3599).unwrap()), 0);
    assert_eq!(amount(&run(&accounts(&contract(1, three())), 7199).unwrap()), 0);
    assert_eq!(amount(&run(&accounts(&contract(1, three())), 7200).unwrap()), 5);
}

#[test]
fn claim_sets_the_index_to_the_position_in_the_schedule() {
    let outcome = run(&accounts(&contract(1, three())), 7200).unwrap();
    assert_eq!(amount(&outcome), 5);
    assert_eq!(after(&outcome).current_schedule_index, 2);
}

#[test]
fn claim_after_the_last_tranche_releases_all_once() {
    let first = run(&accounts(&contract(0, three())), 10800).unwrap();
    assert_eq!(amount(&first), 16);
    assert_eq!(
        after(&first),
        contract(ALL_RELEASED, vec![tranche(3600, 0), tranche(7200, 0), tranche(10800, 0)])
    );
    let second = run(&accounts(&after(&first)), 10800).unwrap();
    assert_eq!(amount(&second), 0);
    assert_eq!(after(&second), after(&first));
    let much_later = run(&accounts(&after(&second)), i64::MAX).unwrap();
    assert_eq!(amount(&much_later), 0);
}

#[test]
fn claim_on_an_empty_schedule_releases_nothing() {
    let outcome = run(&accounts(&contract(0, vec![])), 100).unwrap();
    assert_eq!(amount(&outcome), 0);
    assert_eq!(after(&outcome).current_schedule_index, ALL_RELEASED);
}

#[test]
fn claim_with_an_index_past_the_schedule_releases_nothing() {
    let outcome = run(&accounts(&contract(3, three())), 20000).unwrap();
    assert_eq!(amount(&outcome), 0);
    assert_eq!(after(&outcome), contract(ALL_RELEASED, three()));
    let outcome = run(&accounts(&contract(17, three())), 20000).unwrap();
    assert_eq!(amount(&outcome), 0);
}

#[test]
fn claim_stops_at_the_first_locked_tranche() {
    let schedule = vec![tranche(10, 1), tranche(30, 2), tranche(20, 4)];
    let outcome = run(&accounts(&contract(0, schedule)), 25).unwrap();
    assert_eq!(amount(&outcome), 1);
    assert_eq!(after(&outcome).current_schedule_index, 1);
}

#[test]
fn claim_with_a_time_before_the_epoch_counts_it_as_unsigned() {
    let schedule = vec![tranche(10, 1), tranche(u64::MAX - 1, 2), tranche(u64::MAX, 4)];
    let outcome = run(&accounts(&contract(0, schedule)), -2).unwrap();
    assert_eq!(amount(&outcome), 3);
    assert_eq!(after(&outcome).current_schedule_index, 2);
}

#[test]
fn claim_without_a_clock_is_refused() {
    assert_eq!(
        process(&token_vesting::id(), &accounts(&contract(0, three())), &Params {}, None).err(),
        Some(ProgramError::UnsupportedSysvar)
    );
}

#[test]
fn claim_refuses_a_total_beyond_the_largest_amount() {
    let schedule = vec![tranche(1, u64::MAX), tranche(2, 1), tranche(3, 1)];
    assert_eq!(
        run(&accounts(&contract(0, schedule.clone())), 2).err(),
        Some(ProgramError::ArithmeticOverflow)
    );
    assert_eq!(amount(&run(&accounts(&contract(0, schedule.clone())), 1).unwrap()), u64::MAX);
    assert_eq!(amount(&run(&accounts(&contract(1, schedule)), 3).unwrap()), 2);
}

#[test]
fn claim_by_another_than_the_owner_is_refused() {
    let mut accounts = accounts(&contract(0, three()));
    accounts[5].key = Pubkey([99; 32]);
    assert_eq!(run(&accounts, 10800).err(), Some(ProgramError::InvalidArgument));
}

#[test]
fn claim_on_another_vault_is_refused() {
    let mut accounts = accounts(&contract(0, three()));
    accounts[3].key = Pubkey([99; 32]);
    assert_eq!(run(&accounts, 10800).err(), Some(ProgramError::InvalidArgument));
}

#[test]
fn claim_with_another_signing_address_is_refused() {
    let mut accounts = accounts(&contract(0, three()));
    accounts[2].key = Pubkey([99; 32]);
    assert_eq!(run(&accounts, 10800).err(), Some(ProgramError::InvalidArgument));
}

#[test]
fn claim_with_a_nonce_that_gives_no_address_is_refused() {
    let (_, nonce) = signer();
    let mut seen_invalid_seeds = false;
    for other in 0..=255u8 {
        if other == nonce {
            continue;
        }
        let mut stored_with_other = contract(0, three());
        stored_with_other.signer_nonce = other;
        match run(&accounts(&stored_with_other), 10800).err() {
            Some(ProgramError::InvalidArgument) => {}
            Some(ProgramError::InvalidSeeds) => seen_invalid_seeds = true,
            other => panic!("{:?}", other),
        }
    }
    assert!(seen_invalid_seeds);
}

#[test]
fn claim_needs_six_accounts() {
    let accounts = accounts(&contract(0, three()));
    for n in 0..6 {
        assert_eq!(run(&accounts[..n], 10800).err(), Some(ProgramError::NotEnoughAccountKeys));
    }
}

#[test]
fn claim_checks_the_accounts_in_order() {
    let mut all_wrong = accounts(&contract(0, three()));
    all_wrong[0].key = Pubkey([1; 32]);
    all_wrong[1].owner = Pubkey([1; 32]);
    all_wrong[3].owner = Pubkey([1; 32]);
    all_wrong[4].owner = Pubkey([1; 32]);
    all_wrong[5].is_signer = false;
    all_wrong[1].data[0] = 0;
    assert_eq!(run(&all_wrong, 0).err(), Some(ProgramError::InvalidArgument));
    all_wrong[0].key = token_vesting::token::id();
    assert_eq!(run(&all_wrong, 0).err(), Some(ProgramError::Custom(2)));
    all_wrong[1].owner = token_vesting::id();
    assert_eq!(run(&all_wrong, 0).err(), Some(ProgramError::Custom(2)));
    all_wrong[3].owner = token_vesting::token::id();
    assert_eq!(run(&all_wrong, 0).err(), Some(ProgramError::Custom(2)));
    all_wrong[4].owner = token_vesting::token::id();
    assert_eq!(run(&all_wrong, 0).err(), Some(ProgramError::MissingRequiredSignature));
    all_wrong[5].is_signer = true;
    assert_eq!(run(&all_wrong, 0).err(), Some(ProgramError::Custom(1)));
    all_wrong[1].data[0] = 1;
    assert!(run(&all_wrong, 0).is_ok());
}

#[test]
fn claim_on_data_that_is_no_contract_is_refused() {
    let mut accounts = accounts(&contract(0, three()));
    accounts[1].data.pop();
    assert_eq!(run(&accounts, 0).err(), Some(ProgramError::Custom(5)));
    accounts[1].data = vec![0; 136];
    assert_eq!(run(&accounts, 0).err(), Some(ProgramError::Custom(1)));
    accounts[1].data = vec![];
    assert_eq!(run(&accounts, 0).err(), Some(ProgramError::Custom(1)));
}

#[test]
fn claim_changes_nothing_itself() {
    let accounts = accounts(&contract(0, three()));
    let before = accounts.clone();
    run(&accounts, 10800).unwrap();
    assert_eq!(accounts, before);
}

#[test]
fn claim_parse_names_the_accounts() {
    let accounts = accounts(&contract(0, three()));
    let parsed = Accounts::parse(&accounts, &token_vesting::id()).ok().unwrap();
    assert_eq!(parsed.spl_token_program.key, token_vesting::token::id());
    assert_eq!(parsed.vesting_contract.key, CONTRACT);
    assert_eq!(parsed.vesting_contract_signer.key, signer().0);
    assert_eq!(parsed.vault.key, VAULT);
    assert_eq!(parsed.destination_token_account.key, DESTINATION);
    assert_eq!(parsed.owner.key, OWNER);
}

#[test]
fn authorize_checks_owner_then_vault_then_signing_address() {
    let contract = contract(0, three());
    let signer = Pubkey([1; 32]);
    let other = Pubkey([2; 32]);
    assert_eq!(authorize(&contract, &OWNER, &VAULT, &signer, Ok(signer)), Ok(()));
    assert_eq!(
        authorize(&contract, &other, &VAULT, &signer, Ok(signer)),
        Err(ProgramError::InvalidArgument)
    );
    assert_eq!(
        authorize(&contract, &OWNER, &other, &signer, Ok(signer)),
        Err(ProgramError::InvalidArgument)
    );
    assert_eq!(
        authorize(&contract, &OWNER, &VAULT, &signer, Ok(other)),
        Err(ProgramError::InvalidArgument)
    );
    assert_eq!(
        authorize(&contract, &OWNER, &VAULT, &signer, Err(ProgramError::InvalidSeeds)),
        Err(ProgramError::InvalidSeeds)
    );
    assert_eq!(
        authorize(&contract, &other, &VAULT, &signer, Err(ProgramError::InvalidSeeds)),
        Err(ProgramError::InvalidArgument)
    );
}

#[test]
fn release_empties_the_tranches_and_moves_the_index() {
    let mut contract = contract(0, three());
    assert_eq!(release(&mut contract, 3600), Ok(10));
    assert_eq!(contract.current_schedule_index, 1);
    assert_eq!(contract.schedule, vec![tranche(3600, 0), tranche(7200, 5), tranche(10800, 1)]);
    assert_eq!(release(&mut contract, 3600), Ok(0));
    assert_eq!(contract.current_schedule_index, 1);
    assert_eq!(release(&mut contract, 1), Ok(0));
    assert_eq!(contract.current_schedule_index, 1);
    assert_eq!(release(&mut contract, u64::MAX), Ok(6));
    assert_eq!(contract.current_schedule_index, ALL_RELEASED);
    assert_eq!(contract.schedule, vec![tranche(3600, 0), tranche(7200, 0), tranche(10800, 0)]);
    assert_eq!(release(&mut contract, u64::MAX), Ok(0));
    assert_eq!(contract.current_schedule_index, ALL_RELEASED);
    assert_eq!(contract.owner, OWNER);
    assert_eq!(contract.vault, VAULT);
}

#[test]
fn release_that_overflows_leaves_the_contract() {
    let schedule = vec![tranche(1, u64::MAX), tranche(2, 1)];
    let mut overflowing = contract(0, schedule.clone());
    assert_eq!(release(&mut overflowing, 2), Err(ProgramError::ArithmeticOverflow));
    assert_eq!(overflowing, contract(0, schedule));
}

#[test]
fn claims_never_release_more_than_the_schedule_holds() {
    let schedule = vec![tranche(5, 1), tranche(5, 2), tranche(9, 4), tranche(12, 8)];
    let times = [0u64, 5, 4, 9, 9, 100, 3, 100];
    let mut contract = contract(0, schedule.clone());
    let mut released = 0u64;
    let mut latest = 0u64;
    for now in times {
        released += release(&mut contract, now).unwrap();
        latest = latest.max(now);
        let matured: u64 =
            schedule.iter().filter(|s| s.unlock_timestamp <= latest).map(|s| s.quantity).sum();
        assert_eq!(released, matured);
        assert!(released <= 15);
    }
    assert_eq!(released, 15);
}

#[test]
fn the_clock_counts_times_before_the_epoch_from_the_top() {
    assert_eq!(current_timestamp(0), 0);
    assert_eq!(current_timestamp(1_700_000_000), 1_700_000_000);
    assert_eq!(current_timestamp(i64::MAX), 0x7fff_ffff_ffff_ffff);
    assert_eq!(current_timestamp(-1), u64::MAX);
    assert_eq!(current_timestamp(-2), u64::MAX - 1);
    assert_eq!(current_timestamp(i64::MIN), 0x8000_0000_0000_0000);
    for t in [0i64, 5, -1, -77, i64::MIN, i64::MAX] {
        assert_eq!(current_timestamp(t), t as u64);
    }
}
