//! Claims the tokens of a vesting contract that have matured: checks the accounts and the
//! claimant, releases every tranche whose time has come, and asks for one transfer of
//! their total out of the vault.

use crate::account::{
    check_account_key,
    check_account_owner,
    check_signer,
    wrong_owner,
    AccountInfo,
};
use crate::error::{ProgramError, TokenVestingError};
use crate::instruction::AccountMeta;
use crate::processor::{Outcome, OutcomeView};
use crate::pubkey::{
    create_program_address,
    lemma_pubkey_len,
    lemma_pubkey_view_injective,
    program_address,
    Pubkey,
};
use crate::state::vesting_contract::{
    contract_bytes,
    is_sorted,
    lemma_contract_bytes_decode,
    lemma_quantity_sum_grows,
    load_result,
    quantity_sum,
    total_quantity,
    ContractView,
    VestingContract,
    VestingSchedule,
    ALL_RELEASED,
};
use crate::state::Tag;
use crate::token::{transfer, transfer_instruction};
use vstd::bytes::lemma_auto_spec_u64_to_from_le_bytes;
use vstd::prelude::*;
use vstd::slice::slice_to_vec;

verus! {

/// The parameters of the instruction: there are none.
#[derive(Clone, Copy, Debug, PartialEq, Eq, Structural)]
pub struct Params {}

/// The accounts of the instruction, in the order in which the instruction names them.
pub struct Accounts<'a, T> {
    /// The token program.
    pub spl_token_program: &'a T,
    /// The account that holds the contract.
    pub vesting_contract: &'a T,
    /// The address that signs for the vault.
    pub vesting_contract_signer: &'a T,
    /// The contract's vault.
    pub vault: &'a T,
    /// The token account that receives the released tokens.
    pub destination_token_account: &'a T,
    /// The owner of the contract.
    pub owner: &'a T,
}

/// Why the accounts of an instruction are refused before any data is read, if they are.
pub open spec fn parse_failure(accounts: Seq<AccountInfo>, program_id: Pubkey) -> Option<
    ProgramError,
> {
    if accounts.len() < 6 {
        Some(ProgramError::NotEnoughAccountKeys)
    } else if accounts[0].key != crate::token::spec_id() {
        Some(ProgramError::InvalidArgument)
    } else if accounts[1].owner != program_id {
        Some(wrong_owner())
    } else if accounts[3].owner != crate::token::spec_id() {
        Some(wrong_owner())
    } else if accounts[4].owner != crate::token::spec_id() {
        Some(wrong_owner())
    } else if !accounts[5].is_signer {
        Some(ProgramError::MissingRequiredSignature)
    } else {
        None
    }
}

/// How the instruction uses its accounts: it writes to the contract's account, to the
/// vault and to the receiving token account, and the contract's owner signs.
pub open spec fn account_metas(
    spl_token_program: Pubkey,
    vesting_contract: Pubkey,
    vesting_contract_signer: Pubkey,
    vault: Pubkey,
    destination_token_account: Pubkey,
    owner: Pubkey,
) -> Seq<AccountMeta> {
    seq![
        AccountMeta { pubkey: spl_token_program, is_signer: false, is_writable: false },
        AccountMeta { pubkey: vesting_contract, is_signer: false, is_writable: true },
        AccountMeta { pubkey: vesting_contract_signer, is_signer: false, is_writable: false },
        AccountMeta { pubkey: vault, is_signer: false, is_writable: true },
        AccountMeta { pubkey: destination_token_account, is_signer: false, is_writable: true },
        AccountMeta { pubkey: owner, is_signer: true, is_writable: false },
    ]
}

impl<'a> Accounts<'a, Pubkey> {
    /// The accounts as an instruction names them.
    pub fn get_accounts_vec(&self) -> (metas: Vec<AccountMeta>)
        ensures
            metas@ == account_metas(
                *self.spl_token_program,
                *self.vesting_contract,
                *self.vesting_contract_signer,
                *self.vault,
                *self.destination_token_account,
                *self.owner,
            ),
    {
        let mut metas: Vec<AccountMeta> = Vec::new();
        metas.push(
            AccountMeta { pubkey: *self.spl_token_program, is_signer: false, is_writable: false },
        );
        metas.push(
            AccountMeta { pubkey: *self.vesting_contract, is_signer: false, is_writable: true },
        );
        metas.push(
            AccountMeta {
                pubkey: *self.vesting_contract_signer,
                is_signer: false,
                is_writable: false,
            },
        );
        metas.push(AccountMeta { pubkey: *self.vault, is_signer: false, is_writable: true });
        metas.push(
            AccountMeta {
                pubkey: *self.destination_token_account,
                is_signer: false,
                is_writable: true,
            },
        );
        metas.push(AccountMeta { pubkey: *self.owner, is_signer: true, is_writable: false });
        metas
    }
}

impl<'a> Accounts<'a, AccountInfo> {
    /// Takes the six accounts of the instruction and checks the token program's address,
    /// the owners of the contract's account, of the vault and of the receiving account,
    /// and the signature of the contract's owner, in that order.
    pub fn parse(accounts: &'a [AccountInfo], program_id: &Pubkey) -> (result: Result<
        Accounts<'a, AccountInfo>,
        ProgramError,
    >)
        ensures
            match result {
                Ok(parsed) => {
                    &&& parse_failure(accounts@, *program_id) is None
                    &&& *parsed.spl_token_program == accounts@[0]
                    &&& *parsed.vesting_contract == accounts@[1]
                    &&& *parsed.vesting_contract_signer == accounts@[2]
                    &&& *parsed.vault == accounts@[3]
                    &&& *parsed.destination_token_account == accounts@[4]
                    &&& *parsed.owner == accounts@[5]
                },
                Err(e) => parse_failure(accounts@, *program_id) == Some(e),
            },
    {
        if accounts.len() < 6 {
            return Err(ProgramError::NotEnoughAccountKeys);
        }
        let parsed = Accounts {
            spl_token_program: &accounts[0],
            vesting_contract: &accounts[1],
            vesting_contract_signer: &accounts[2],
            vault: &accounts[3],
            destination_token_account: &accounts[4],
            owner: &accounts[5],
        };
        let token_program = crate::token::id();
        check_account_key(parsed.spl_token_program, &token_program)?;
        check_account_owner(parsed.vesting_contract, program_id)?;
        check_account_owner(parsed.vault, &token_program)?;
        check_account_owner(parsed.destination_token_account, &token_program)?;
        check_signer(parsed.owner)?;
        Ok(parsed)
    }
}

/// Whether a claim on `contract` is in order: the claimant `owner` is the contract's
/// owner, `vault` is its vault, and `signer` is the address `derived` from the contract's
/// own address and nonce. An error of the derivation comes after the first two checks.
pub open spec fn authorization(
    contract: ContractView,
    owner: Pubkey,
    vault: Pubkey,
    signer: Pubkey,
    derived: Result<Pubkey, ProgramError>,
) -> Result<(), ProgramError> {
    if contract.owner != owner@ {
        Err(ProgramError::InvalidArgument)
    } else if contract.vault != vault@ {
        Err(ProgramError::InvalidArgument)
    } else {
        match derived {
            Err(e) => Err(e),
            Ok(key) => if key != signer {
                Err(ProgramError::InvalidArgument)
            } else {
                Ok(())
            },
        }
    }
}

/// Checks the claimant, the vault and the signing address of a claim against the
/// contract.
pub fn authorize(
    contract: &VestingContract,
    owner: &Pubkey,
    vault: &Pubkey,
    signer: &Pubkey,
    derived: Result<Pubkey, ProgramError>,
) -> (result: Result<(), ProgramError>)
    ensures
        result == authorization(contract@, *owner, *vault, *signer, derived),
{
    proof {
        lemma_pubkey_view_injective(contract.owner, *owner);
        lemma_pubkey_view_injective(contract.vault, *vault);
    }
    if contract.owner != *owner {
        return Err(ProgramError::InvalidArgument);
    }
    if contract.vault != *vault {
        return Err(ProgramError::InvalidArgument);
    }
    let contract_signer_key = derived?;
    if contract_signer_key != *signer {
        return Err(ProgramError::InvalidArgument);
    }
    Ok(())
}

/// The position of the first tranche, from `from` on, that is still locked at the time
/// `now`: the number of tranches if there is none.
pub open spec fn first_locked(schedule: Seq<VestingSchedule>, from: int, now: u64) -> int
    decreases schedule.len() - from,
{
    if from < 0 || from >= schedule.len() {
        schedule.len() as int
    } else if schedule[from].unlock_timestamp > now {
        from
    } else {
        first_locked(schedule, from + 1, now)
    }
}

/// The amount that a claim at the time `now` releases: the quantities of the tranches
/// from the contract's index up to the first one that is still locked.
pub open spec fn release_amount(contract: ContractView, now: u64) -> int {
    quantity_sum(
        contract.schedule,
        contract.current_schedule_index as int,
        first_locked(contract.schedule, contract.current_schedule_index as int, now),
    )
}

/// The contract after a claim at the time `now`: the released tranches hold nothing any
/// more, and the index stands at the first tranche that is still locked, or at
/// `ALL_RELEASED` if there is none.
pub open spec fn released(contract: ContractView, now: u64) -> ContractView {
    let start = contract.current_schedule_index as int;
    let end = first_locked(contract.schedule, start, now);
    ContractView {
        current_schedule_index: if end < contract.schedule.len() {
            end as u64
        } else {
            ALL_RELEASED
        },
        schedule: Seq::new(
            contract.schedule.len(),
            |i: int|
                if start <= i < end {
                    VestingSchedule {
                        unlock_timestamp: contract.schedule[i].unlock_timestamp,
                        quantity: 0,
                    }
                } else {
                    contract.schedule[i]
                },
        ),
        ..contract
    }
}

/// The first locked tranche from `from` on lies between `from` and the end; every
/// tranche before it, from `from` on, has matured, and it has not.
pub proof fn lemma_first_locked(schedule: Seq<VestingSchedule>, from: int, now: u64)
    requires
        0 <= from <= schedule.len(),
    ensures
        from <= first_locked(schedule, from, now) <= schedule.len(),
        forall|i: int|
            from <= i < first_locked(schedule, from, now) ==> schedule[i].unlock_timestamp <= now,
        first_locked(schedule, from, now) < schedule.len() ==> schedule[first_locked(
            schedule,
            from,
            now,
        )].unlock_timestamp > now,
    decreases schedule.len() - from,
{
    if from < schedule.len() && schedule[from].unlock_timestamp <= now {
        lemma_first_locked(schedule, from + 1, now);
    }
}

/// Releases the tranches of `contract` that have matured at the time `now`, and gives
/// their total. If the total exceeds the largest amount, the contract is left as it is.
pub fn release(contract: &mut VestingContract, now: u64) -> (result: Result<u64, ProgramError>)
    ensures
        match result {
            Ok(amount) => amount == release_amount(old(contract)@, now) && final(contract)@
                == released(old(contract)@, now),
            Err(e) => e == ProgramError::ArithmeticOverflow && release_amount(old(contract)@, now)
                > u64::MAX && *final(contract) == *old(contract),
        },
{
    let len = contract.schedule.len();
    let start: usize = if contract.current_schedule_index >= len as u64 {
        len
    } else {
        contract.current_schedule_index as usize
    };
    let mut total_amount_to_transfer: u64 = 0;
    let mut end: usize = start;
    proof {
        lemma_first_locked(contract.schedule@, start as int, now);
    }
    while end < len && contract.schedule[end].unlock_timestamp <= now
        invariant
            start <= end <= len,
            len == contract.schedule@.len(),
            *contract == *old(contract),
            start == if contract.current_schedule_index >= len {
                len as int
            } else {
                contract.current_schedule_index as int
            },
            total_amount_to_transfer == quantity_sum(contract.schedule@, start as int, end as int),
            first_locked(contract.schedule@, start as int, now) == first_locked(
                contract.schedule@,
                end as int,
                now,
            ),
        decreases len - end,
    {
        match total_amount_to_transfer.checked_add(contract.schedule[end].quantity) {
            Some(sum) => {
                total_amount_to_transfer = sum;
            },
            None => {
                proof {
                    lemma_first_locked(contract.schedule@, end + 1, now);
                    lemma_quantity_sum_grows(
                        contract.schedule@,
                        start as int,
                        end + 1,
                        first_locked(contract.schedule@, start as int, now),
                    );
                }
                return Err(ProgramError::ArithmeticOverflow);
            },
        }
        end += 1;
    }
    assert(end == first_locked(contract.schedule@, start as int, now));
    // The index is out of the schedule while the tranches are emptied, so that a claim
    // cut short leaves nothing that could be claimed a second time.
    contract.current_schedule_index = ALL_RELEASED;
    let mut i: usize = start;
    while i < end
        invariant
            start <= i <= end <= len,
            len == contract.schedule@.len(),
            len == old(contract).schedule@.len(),
            start == if old(contract).current_schedule_index >= len {
                len as int
            } else {
                old(contract).current_schedule_index as int
            },
            end == first_locked(old(contract).schedule@, start as int, now),
            total_amount_to_transfer == release_amount(old(contract)@, now),
            contract.current_schedule_index == ALL_RELEASED,
            contract.owner == old(contract).owner,
            contract.vault == old(contract).vault,
            contract.signer_nonce == old(contract).signer_nonce,
            forall|j: int|
                0 <= j < len ==> contract.schedule@[j] == if start <= j < i {
                    VestingSchedule {
                        unlock_timestamp: old(contract).schedule@[j].unlock_timestamp,
                        quantity: 0,
                    }
                } else {
                    old(contract).schedule@[j]
                },
        decreases end - i,
    {
        contract.schedule[i].quantity = 0;
        i += 1;
    }
    if end < len {
        contract.current_schedule_index = end as u64;
    }
    proof {
        let expected = released(old(contract)@, now);
        assert(first_locked(
            old(contract).schedule@,
            old(contract).current_schedule_index as int,
            now,
        ) == end);
        assert(contract.schedule@ =~= expected.schedule);
    }
    Ok(total_amount_to_transfer)
}

/// The time that the schedule's timestamps are held against, for the time
/// `unix_timestamp` of the host's clock: a time before 1970 counts as its two's
/// complement, later than any time after 1970.
pub open spec fn clock_time(unix_timestamp: i64) -> u64 {
    if unix_timestamp >= 0 {
        unix_timestamp as u64
    } else {
        (unix_timestamp + 0x1_0000_0000_0000_0000) as u64
    }
}

/// The time that the schedule's timestamps are held against, for the time
/// `unix_timestamp` of the host's clock.
pub fn current_timestamp(unix_timestamp: i64) -> (now: u64)
    ensures
        now == clock_time(unix_timestamp),
{
    if unix_timestamp >= 0 {
        unix_timestamp as u64
    } else {
        u64::MAX - (-(unix_timestamp + 1)) as u64
    }
}

/// What a claim on `contract` gives, once the accounts have passed their checks: the
/// authorization comes first, then the clock, then the total of the release.
pub open spec fn claim_result(
    contract: ContractView,
    accounts: Seq<AccountInfo>,
    derived: Result<Pubkey, ProgramError>,
    clock: Option<i64>,
) -> Result<OutcomeView, ProgramError> {
    if let Err(e) = authorization(
        contract,
        accounts[5].key,
        accounts[3].key,
        accounts[2].key,
        derived,
    ) {
        Err(e)
    } else if let Some(unix_timestamp) = clock {
        let now = clock_time(unix_timestamp);
        if release_amount(contract, now) > u64::MAX {
            Err(ProgramError::ArithmeticOverflow)
        } else {
            Ok(
                OutcomeView {
                    transfer: transfer_instruction(
                        accounts[3].key,
                        accounts[4].key,
                        accounts[2].key,
                        release_amount(contract, now) as u64,
                    ),
                    signer_seeds: seq![accounts[1].key@, seq![contract.signer_nonce]],
                    contract_data: contract_bytes(Tag::VestingContract, released(contract, now)),
                },
            )
        }
    } else {
        Err(ProgramError::UnsupportedSysvar)
    }
}

/// What the instruction gives. The checks come in this order: the accounts; the tag and
/// the size of the contract's data; the authorization; the clock; the total.
pub open spec fn process_result(
    program_id: Pubkey,
    accounts: Seq<AccountInfo>,
    clock: Option<i64>,
) -> Result<OutcomeView, ProgramError> {
    if let Some(e) = parse_failure(accounts, program_id) {
        Err(e)
    } else {
        match load_result(accounts[1].data@, Tag::VestingContract) {
            Err(e) => Err(ProgramError::Custom(e.spec_code())),
            Ok(contract) => claim_result(
                contract,
                accounts,
                program_address(accounts[1].key@, contract.signer_nonce, program_id@),
                clock,
            ),
        }
    }
}

/// Handles the instruction: accepts it, with the payment that the host has to make out
/// of the vault and the new data of the contract, or refuses it. `clock` is the time of
/// the host's clock in seconds, or nothing where the host has no clock. Nothing is
/// changed here: the host moves the tokens and stores the data.
pub fn process(
    program_id: &Pubkey,
    accounts: &[AccountInfo],
    _params: &Params,
    clock: Option<i64>,
) -> (result: Result<Outcome, ProgramError>)
    ensures
        match result {
            Ok(outcome) => process_result(*program_id, accounts@, clock) == Ok::<
                OutcomeView,
                ProgramError,
            >(outcome@),
            Err(e) => process_result(*program_id, accounts@, clock) == Err::<
                OutcomeView,
                ProgramError,
            >(e),
        },
{
    let parsed = Accounts::parse(accounts, program_id)?;
    let mut vesting_contract = match VestingContract::from_buffer(
        parsed.vesting_contract.data.as_slice(),
        Tag::VestingContract,
    ) {
        Ok(contract) => contract,
        Err(e) => {
            return Err(ProgramError::from(e));
        },
    };
    let derived = create_program_address(
        &parsed.vesting_contract.key,
        vesting_contract.signer_nonce,
        program_id,
    );
    authorize(
        &vesting_contract,
        &parsed.owner.key,
        &parsed.vault.key,
        &parsed.vesting_contract_signer.key,
        derived,
    )?;
    let now = match clock {
        Some(unix_timestamp) => current_timestamp(unix_timestamp),
        None => {
            return Err(ProgramError::UnsupportedSysvar);
        },
    };
    let total_amount_to_transfer = release(&mut vesting_contract, now)?;
    let token_program = crate::token::id();
    let instruction = transfer(
        &token_program,
        &parsed.vault.key,
        &parsed.destination_token_account.key,
        &parsed.vesting_contract_signer.key,
        total_amount_to_transfer,
    )?;
    let mut contract_data = slice_to_vec(parsed.vesting_contract.data.as_slice());
    proof {
        lemma_auto_spec_u64_to_from_le_bytes();
        let tag_bytes = contract_data@.subrange(0, 8);
        assert(vstd::bytes::spec_u64_to_le_bytes(vstd::bytes::spec_u64_from_le_bytes(tag_bytes))
            == tag_bytes);
    }
    match vesting_contract.commit(contract_data.as_mut_slice()) {
        Ok(_) => {},
        Err(e) => {
            return Err(ProgramError::from(e));
        },
    }
    let mut signer_seeds: Vec<Vec<u8>> = Vec::new();
    signer_seeds.push(slice_to_vec(parsed.vesting_contract.key.0.as_slice()));
    let mut nonce_seed: Vec<u8> = Vec::new();
    nonce_seed.push(vesting_contract.signer_nonce);
    signer_seeds.push(nonce_seed);
    let outcome = Outcome { transfer: instruction, signer_seeds, contract_data };
    proof {
        assert(outcome@.signer_seeds =~= seq![
            accounts@[1].key@,
            seq![vesting_contract.signer_nonce],
        ]);
    }
    Ok(outcome)
}

/// A claim before the first tranche has matured releases nothing and leaves the contract
/// as it is, with its index at the first tranche.
pub proof fn claim_before_first_maturity(contract: ContractView, now: u64)
    requires
        contract.current_schedule_index == 0,
        contract.schedule.len() > 0,
        forall|i: int|
            0 <= i < contract.schedule.len() ==> contract.schedule[i].unlock_timestamp > now,
    ensures
        release_amount(contract, now) == 0,
        released(contract, now).current_schedule_index == 0,
        released(contract, now) == contract,
{
    assert(released(contract, now).schedule =~= contract.schedule);
}

/// A claim after the last tranche has matured releases all that the contract still holds,
/// and whatever the time, the claim that follows it releases nothing.
pub proof fn claim_after_last_maturity(contract: ContractView, now: u64, later: u64)
    requires
        contract.schedule.len() <= u64::MAX,
        forall|i: int|
            0 <= i < contract.schedule.len() ==> contract.schedule[i].unlock_timestamp <= now,
    ensures
        release_amount(contract, now) == quantity_sum(
            contract.schedule,
            contract.current_schedule_index as int,
            contract.schedule.len() as int,
        ),
        released(contract, now).current_schedule_index == ALL_RELEASED,
        release_amount(released(contract, now), later) == 0,
{
    let start = contract.current_schedule_index as int;
    if start <= contract.schedule.len() {
        lemma_first_locked(contract.schedule, start, now);
    }
}

/// A claim never moves the index back, and it changes nothing of the schedule but the
/// quantities of the tranches that it releases, which it sets to zero.
pub proof fn claim_never_moves_the_index_back(contract: ContractView, now: u64)
    requires
        contract.schedule.len() <= u64::MAX,
    ensures
        released(contract, now).current_schedule_index >= contract.current_schedule_index,
        released(contract, now).schedule.len() == contract.schedule.len(),
        forall|i: int|
            0 <= i < contract.schedule.len() ==> {
                &&& (#[trigger] released(contract, now).schedule[i]).unlock_timestamp
                    == contract.schedule[i].unlock_timestamp
                &&& released(contract, now).schedule[i].quantity == contract.schedule[i].quantity
                    || released(contract, now).schedule[i].quantity == 0
            },
{
    let start = contract.current_schedule_index as int;
    if start <= contract.schedule.len() {
        lemma_first_locked(contract.schedule, start, now);
    }
}

/// The contract after claims at the times of `times`, one after the other.
pub open spec fn released_all(contract: ContractView, times: Seq<u64>) -> ContractView
    decreases times.len(),
{
    if times.len() == 0 {
        contract
    } else {
        released_all(released(contract, times[0]), times.drop_first())
    }
}

/// The sum of what claims at the times of `times`, one after the other, release.
pub open spec fn claimed_total(contract: ContractView, times: Seq<u64>) -> int
    decreases times.len(),
{
    if times.len() == 0 {
        0
    } else {
        release_amount(contract, times[0]) + claimed_total(
            released(contract, times[0]),
            times.drop_first(),
        )
    }
}

/// Whether the tranche had matured at one of the times of `times`.
pub open spec fn has_matured(tranche: VestingSchedule, times: Seq<u64>) -> bool {
    exists|k: int| 0 <= k < times.len() && tranche.unlock_timestamp <= #[trigger] times[k]
}

/// The sum of the quantities of the tranches before the position `to` that had matured at
/// one of the times of `times`.
pub open spec fn matured_sum(schedule: Seq<VestingSchedule>, times: Seq<u64>, to: int) -> int
    decreases to,
{
    if to <= 0 {
        0
    } else {
        matured_sum(schedule, times, to - 1) + if has_matured(schedule[to - 1], times) {
            schedule[to - 1].quantity as int
        } else {
            0
        }
    }
}

/// Whether `contract` is what claims leave of a contract that was created with the schedule `deposited`
/// once the tranches before `cursor` are released: the others are untouched, and the
/// index stands at `cursor`, or past the schedule when nothing is left.
pub open spec fn released_up_to(
    contract: ContractView,
    deposited: Seq<VestingSchedule>,
    cursor: int,
) -> bool {
    &&& 0 <= cursor <= deposited.len() <= u64::MAX
    &&& contract.schedule.len() == deposited.len()
    &&& forall|i: int|
        0 <= i < deposited.len() ==> contract.schedule[i].unlock_timestamp
            == deposited[i].unlock_timestamp
    &&& forall|i: int| cursor <= i < deposited.len() ==> contract.schedule[i] == deposited[i]
    &&& if cursor < deposited.len() {
        contract.current_schedule_index == cursor
    } else {
        contract.current_schedule_index >= deposited.len()
    }
}

/// The position that the index has reached after claims at the times of `times`, from
/// `cursor` on.
pub open spec fn cursor_after(deposited: Seq<VestingSchedule>, cursor: int, times: Seq<u64>) -> int
    decreases times.len(),
{
    if times.len() == 0 {
        cursor
    } else {
        cursor_after(deposited, first_locked(deposited, cursor, times[0]), times.drop_first())
    }
}

/// Two schedules with the same timestamps have their first locked tranche at the same
/// position.
proof fn lemma_first_locked_by_timestamps(
    a: Seq<VestingSchedule>,
    b: Seq<VestingSchedule>,
    from: int,
    now: u64,
)
    requires
        a.len() == b.len(),
        forall|i: int| 0 <= i < a.len() ==> a[i].unlock_timestamp == b[i].unlock_timestamp,
    ensures
        first_locked(a, from, now) == first_locked(b, from, now),
    decreases a.len() - from,
{
    if 0 <= from < a.len() && a[from].unlock_timestamp <= now {
        lemma_first_locked_by_timestamps(a, b, from + 1, now);
    }
}

/// Two schedules that agree on a range of positions have the same sum over it.
proof fn lemma_quantity_sum_by_range(
    a: Seq<VestingSchedule>,
    b: Seq<VestingSchedule>,
    from: int,
    to: int,
)
    requires
        forall|i: int| from <= i < to ==> a[i] == b[i],
    ensures
        quantity_sum(a, from, to) == quantity_sum(b, from, to),
    decreases to - from,
{
    if from < to {
        lemma_quantity_sum_by_range(a, b, from, to - 1);
    }
}

/// One claim moves the index from `cursor` to the first tranche that is still locked, and
/// releases the tranches in between as the schedule first had them.
proof fn lemma_release_step(
    contract: ContractView,
    deposited: Seq<VestingSchedule>,
    cursor: int,
    now: u64,
)
    requires
        released_up_to(contract, deposited, cursor),
    ensures
        cursor <= first_locked(deposited, cursor, now) <= deposited.len(),
        released_up_to(released(contract, now), deposited, first_locked(deposited, cursor, now)),
        release_amount(contract, now) == quantity_sum(
            deposited,
            cursor,
            first_locked(deposited, cursor, now),
        ),
{
    let next = first_locked(deposited, cursor, now);
    let start = contract.current_schedule_index as int;
    lemma_first_locked(deposited, cursor, now);
    lemma_first_locked_by_timestamps(contract.schedule, deposited, start, now);
    if cursor < deposited.len() {
        lemma_quantity_sum_by_range(contract.schedule, deposited, cursor, next);
    }
}

/// Claims at the times of `times` release the tranches from `cursor` up to the position
/// that the index reaches, and these are the tranches from `cursor` on that had matured
/// at one of the times.
proof fn lemma_claims_from(
    contract: ContractView,
    deposited: Seq<VestingSchedule>,
    cursor: int,
    times: Seq<u64>,
)
    requires
        released_up_to(contract, deposited, cursor),
        is_sorted(deposited),
    ensures
        cursor <= cursor_after(deposited, cursor, times) <= deposited.len(),
        released_up_to(
            released_all(contract, times),
            deposited,
            cursor_after(deposited, cursor, times),
        ),
        claimed_total(contract, times) == quantity_sum(
            deposited,
            cursor,
            cursor_after(deposited, cursor, times),
        ),
        forall|i: int|
            cursor <= i < deposited.len() ==> (i < cursor_after(deposited, cursor, times)
                <==> has_matured(deposited[i], times)),
    decreases times.len(),
{
    if times.len() > 0 {
        let now = times[0];
        let rest = times.drop_first();
        let next = first_locked(deposited, cursor, now);
        let end = cursor_after(deposited, cursor, times);
        lemma_release_step(contract, deposited, cursor, now);
        lemma_first_locked(deposited, cursor, now);
        lemma_claims_from(released(contract, now), deposited, next, rest);
        lemma_quantity_sum_grows(deposited, cursor, next, end);
        assert forall|i: int| cursor <= i < deposited.len() implies (i < end <==> has_matured(
            deposited[i],
            times,
        )) by {
            if i < next {
                assert(deposited[i].unlock_timestamp <= times[0]);
            } else {
                assert(deposited[next].unlock_timestamp <= deposited[i].unlock_timestamp);
                if has_matured(deposited[i], times) {
                    let k = choose|k: int|
                        0 <= k < times.len() && deposited[i].unlock_timestamp <= #[trigger] times[k];
                    assert(k > 0);
                    assert(deposited[i].unlock_timestamp <= rest[k - 1]);
                }
                if has_matured(deposited[i], rest) {
                    let k = choose|k: int|
                        0 <= k < rest.len() && deposited[i].unlock_timestamp <= #[trigger] rest[k];
                    assert(deposited[i].unlock_timestamp <= times[k + 1]);
                }
            }
        }
    }
}

/// Where the tranches that had matured are those before the position `end`, their sum is
/// the sum of the tranches before `end`.
proof fn lemma_matured_sum(schedule: Seq<VestingSchedule>, times: Seq<u64>, end: int, to: int)
    requires
        0 <= end <= schedule.len(),
        0 <= to <= schedule.len(),
        forall|i: int| 0 <= i < schedule.len() ==> (i < end <==> has_matured(schedule[i], times)),
    ensures
        matured_sum(schedule, times, to) == quantity_sum(
            schedule,
            0,
            if to <= end {
                to
            } else {
                end
            },
        ),
    decreases to,
{
    if to > 0 {
        lemma_matured_sum(schedule, times, end, to - 1);
    }
}

/// Whatever the times at which claims are made on a contract that starts at its first
/// tranche with a schedule in order, what they release in all is the sum of the tranches
/// that had matured at one of those times, no more than the schedule's total; and the
/// claim that follows them releases no more than that total either.
pub proof fn claims_release_what_has_matured(contract: ContractView, times: Seq<u64>, now: u64)
    requires
        contract.current_schedule_index == 0,
        contract.schedule.len() <= u64::MAX,
        is_sorted(contract.schedule),
    ensures
        claimed_total(contract, times) == matured_sum(
            contract.schedule,
            times,
            contract.schedule.len() as int,
        ),
        0 <= claimed_total(contract, times) <= total_quantity(contract.schedule),
        0 <= release_amount(released_all(contract, times), now) <= total_quantity(
            contract.schedule,
        ),
{
    let deposited = contract.schedule;
    let end = cursor_after(deposited, 0, times);
    let len = deposited.len() as int;
    lemma_claims_from(contract, deposited, 0, times);
    lemma_matured_sum(deposited, times, end, len);
    lemma_quantity_sum_grows(deposited, 0, end, len);
    let after = released_all(contract, times);
    let next = first_locked(deposited, end, now);
    lemma_release_step(after, deposited, end, now);
    lemma_quantity_sum_grows(deposited, end, next, len);
    lemma_quantity_sum_grows(deposited, end, next, next);
}

/// A claim by anyone but the contract's owner is refused with `InvalidArgument`, once the
/// accounts have passed their checks.
pub proof fn claim_by_another_is_refused(
    program_id: Pubkey,
    accounts: Seq<AccountInfo>,
    clock: Option<i64>,
)
    requires
        accounts.len() >= 6,
        load_result(accounts[1].data@, Tag::VestingContract) is Ok,
        load_result(accounts[1].data@, Tag::VestingContract)->Ok_0.owner != accounts[5].key@,
    ensures
        process_result(program_id, accounts, clock) is Err,
        parse_failure(accounts, program_id) is None ==> process_result(program_id, accounts, clock)
            == Err::<OutcomeView, ProgramError>(ProgramError::InvalidArgument),
{
}

/// A claim on a vault that is not the contract's is refused with `InvalidArgument`, once
/// the accounts have passed their checks.
pub proof fn claim_on_another_vault_is_refused(
    program_id: Pubkey,
    accounts: Seq<AccountInfo>,
    clock: Option<i64>,
)
    requires
        accounts.len() >= 6,
        load_result(accounts[1].data@, Tag::VestingContract) is Ok,
        load_result(accounts[1].data@, Tag::VestingContract)->Ok_0.vault != accounts[3].key@,
    ensures
        process_result(program_id, accounts, clock) is Err,
        parse_failure(accounts, program_id) is None ==> process_result(program_id, accounts, clock)
            == Err::<OutcomeView, ProgramError>(ProgramError::InvalidArgument),
{
}

/// An accepted claim asks for the payment of what the claim releases, out of the vault
/// and into the receiving account, on the signature of the contract's signing address;
/// and the data to store holds the contract as the claim leaves it.
pub proof fn accepted_claim_pays_the_release(
    program_id: Pubkey,
    accounts: Seq<AccountInfo>,
    unix_timestamp: i64,
)
    requires
        process_result(program_id, accounts, Some(unix_timestamp)) is Ok,
    ensures
        load_result(accounts[1].data@, Tag::VestingContract) is Ok,
        ({
            let contract = load_result(accounts[1].data@, Tag::VestingContract)->Ok_0;
            let outcome = process_result(program_id, accounts, Some(unix_timestamp))->Ok_0;
            let now = clock_time(unix_timestamp);
            &&& 0 <= release_amount(contract, now) <= u64::MAX
            &&& outcome.transfer == transfer_instruction(
                accounts[3].key,
                accounts[4].key,
                accounts[2].key,
                release_amount(contract, now) as u64,
            )
            &&& load_result(outcome.contract_data, Tag::VestingContract) == Ok::<
                ContractView,
                TokenVestingError,
            >(released(contract, now))
        }),
{
    let contract = load_result(accounts[1].data@, Tag::VestingContract)->Ok_0;
    let now = clock_time(unix_timestamp);
    let start = contract.current_schedule_index as int;
    lemma_quantity_sum_grows(
        contract.schedule,
        start,
        start,
        if first_locked(contract.schedule, start, now) >= start {
            first_locked(contract.schedule, start, now)
        } else {
            start
        },
    );
    lemma_contract_bytes_decode(Tag::VestingContract, released(contract, now));
}

} // verus!
