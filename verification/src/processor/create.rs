//! Creates a vesting contract: checks the accounts and the schedule, asks for the
//! transfer of the schedule's total into the vault, and writes the contract.

use crate::account::{
    check_account_key,
    check_account_owner,
    check_signer,
    wrong_owner,
    AccountInfo,
};
use crate::error::{ProgramError, TokenVestingError};
use crate::instruction::AccountMeta;
use crate::processor::{Outcome, OutcomeView};
use crate::pubkey::{create_program_address, lemma_pubkey_len, program_address, Pubkey};
use crate::state::vesting_contract::{
    allocation_size,
    append_bytes,
    append_schedules,
    contract_bytes,
    has_tag,
    is_sorted,
    lemma_contract_bytes_decode,
    lemma_quantity_sum_grows,
    lemma_schedules_bytes_read_back,
    load_result,
    quantity_sum,
    read_schedules,
    schedules_at,
    schedules_bytes,
    total_quantity,
    ContractView,
    VestingContract,
    VestingSchedule,
};
use crate::state::Tag;
use crate::token::{
    transfer,
    transfer_instruction,
    unpack_account,
    unpacked_account,
    AccountState,
    TokenAccount,
};
use vstd::bytes::{
    lemma_auto_spec_u32_to_from_le_bytes,
    lemma_auto_spec_u64_to_from_le_bytes,
    spec_u32_from_le_bytes,
    spec_u32_to_le_bytes,
    u32_from_le_bytes,
    u32_to_le_bytes,
};
use vstd::prelude::*;
use vstd::slice::{slice_subrange, slice_to_vec};

verus! {

/// The parameters of the instruction.
#[derive(Debug, PartialEq, Eq)]
pub struct Params {
    /// The nonce that, with the contract's address, gives the address that owns the vault.
    pub signer_nonce: u8,
    /// The tranches, by non-decreasing timestamp.
    pub schedule: Vec<VestingSchedule>,
}

/// The bytes that stand for the parameters in an instruction's data: the nonce, the number
/// of tranches in four bytes, and the tranches, sixteen bytes each.
pub open spec fn params_bytes(signer_nonce: u8, schedule: Seq<VestingSchedule>) -> Seq<u8> {
    seq![signer_nonce] + spec_u32_to_le_bytes(schedule.len() as u32) + schedules_bytes(schedule)
}

/// The nonce and the schedule that `data` stands for, if it is the bytes of some
/// parameters: nothing may be missing, and nothing may follow the last tranche.
pub open spec fn unpacked_params(data: Seq<u8>) -> Option<(u8, Seq<VestingSchedule>)> {
    if data.len() < 5 {
        None
    } else {
        let count = spec_u32_from_le_bytes(data.subrange(1, 5));
        if data.len() != 5 + 16 * count {
            None
        } else {
            Some((data[0], schedules_at(data, 5, count as nat)))
        }
    }
}

/// The bytes of some parameters stand for those parameters.
pub proof fn lemma_params_bytes_unpack(signer_nonce: u8, schedule: Seq<VestingSchedule>)
    requires
        schedule.len() <= u32::MAX,
    ensures
        unpacked_params(params_bytes(signer_nonce, schedule)) == Some((signer_nonce, schedule)),
{
    lemma_auto_spec_u32_to_from_le_bytes();
    let data = params_bytes(signer_nonce, schedule);
    let head = seq![signer_nonce] + spec_u32_to_le_bytes(schedule.len() as u32);
    lemma_schedules_bytes_read_back(head, schedule, Seq::empty());
    assert(data =~= head + schedules_bytes(schedule) + Seq::empty());
    assert(data.subrange(1, 5) == spec_u32_to_le_bytes(schedule.len() as u32));
}

impl Params {
    /// The bytes that stand for the parameters in an instruction's data.
    pub fn to_bytes(&self) -> (bytes: Vec<u8>)
        requires
            self.schedule@.len() <= u32::MAX,
        ensures
            bytes@ == params_bytes(self.signer_nonce, self.schedule@),
    {
        let mut bytes: Vec<u8> = Vec::new();
        bytes.push(self.signer_nonce);
        let count = u32_to_le_bytes(self.schedule.len() as u32);
        append_bytes(&mut bytes, count.as_slice());
        append_schedules(&mut bytes, self.schedule.as_slice());
        bytes
    }

    /// Reads the parameters from the bytes that follow the first byte of an instruction's
    /// data. Bytes that are too few or too many for the number of tranches they announce
    /// are refused.
    pub fn from_bytes(data: &[u8]) -> (result: Result<Params, ProgramError>)
        ensures
            match result {
                Ok(params) => unpacked_params(data@) == Some(
                    (params.signer_nonce, params.schedule@),
                ),
                Err(e) => e == ProgramError::InvalidInstructionData && unpacked_params(data@)
                    is None,
            },
    {
        let len = data.len();
        if len < 5 {
            return Err(ProgramError::InvalidInstructionData);
        }
        let count = u32_from_le_bytes(slice_subrange(data, 1, 5));
        if (len - 5) % 16 != 0 || ((len - 5) / 16) as u64 != count as u64 {
            return Err(ProgramError::InvalidInstructionData);
        }
        let schedule = read_schedules(data, 5, (len - 5) / 16);
        Ok(Params { signer_nonce: data[0], schedule })
    }
}

/// The accounts of the instruction, in the order in which the instruction names them.
pub struct Accounts<'a, T> {
    /// The token program.
    pub spl_token_program: &'a T,
    /// The account that will hold the contract.
    pub vesting_contract: &'a T,
    /// The contract's vault.
    pub vault: &'a T,
    /// The token account that the tokens come from.
    pub source_tokens: &'a T,
    /// The owner of the token account that the tokens come from.
    pub source_tokens_owner: &'a T,
    /// The receiver of the vested tokens.
    pub recipient: &'a T,
}

/// Why the accounts of an instruction are refused before any data is read, if they are.
pub open spec fn parse_failure(accounts: Seq<AccountInfo>, program_id: Pubkey) -> Option<
    ProgramError,
> {
    if accounts.len() < 6 {
        Some(ProgramError::NotEnoughAccountKeys)
    } else if accounts[0].key != crate::token::spec_id() {
        Some(ProgramError::InvalidArgument)
    } else if accounts[1].owner != program_id {
        Some(wrong_owner())
    } else if accounts[2].owner != crate::token::spec_id() {
        Some(wrong_owner())
    } else if !accounts[4].is_signer {
        Some(ProgramError::MissingRequiredSignature)
    } else {
        None
    }
}

/// How the instruction uses its accounts: it writes to the contract's account, to the
/// vault and to the token account that the tokens come from, and the owner of that token
/// account signs.
pub open spec fn account_metas(
    spl_token_program: Pubkey,
    vesting_contract: Pubkey,
    vault: Pubkey,
    source_tokens: Pubkey,
    source_tokens_owner: Pubkey,
    recipient: Pubkey,
) -> Seq<AccountMeta> {
    seq![
        AccountMeta { pubkey: spl_token_program, is_signer: false, is_writable: false },
        AccountMeta { pubkey: vesting_contract, is_signer: false, is_writable: true },
        AccountMeta { pubkey: vault, is_signer: false, is_writable: true },
        AccountMeta { pubkey: source_tokens, is_signer: false, is_writable: true },
        AccountMeta { pubkey: source_tokens_owner, is_signer: true, is_writable: false },
        AccountMeta { pubkey: recipient, is_signer: false, is_writable: false },
    ]
}

impl<'a> Accounts<'a, Pubkey> {
    /// The accounts as an instruction names them.
    pub fn get_accounts_vec(&self) -> (metas: Vec<AccountMeta>)
        ensures
            metas@ == account_metas(
                *self.spl_token_program,
                *self.vesting_contract,
                *self.vault,
                *self.source_tokens,
                *self.source_tokens_owner,
                *self.recipient,
            ),
    {
        let mut metas: Vec<AccountMeta> = Vec::new();
        metas.push(
            AccountMeta { pubkey: *self.spl_token_program, is_signer: false, is_writable: false },
        );
        metas.push(
            AccountMeta { pubkey: *self.vesting_contract, is_signer: false, is_writable: true },
        );
        metas.push(AccountMeta { pubkey: *self.vault, is_signer: false, is_writable: true });
        metas.push(AccountMeta { pubkey: *self.source_tokens, is_signer: false, is_writable: true });
        metas.push(
            AccountMeta { pubkey: *self.source_tokens_owner, is_signer: true, is_writable: false },
        );
        metas.push(AccountMeta { pubkey: *self.recipient, is_signer: false, is_writable: false });
        metas
    }
}

impl<'a> Accounts<'a, AccountInfo> {
    /// Takes the six accounts of the instruction and checks the token program's address,
    /// the owners of the contract's account and of the vault, and the signature of the
    /// tokens' owner, in that order.
    pub fn parse(accounts: &'a [AccountInfo], program_id: &Pubkey) -> (result: Result<
        Accounts<'a, AccountInfo>,
        ProgramError,
    >)
        ensures
            match result {
                Ok(parsed) => {
                    &&& parse_failure(accounts@, *program_id) is None
                    &&& *parsed.spl_token_program == accounts@[0]
                    &&& *parsed.vesting_contract == accounts@[1]
                    &&& *parsed.vault == accounts@[2]
                    &&& *parsed.source_tokens == accounts@[3]
                    &&& *parsed.source_tokens_owner == accounts@[4]
                    &&& *parsed.recipient == accounts@[5]
                },
                Err(e) => parse_failure(accounts@, *program_id) == Some(e),
            },
    {
        if accounts.len() < 6 {
            return Err(ProgramError::NotEnoughAccountKeys);
        }
        let parsed = Accounts {
            spl_token_program: &accounts[0],
            vesting_contract: &accounts[1],
            vault: &accounts[2],
            source_tokens: &accounts[3],
            source_tokens_owner: &accounts[4],
            recipient: &accounts[5],
        };
        let token_program = crate::token::id();
        check_account_key(parsed.spl_token_program, &token_program)?;
        check_account_owner(parsed.vesting_contract, program_id)?;
        check_account_owner(parsed.vault, &token_program)?;
        check_signer(parsed.source_tokens_owner)?;
        Ok(parsed)
    }
}

/// The error that a vault in the wrong state is refused with.
pub open spec fn invalid_vault() -> ProgramError {
    ProgramError::Custom(TokenVestingError::InvalidVaultAccount.spec_code())
}

/// Whether a token account can be the vault of a contract whose signing address is
/// `signer`: it is in use and empty, `signer` owns it, and nobody else can move its tokens
/// or close it.
pub open spec fn vault_is_valid(vault: TokenAccount, signer: Pubkey) -> bool {
    &&& vault.owner == signer
    &&& vault.amount == 0
    &&& vault.delegate is None
    &&& vault.state == AccountState::Initialized
    &&& vault.close_authority is None
}

/// What the check of a vault gives, from what the token program reads in the vault's data
/// and from what the host derives as the contract's signing address.
pub open spec fn vault_verdict(
    unpacked: Result<TokenAccount, ProgramError>,
    signer: Result<Pubkey, ProgramError>,
) -> Result<(), ProgramError> {
    match unpacked {
        Err(e) => Err(e),
        Ok(vault) => match signer {
            Err(e) => Err(e),
            Ok(signer) => if vault_is_valid(vault, signer) {
                Ok(())
            } else {
                Err(invalid_vault())
            },
        },
    }
}

/// Judges a vault from the token account read in its data and from the contract's signing
/// address. An error of the reading comes first, then one of the derivation.
pub fn validate_vault(
    unpacked: Result<TokenAccount, ProgramError>,
    signer: Result<Pubkey, ProgramError>,
) -> (result: Result<(), ProgramError>)
    ensures
        result == vault_verdict(unpacked, signer),
{
    let vault = unpacked?;
    let signer = signer?;
    let is_initialized = match vault.state {
        AccountState::Initialized => true,
        _ => false,
    };
    let is_valid = vault.owner == signer && vault.amount == 0 && vault.delegate.is_none()
        && is_initialized && vault.close_authority.is_none();
    if !is_valid {
        return Err(ProgramError::from(TokenVestingError::InvalidVaultAccount));
    }
    Ok(())
}

/// Checks that `vault` holds an empty token account that only the signing address of the
/// contract at `contract_key` controls.
pub fn check_vault_account(
    vault: &AccountInfo,
    program_id: &Pubkey,
    contract_key: Pubkey,
    signer_nonce: u8,
) -> (result: Result<(), ProgramError>)
    ensures
        result == vault_verdict(
            unpacked_account(vault.data@),
            program_address(contract_key@, signer_nonce, program_id@),
        ),
{
    let unpacked = unpack_account(vault.data.as_slice());
    let signer = create_program_address(&contract_key, signer_nonce, program_id);
    validate_vault(unpacked, signer)
}

/// What the check of a schedule gives: the total of its quantities, unless the timestamps
/// decrease somewhere or the total exceeds the largest amount.
pub open spec fn schedule_verdict(schedule: Seq<VestingSchedule>) -> Result<u64, ProgramError> {
    if !is_sorted(schedule) {
        Err(ProgramError::InvalidArgument)
    } else if total_quantity(schedule) > u64::MAX {
        Err(ProgramError::ArithmeticOverflow)
    } else {
        Ok(total_quantity(schedule) as u64)
    }
}

/// Checks that the timestamps of `schedule` never decrease, and then adds up its
/// quantities.
pub fn schedule_total(schedule: &[VestingSchedule]) -> (result: Result<u64, ProgramError>)
    ensures
        result == schedule_verdict(schedule@),
{
    let mut last_timestamp: u64 = 0;
    let mut i: usize = 0;
    while i < schedule.len()
        invariant
            i <= schedule@.len(),
            is_sorted(schedule@.subrange(0, i as int)),
            i == 0 ==> last_timestamp == 0,
            i > 0 ==> last_timestamp == schedule@[i - 1].unlock_timestamp,
        decreases schedule@.len() - i,
    {
        if schedule[i].unlock_timestamp < last_timestamp {
            assert(schedule@[i - 1].unlock_timestamp > schedule@[i as int].unlock_timestamp);
            return Err(ProgramError::InvalidArgument);
        }
        proof {
            let shorter = schedule@.subrange(0, i as int);
            let longer = schedule@.subrange(0, i + 1);
            assert forall|a: int, b: int|
                0 <= a <= b < longer.len() implies longer[a].unlock_timestamp
                <= longer[b].unlock_timestamp by {
                if b < i {
                    assert(shorter[a].unlock_timestamp <= shorter[b].unlock_timestamp);
                } else if a < i {
                    assert(shorter[a].unlock_timestamp <= shorter[i - 1].unlock_timestamp);
                }
            }
        }
        last_timestamp = schedule[i].unlock_timestamp;
        i += 1;
    }
    assert(schedule@.subrange(0, i as int) =~= schedule@);
    let mut total_amount: u64 = 0;
    let mut k: usize = 0;
    while k < schedule.len()
        invariant
            k <= schedule@.len(),
            is_sorted(schedule@),
            total_amount == quantity_sum(schedule@, 0, k as int),
        decreases schedule@.len() - k,
    {
        match total_amount.checked_add(schedule[k].quantity) {
            Some(sum) => {
                total_amount = sum;
            },
            None => {
                proof {
                    lemma_quantity_sum_grows(schedule@, 0, k + 1, schedule@.len() as int);
                }
                return Err(ProgramError::ArithmeticOverflow);
            },
        }
        k += 1;
    }
    Ok(total_amount)
}

/// The contract that the instruction writes.
pub open spec fn created_contract(
    accounts: Seq<AccountInfo>,
    signer_nonce: u8,
    schedule: Seq<VestingSchedule>,
) -> ContractView {
    ContractView {
        owner: accounts[5].key@,
        vault: accounts[2].key@,
        current_schedule_index: 0,
        signer_nonce,
        schedule,
    }
}

/// What the instruction gives. The checks come in this order: the accounts; the size of
/// the contract's account; the vault; the order of the schedule; its total; the tag of
/// the contract's account.
pub open spec fn process_result(
    program_id: Pubkey,
    accounts: Seq<AccountInfo>,
    signer_nonce: u8,
    schedule: Seq<VestingSchedule>,
) -> Result<OutcomeView, ProgramError> {
    if let Some(e) = parse_failure(accounts, program_id) {
        Err(e)
    } else if accounts[1].data@.len() != allocation_size(schedule.len()) {
        Err(ProgramError::InvalidArgument)
    } else if let Err(e) = vault_verdict(
        unpacked_account(accounts[2].data@),
        program_address(accounts[1].key@, signer_nonce, program_id@),
    ) {
        Err(e)
    } else if let Err(e) = schedule_verdict(schedule) {
        Err(e)
    } else if !has_tag(accounts[1].data@, Tag::Uninitialized) {
        Err(ProgramError::Custom(TokenVestingError::DataTypeMismatch.spec_code()))
    } else {
        Ok(
            OutcomeView {
                transfer: transfer_instruction(
                    accounts[3].key,
                    accounts[2].key,
                    accounts[4].key,
                    total_quantity(schedule) as u64,
                ),
                signer_seeds: Seq::empty(),
                contract_data: contract_bytes(
                    Tag::VestingContract,
                    created_contract(accounts, signer_nonce, schedule),
                ),
            },
        )
    }
}

/// Handles the instruction: accepts it, with the deposit that the host has to make and
/// the data of the new contract, or refuses it. Nothing is changed here: the host moves
/// the tokens and stores the data.
pub fn process(program_id: &Pubkey, accounts: &[AccountInfo], params: Params) -> (result: Result<
    Outcome,
    ProgramError,
>)
    ensures
        match result {
            Ok(outcome) => process_result(
                *program_id,
                accounts@,
                params.signer_nonce,
                params.schedule@,
            ) == Ok::<OutcomeView, ProgramError>(outcome@),
            Err(e) => process_result(*program_id, accounts@, params.signer_nonce, params.schedule@)
                == Err::<OutcomeView, ProgramError>(e),
        },
{
    let parsed = Accounts::parse(accounts, program_id)?;
    let Params { signer_nonce, schedule } = params;
    let number_of_schedules = schedule.len();
    let contract_size = parsed.vesting_contract.data.len();
    if number_of_schedules > (usize::MAX - 88) / 16 {
        return Err(ProgramError::InvalidArgument);
    }
    if contract_size != VestingContract::compute_allocation_size(number_of_schedules) {
        return Err(ProgramError::InvalidArgument);
    }
    check_vault_account(parsed.vault, program_id, parsed.vesting_contract.key, signer_nonce)?;
    let total_amount = schedule_total(schedule.as_slice())?;
    let mut contract_data = slice_to_vec(parsed.vesting_contract.data.as_slice());
    match VestingContract::initialize(contract_data.as_mut_slice()) {
        Ok(_) => {},
        Err(e) => {
            return Err(ProgramError::from(e));
        },
    }
    let vesting_contract = VestingContract {
        owner: parsed.recipient.key,
        vault: parsed.vault.key,
        current_schedule_index: 0,
        signer_nonce,
        schedule,
    };
    let token_program = crate::token::id();
    let instruction = transfer(
        &token_program,
        &parsed.source_tokens.key,
        &parsed.vault.key,
        &parsed.source_tokens_owner.key,
        total_amount,
    )?;
    proof {
        lemma_auto_spec_u64_to_from_le_bytes();
    }
    match vesting_contract.commit(contract_data.as_mut_slice()) {
        Ok(_) => {},
        Err(e) => {
            return Err(ProgramError::from(e));
        },
    }
    let outcome = Outcome { transfer: instruction, signer_seeds: Vec::new(), contract_data };
    proof {
        assert(outcome@.signer_seeds =~= Seq::empty());
        assert(vesting_contract@ == created_contract(
            accounts@,
            params.signer_nonce,
            params.schedule@,
        ));
        assert(outcome@.contract_data =~= contract_bytes(Tag::VestingContract, vesting_contract@));
    }
    Ok(outcome)
}

/// An accepted creation asks for the deposit of the schedule's whole total, out of the
/// token account that the tokens come from and into the vault, on the signature of that
/// account's owner; the vault held nothing before; and the data to store holds the
/// contract with its index at the first tranche.
pub proof fn accepted_creation_deposits_the_total(
    program_id: Pubkey,
    accounts: Seq<AccountInfo>,
    signer_nonce: u8,
    schedule: Seq<VestingSchedule>,
)
    requires
        process_result(program_id, accounts, signer_nonce, schedule) is Ok,
    ensures
        is_sorted(schedule),
        0 <= total_quantity(schedule) <= u64::MAX,
        process_result(program_id, accounts, signer_nonce, schedule)->Ok_0.transfer
            == transfer_instruction(
            accounts[3].key,
            accounts[2].key,
            accounts[4].key,
            total_quantity(schedule) as u64,
        ),
        unpacked_account(accounts[2].data@) is Ok,
        unpacked_account(accounts[2].data@)->Ok_0.amount == 0,
        load_result(
            process_result(program_id, accounts, signer_nonce, schedule)->Ok_0.contract_data,
            Tag::VestingContract,
        ) == Ok::<ContractView, TokenVestingError>(
            created_contract(accounts, signer_nonce, schedule),
        ),
{
    lemma_quantity_sum_grows(schedule, 0, 0, schedule.len() as int);
    lemma_pubkey_len(accounts[5].key);
    lemma_pubkey_len(accounts[2].key);
    lemma_contract_bytes_decode(
        Tag::VestingContract,
        created_contract(accounts, signer_nonce, schedule),
    );
}

/// A schedule whose timestamps decrease somewhere is never accepted, and it is refused
/// with `InvalidArgument` once the accounts, the size and the vault have passed.
pub proof fn unsorted_schedule_is_refused(
    program_id: Pubkey,
    accounts: Seq<AccountInfo>,
    signer_nonce: u8,
    schedule: Seq<VestingSchedule>,
)
    requires
        !is_sorted(schedule),
    ensures
        process_result(program_id, accounts, signer_nonce, schedule) is Err,
        parse_failure(accounts, program_id) is None && vault_verdict(
            unpacked_account(accounts[2].data@),
            program_address(accounts[1].key@, signer_nonce, program_id@),
        ) is Ok ==> process_result(program_id, accounts, signer_nonce, schedule) == Err::<
            OutcomeView,
            ProgramError,
        >(ProgramError::InvalidArgument),
{
}

/// A contract's account that is not of the size of a contract with the schedule's number
/// of tranches is never accepted, and it is refused with `InvalidArgument` once the
/// accounts have passed their checks.
pub proof fn wrong_size_is_refused(
    program_id: Pubkey,
    accounts: Seq<AccountInfo>,
    signer_nonce: u8,
    schedule: Seq<VestingSchedule>,
)
    requires
        accounts.len() >= 2,
        accounts[1].data@.len() != allocation_size(schedule.len()),
    ensures
        process_result(program_id, accounts, signer_nonce, schedule) is Err,
        parse_failure(accounts, program_id) is None ==> process_result(
            program_id,
            accounts,
            signer_nonce,
            schedule,
        ) == Err::<OutcomeView, ProgramError>(ProgramError::InvalidArgument),
{
}

/// A schedule whose total exceeds the largest amount is never accepted, and it is refused
/// with `ArithmeticOverflow` once everything else but the tag has passed.
pub proof fn overflowing_schedule_is_refused(
    program_id: Pubkey,
    accounts: Seq<AccountInfo>,
    signer_nonce: u8,
    schedule: Seq<VestingSchedule>,
)
    requires
        total_quantity(schedule) > u64::MAX,
    ensures
        process_result(program_id, accounts, signer_nonce, schedule) is Err,
        parse_failure(accounts, program_id) is None && accounts[1].data@.len() == allocation_size(
            schedule.len(),
        ) && vault_verdict(
            unpacked_account(accounts[2].data@),
            program_address(accounts[1].key@, signer_nonce, program_id@),
        ) is Ok && is_sorted(schedule) ==> process_result(
            program_id,
            accounts,
            signer_nonce,
            schedule,
        ) == Err::<OutcomeView, ProgramError>(ProgramError::ArithmeticOverflow),
{
}

} // verus!
