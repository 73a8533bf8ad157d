//! The handlers of the program's instructions.

use crate::account::AccountInfo;
use crate::error::ProgramError;
use crate::instruction::{
    claim_data,
    create_data,
    Instruction,
    InstructionView,
    ProgramInstruction,
};
use crate::pubkey::Pubkey;
use crate::state::vesting_contract::VestingSchedule;
use vstd::prelude::*;
use vstd::slice::slice_subrange;

pub mod claim;
pub mod create;

verus! {

/// What the host has to carry out for an instruction that the program has accepted: one
/// token transfer, and then the new data of the contract's account.
#[derive(Debug, PartialEq, Eq)]
pub struct Outcome {
    /// The transfer to invoke.
    pub transfer: Instruction,
    /// The seeds of the program address that signs the transfer. Empty where the signer
    /// of the transaction authorizes it.
    pub signer_seeds: Vec<Vec<u8>>,
    /// The data to store in the contract's account once the transfer has gone through.
    pub contract_data: Vec<u8>,
}

/// An outcome as a mathematical value.
pub struct OutcomeView {
    pub transfer: InstructionView,
    pub signer_seeds: Seq<Seq<u8>>,
    pub contract_data: Seq<u8>,
}

impl View for Outcome {
    type V = OutcomeView;

    open spec fn view(&self) -> OutcomeView {
        OutcomeView {
            transfer: self.transfer@,
            signer_seeds: Seq::new(self.signer_seeds@.len(), |i: int| self.signer_seeds@[i]@),
            contract_data: self.contract_data@,
        }
    }
}

/// The entry to the handlers.
pub struct Processor {}

/// What an instruction with the data `instruction_data` gives. The first byte tells the
/// instruction, the rest are its parameters: for a creation the nonce and the schedule,
/// for a claim nothing. Data that is empty, that starts with another byte, or whose
/// parameters are cut short or followed by more bytes, is refused.
pub open spec fn process_instruction_result(
    program_id: Pubkey,
    accounts: Seq<AccountInfo>,
    instruction_data: Seq<u8>,
    clock: Option<i64>,
) -> Result<OutcomeView, ProgramError> {
    if instruction_data.len() == 0 {
        Err(ProgramError::InvalidInstructionData)
    } else if instruction_data[0] == ProgramInstruction::Create.spec_code() {
        match create::unpacked_params(
            instruction_data.subrange(1, instruction_data.len() as int),
        ) {
            None => Err(ProgramError::InvalidInstructionData),
            Some((signer_nonce, schedule)) => create::process_result(
                program_id,
                accounts,
                signer_nonce,
                schedule,
            ),
        }
    } else if instruction_data[0] == ProgramInstruction::Claim.spec_code() {
        if instruction_data.len() != 1 {
            Err(ProgramError::InvalidInstructionData)
        } else {
            claim::process_result(program_id, accounts, clock)
        }
    } else {
        Err(ProgramError::InvalidInstructionData)
    }
}

impl Processor {
    /// Reads the instruction in `instruction_data` and hands it to its handler. `clock`
    /// is the time of the host's clock, which only a claim reads.
    pub fn process_instruction(
        program_id: &Pubkey,
        accounts: &[AccountInfo],
        instruction_data: &[u8],
        clock: Option<i64>,
    ) -> (result: Result<Outcome, ProgramError>)
        ensures
            match result {
                Ok(outcome) => process_instruction_result(
                    *program_id,
                    accounts@,
                    instruction_data@,
                    clock,
                ) == Ok::<OutcomeView, ProgramError>(outcome@),
                Err(e) => process_instruction_result(
                    *program_id,
                    accounts@,
                    instruction_data@,
                    clock,
                ) == Err::<OutcomeView, ProgramError>(e),
            },
    {
        if instruction_data.len() == 0 {
            return Err(ProgramError::InvalidInstructionData);
        }
        let instruction = match ProgramInstruction::from_u8(instruction_data[0]) {
            Some(instruction) => instruction,
            None => {
                return Err(ProgramError::InvalidInstructionData);
            },
        };
        let instruction_data = slice_subrange(instruction_data, 1, instruction_data.len());
        match instruction {
            ProgramInstruction::Create => {
                let params = create::Params::from_bytes(instruction_data)?;
                create::process(program_id, accounts, params)
            },
            ProgramInstruction::Claim => {
                if instruction_data.len() != 0 {
                    return Err(ProgramError::InvalidInstructionData);
                }
                let params = claim::Params {  };
                claim::process(program_id, accounts, &params, clock)
            },
        }
    }
}

/// The data that `instruction::create` builds for some parameters is read as a creation
/// with those parameters, and the data that `instruction::claim` builds as a claim.
pub proof fn built_instructions_are_read_back(
    program_id: Pubkey,
    accounts: Seq<AccountInfo>,
    signer_nonce: u8,
    schedule: Seq<VestingSchedule>,
    clock: Option<i64>,
)
    requires
        schedule.len() <= u32::MAX,
    ensures
        process_instruction_result(
            program_id,
            accounts,
            create_data(signer_nonce, schedule),
            clock,
        ) == create::process_result(program_id, accounts, signer_nonce, schedule),
        process_instruction_result(program_id, accounts, claim_data(), clock)
            == claim::process_result(program_id, accounts, clock),
{
    let data = create_data(signer_nonce, schedule);
    create::lemma_params_bytes_unpack(signer_nonce, schedule);
    assert(data.subrange(1, data.len() as int) =~= create::params_bytes(signer_nonce, schedule));
}

} // verus!
