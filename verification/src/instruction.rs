//! The instructions of the program and the instructions that it hands to the host.
//!
//! The data of an instruction of the program starts with one byte that tells the
//! instruction: 0 creates a contract, 1 claims. The parameters follow at once. A claim has
//! none. A creation has the nonce in one byte, the number of tranches in four bytes, and
//! then sixteen bytes for each tranche: its timestamp and its quantity. All integers are
//! little-endian. Nothing may follow the parameters.

pub use crate::processor::claim;
pub use crate::processor::create;
use crate::pubkey::Pubkey;
use crate::state::vesting_contract::{append_bytes, VestingSchedule};
use vstd::prelude::*;

verus! {

/// An account that an instruction names, and how the instruction uses it.
#[derive(Clone, Copy, Debug, PartialEq, Eq)]
pub struct AccountMeta {
    /// The account's address.
    pub pubkey: Pubkey,
    /// Whether the account has to sign the transaction.
    pub is_signer: bool,
    /// Whether the instruction may change the account.
    pub is_writable: bool,
}

/// An instruction for a program of the host.
#[derive(Clone, Debug, PartialEq, Eq)]
pub struct Instruction {
    /// The program that executes the instruction.
    pub program_id: Pubkey,
    /// The accounts that the instruction names, in the order in which the program expects
    /// them.
    pub accounts: Vec<AccountMeta>,
    /// The data that the program reads.
    pub data: Vec<u8>,
}

/// An instruction as a mathematical value.
pub struct InstructionView {
    pub program_id: Pubkey,
    pub accounts: Seq<AccountMeta>,
    pub data: Seq<u8>,
}

impl View for Instruction {
    type V = InstructionView;

    open spec fn view(&self) -> InstructionView {
        InstructionView { program_id: self.program_id, accounts: self.accounts@, data: self.data@ }
    }
}

/// The instructions of the program, by the first byte of an instruction's data.
#[derive(Clone, Copy, Debug, PartialEq, Eq, Structural)]
pub enum ProgramInstruction {
    /// Creates a vesting contract and moves the tokens of its schedule into the vault.
    ///
    /// | Index | Writable | Signer | Description                                  |
    /// |-------|----------|--------|----------------------------------------------|
    /// | 0     | no       | no     | The token program                            |
    /// | 1     | yes      | no     | The account that will hold the contract      |
    /// | 2     | yes      | no     | The contract's vault                         |
    /// | 3     | yes      | no     | The token account that the tokens come from  |
    /// | 4     | no       | yes    | The owner of that token account              |
    /// | 5     | no       | no     | The receiver of the vested tokens            |
    Create,
    /// Releases the tranches of a contract that have matured.
    ///
    /// | Index | Writable | Signer | Description                                  |
    /// |-------|----------|--------|----------------------------------------------|
    /// | 0     | no       | no     | The token program                            |
    /// | 1     | yes      | no     | The account that holds the contract          |
    /// | 2     | no       | no     | The address that signs for the vault         |
    /// | 3     | yes      | no     | The contract's vault                         |
    /// | 4     | yes      | no     | The token account that receives the tokens   |
    /// | 5     | no       | yes    | The owner of the contract                    |
    Claim,
}

impl ProgramInstruction {
    /// The byte that stands for the instruction.
    pub open spec fn spec_code(self) -> u8 {
        match self {
            ProgramInstruction::Create => 0,
            ProgramInstruction::Claim => 1,
        }
    }

    /// The byte that stands for the instruction.
    #[verifier::when_used_as_spec(spec_code)]
    pub fn code(self) -> (code: u8)
        ensures
            code == self.spec_code(),
    {
        match self {
            ProgramInstruction::Create => 0,
            ProgramInstruction::Claim => 1,
        }
    }

    /// The instruction that `code` stands for, if it stands for one.
    pub fn from_u8(code: u8) -> (instruction: Option<ProgramInstruction>)
        ensures
            match instruction {
                Some(i) => i.spec_code() == code,
                None => code > 1,
            },
    {
        match code {
            0 => Some(ProgramInstruction::Create),
            1 => Some(ProgramInstruction::Claim),
            _ => None,
        }
    }
}

/// The data of the instruction that creates a contract: the instruction's byte, then the
/// bytes of the parameters.
pub open spec fn create_data(signer_nonce: u8, schedule: Seq<VestingSchedule>) -> Seq<u8> {
    seq![ProgramInstruction::Create.spec_code()] + create::params_bytes(signer_nonce, schedule)
}

/// The data of the instruction that claims: the instruction's byte alone.
pub open spec fn claim_data() -> Seq<u8> {
    seq![ProgramInstruction::Claim.spec_code()]
}

/// The instruction that creates a vesting contract with the given accounts and
/// parameters. The schedule has to be short enough for its length to fit four bytes.
pub fn create(accounts: create::Accounts<Pubkey>, params: create::Params) -> (instruction:
    Instruction)
    requires
        params.schedule@.len() <= u32::MAX,
    ensures
        instruction@ == (InstructionView {
            program_id: crate::spec_id(),
            accounts: create::account_metas(
                *accounts.spl_token_program,
                *accounts.vesting_contract,
                *accounts.vault,
                *accounts.source_tokens,
                *accounts.source_tokens_owner,
                *accounts.recipient,
            ),
            data: create_data(params.signer_nonce, params.schedule@),
        }),
{
    let mut data: Vec<u8> = Vec::new();
    data.push(ProgramInstruction::Create.code());
    let bytes = params.to_bytes();
    append_bytes(&mut data, bytes.as_slice());
    Instruction { program_id: crate::id(), accounts: accounts.get_accounts_vec(), data }
}

/// The instruction that claims the matured tokens of a vesting contract.
pub fn claim(accounts: claim::Accounts<Pubkey>, params: claim::Params) -> (instruction:
    Instruction)
    ensures
        instruction@ == (InstructionView {
            program_id: crate::spec_id(),
            accounts: claim::account_metas(
                *accounts.spl_token_program,
                *accounts.vesting_contract,
                *accounts.vesting_contract_signer,
                *accounts.vault,
                *accounts.destination_token_account,
                *accounts.owner,
            ),
            data: claim_data(),
        }),
{
    let mut data: Vec<u8> = Vec::new();
    data.push(ProgramInstruction::Claim.code());
    Instruction { program_id: crate::id(), accounts: accounts.get_accounts_vec(), data }
}

} // verus!
