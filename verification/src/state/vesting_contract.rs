//! The vesting contract and its layout in an account's data.
//!
//! All integers are little-endian. A contract with `n` tranches takes `88 + 16 * n` bytes:
//!
//! | bytes      | field                                              |
//! |------------|----------------------------------------------------|
//! | `0..8`     | the tag of the data                                |
//! | `8..40`    | `owner`                                            |
//! | `40..72`   | `vault`                                            |
//! | `72..80`   | `current_schedule_index`                           |
//! | `80`       | `signer_nonce`                                     |
//! | `81..88`   | padding, written as zeros and not read             |
//! | `88..`     | the tranches in order: timestamp, then quantity    |

use crate::error::TokenVestingError;
use crate::pubkey::{lemma_pubkey_len, Pubkey};
use crate::state::Tag;
use vstd::bytes::{
    lemma_auto_spec_u64_to_from_le_bytes,
    spec_u64_from_le_bytes,
    spec_u64_to_le_bytes,
    u64_from_le_bytes,
    u64_to_le_bytes,
};
use vstd::prelude::*;
use vstd::slice::slice_subrange;

verus! {

/// The value of `current_schedule_index` once every tranche has been released.
pub const ALL_RELEASED: u64 = u64::MAX;

/// One tranche of a vesting schedule.
#[derive(Clone, Copy, Debug, PartialEq, Eq, Structural)]
pub struct VestingSchedule {
    /// The earliest time of the release, in seconds since the Unix epoch.
    pub unlock_timestamp: u64,
    /// The amount of tokens that the tranche releases.
    pub quantity: u64,
}

/// A vesting contract: tokens in a vault, released to an owner tranche by tranche.
#[derive(Debug, PartialEq, Eq)]
pub struct VestingContract {
    /// The receiver of the released tokens.
    pub owner: Pubkey,
    /// The token account that holds the tokens until their release.
    pub vault: Pubkey,
    /// The position of the first tranche that has not been released yet.
    pub current_schedule_index: u64,
    /// The nonce that, with the contract's address, gives the address that signs for the
    /// vault.
    pub signer_nonce: u8,
    /// The tranches, by non-decreasing timestamp.
    pub schedule: Vec<VestingSchedule>,
}

/// A vesting contract as a mathematical value: the addresses by their bytes, the schedule
/// as a sequence.
pub struct ContractView {
    pub owner: Seq<u8>,
    pub vault: Seq<u8>,
    pub current_schedule_index: u64,
    pub signer_nonce: u8,
    pub schedule: Seq<VestingSchedule>,
}

impl View for VestingContract {
    type V = ContractView;

    open spec fn view(&self) -> ContractView {
        ContractView {
            owner: self.owner@,
            vault: self.vault@,
            current_schedule_index: self.current_schedule_index,
            signer_nonce: self.signer_nonce,
            schedule: self.schedule@,
        }
    }
}

/// Whether the timestamps of the tranches never decrease.
pub open spec fn is_sorted(schedule: Seq<VestingSchedule>) -> bool {
    forall|i: int, j: int|
        0 <= i <= j < schedule.len() ==> schedule[i].unlock_timestamp
            <= schedule[j].unlock_timestamp
}

/// The sum of the quantities of the tranches at the positions from `from` up to, and
/// without, `to`.
pub open spec fn quantity_sum(schedule: Seq<VestingSchedule>, from: int, to: int) -> int
    decreases to - from,
{
    if from >= to {
        0
    } else {
        quantity_sum(schedule, from, to - 1) + schedule[to - 1].quantity
    }
}

/// The sum of the quantities of all the tranches.
pub open spec fn total_quantity(schedule: Seq<VestingSchedule>) -> int {
    quantity_sum(schedule, 0, schedule.len() as int)
}

/// The sum over a range of tranches is the sum over its two parts, neither of which is
/// negative.
pub proof fn lemma_quantity_sum_grows(schedule: Seq<VestingSchedule>, from: int, mid: int, to: int)
    requires
        from <= mid <= to,
    ensures
        0 <= quantity_sum(schedule, from, mid) <= quantity_sum(schedule, from, to),
        quantity_sum(schedule, from, to) == quantity_sum(schedule, from, mid) + quantity_sum(
            schedule,
            mid,
            to,
        ),
    decreases to - from,
{
    if mid < to {
        lemma_quantity_sum_grows(schedule, from, mid, to - 1);
    } else if from < mid {
        lemma_quantity_sum_grows(schedule, from, mid - 1, mid - 1);
    }
}

/// Number of bytes of a contract with `number_of_schedules` tranches.
pub open spec fn allocation_size(number_of_schedules: nat) -> nat {
    88 + 16 * number_of_schedules
}

/// The sixteen bytes of a tranche.
pub open spec fn schedule_bytes(schedule: VestingSchedule) -> Seq<u8> {
    spec_u64_to_le_bytes(schedule.unlock_timestamp) + spec_u64_to_le_bytes(schedule.quantity)
}

/// The bytes of a sequence of tranches: byte `k` is byte `k % 16` of tranche `k / 16`.
pub open spec fn schedules_bytes(schedule: Seq<VestingSchedule>) -> Seq<u8> {
    Seq::new(16 * schedule.len(), |k: int| schedule_bytes(schedule[k / 16])[k % 16])
}

/// The tranche that the sixteen bytes of `data` from `offset` hold.
pub open spec fn schedule_at(data: Seq<u8>, offset: int) -> VestingSchedule {
    VestingSchedule {
        unlock_timestamp: spec_u64_from_le_bytes(data.subrange(offset, offset + 8)),
        quantity: spec_u64_from_le_bytes(data.subrange(offset + 8, offset + 16)),
    }
}

/// The `count` tranches that the bytes of `data` from `offset` hold.
pub open spec fn schedules_at(data: Seq<u8>, offset: int, count: nat) -> Seq<VestingSchedule> {
    Seq::new(count, |i: int| schedule_at(data, offset + 16 * i))
}

/// The bytes of a contract that follow the tag.
pub open spec fn body_bytes(contract: ContractView) -> Seq<u8> {
    contract.owner + contract.vault + spec_u64_to_le_bytes(contract.current_schedule_index)
        + seq![contract.signer_nonce] + Seq::new(7, |k: int| 0u8) + schedules_bytes(
        contract.schedule,
    )
}

/// The bytes of an account that holds `contract` under `tag`.
pub open spec fn contract_bytes(tag: Tag, contract: ContractView) -> Seq<u8> {
    spec_u64_to_le_bytes(tag.spec_code()) + body_bytes(contract)
}

/// Whether `data` starts with `tag`.
pub open spec fn has_tag(data: Seq<u8>, tag: Tag) -> bool {
    data.len() >= 8 && spec_u64_from_le_bytes(data.subrange(0, 8)) == tag.spec_code()
}

/// Whether data of `len` bytes is a header followed by whole tranches.
pub open spec fn holds_schedules(len: nat) -> bool {
    len >= 88 && (len - 88) % 16 == 0
}

/// The contract that the bytes of `data` after the tag say.
pub open spec fn decoded(data: Seq<u8>) -> ContractView {
    ContractView {
        owner: data.subrange(8, 40),
        vault: data.subrange(40, 72),
        current_schedule_index: spec_u64_from_le_bytes(data.subrange(72, 80)),
        signer_nonce: data[80],
        schedule: schedules_at(data, 88, ((data.len() - 88) / 16) as nat),
    }
}

/// What reading `data` as a contract under `tag` gives: the contract, unless the data
/// has another tag or is not a header followed by whole tranches.
pub open spec fn load_result(data: Seq<u8>, tag: Tag) -> Result<ContractView, TokenVestingError> {
    if !has_tag(data, tag) {
        Err(TokenVestingError::DataTypeMismatch)
    } else if !holds_schedules(data.len()) {
        Err(TokenVestingError::SerializationError)
    } else {
        Ok(decoded(data))
    }
}

/// The bytes of some tranches take sixteen bytes each and are read back as those
/// tranches, whatever stands before and after them.
pub proof fn lemma_schedules_bytes_read_back(
    before: Seq<u8>,
    schedule: Seq<VestingSchedule>,
    after: Seq<u8>,
)
    ensures
        schedules_bytes(schedule).len() == 16 * schedule.len(),
        schedules_at(
            before + schedules_bytes(schedule) + after,
            before.len() as int,
            schedule.len(),
        ) == schedule,
{
    lemma_auto_spec_u64_to_from_le_bytes();
    let data = before + schedules_bytes(schedule) + after;
    let base = before.len() as int;
    assert forall|i: int| 0 <= i < schedule.len() implies schedule_at(data, base + 16 * i)
        == schedule[i] by {
        let entry = schedule[i];
        assert forall|k: int| 0 <= k < 16 implies data[base + 16 * i + k] == schedule_bytes(
            entry,
        )[k] by {
            assert((16 * i + k) / 16 == i);
            assert((16 * i + k) % 16 == k);
            assert(data[base + 16 * i + k] == schedules_bytes(schedule)[16 * i + k]);
        }
        assert(data.subrange(base + 16 * i, base + 16 * i + 8) == spec_u64_to_le_bytes(
            entry.unlock_timestamp,
        )) by {
            assert forall|k: int| 0 <= k < 8 implies data.subrange(
                base + 16 * i,
                base + 16 * i + 8,
            )[k] == spec_u64_to_le_bytes(entry.unlock_timestamp)[k] by {
                assert(data[base + 16 * i + k] == schedule_bytes(entry)[k]);
            }
        }
        assert(data.subrange(base + 16 * i + 8, base + 16 * i + 16) == spec_u64_to_le_bytes(
            entry.quantity,
        )) by {
            assert forall|k: int| 0 <= k < 8 implies data.subrange(
                base + 16 * i + 8,
                base + 16 * i + 16,
            )[k] == spec_u64_to_le_bytes(entry.quantity)[k] by {
                assert(data[base + 16 * i + 8 + k] == schedule_bytes(entry)[8 + k]);
            }
        }
    }
    assert(schedules_at(data, base, schedule.len()) =~= schedule);
}

/// The bytes written for a contract are read back as that contract, under the tag they
/// were written with.
pub proof fn lemma_contract_bytes_decode(tag: Tag, contract: ContractView)
    requires
        contract.owner.len() == 32,
        contract.vault.len() == 32,
    ensures
        contract_bytes(tag, contract).len() == allocation_size(contract.schedule.len()),
        load_result(contract_bytes(tag, contract), tag) == Ok::<ContractView, TokenVestingError>(
            contract,
        ),
{
    lemma_auto_spec_u64_to_from_le_bytes();
    let data = contract_bytes(tag, contract);
    let header = spec_u64_to_le_bytes(tag.spec_code()) + contract.owner + contract.vault
        + spec_u64_to_le_bytes(contract.current_schedule_index) + seq![contract.signer_nonce]
        + Seq::new(7, |k: int| 0u8);
    lemma_schedules_bytes_read_back(header, contract.schedule, Seq::empty());
    assert(data =~= header + schedules_bytes(contract.schedule) + Seq::empty());
    assert(data.subrange(0, 8) == spec_u64_to_le_bytes(tag.spec_code()));
    assert(data.subrange(8, 40) == contract.owner);
    assert(data.subrange(40, 72) == contract.vault);
    assert(data.subrange(72, 80) == spec_u64_to_le_bytes(contract.current_schedule_index));
    assert((data.len() - 88) / 16 == contract.schedule.len());
}

/// Appends `bytes` to `out`.
pub(crate) fn append_bytes(out: &mut Vec<u8>, bytes: &[u8])
    ensures
        final(out)@ == old(out)@ + bytes@,
{
    let mut i: usize = 0;
    while i < bytes.len()
        invariant
            i <= bytes@.len(),
            out@ == old(out)@ + bytes@.subrange(0, i as int),
        decreases bytes@.len() - i,
    {
        out.push(bytes[i]);
        i += 1;
    }
}

/// Appends the eight bytes of `value` to `out`.
pub(crate) fn append_u64(out: &mut Vec<u8>, value: u64)
    ensures
        final(out)@ == old(out)@ + spec_u64_to_le_bytes(value),
{
    let bytes = u64_to_le_bytes(value);
    append_bytes(out, bytes.as_slice());
}

/// Appends the bytes of the tranches of `schedule` to `out`.
pub(crate) fn append_schedules(out: &mut Vec<u8>, schedule: &[VestingSchedule])
    ensures
        final(out)@ == old(out)@ + schedules_bytes(schedule@),
{
    let mut i: usize = 0;
    while i < schedule.len()
        invariant
            i <= schedule@.len(),
            out@ == old(out)@ + schedules_bytes(schedule@.subrange(0, i as int)),
        decreases schedule@.len() - i,
    {
        let entry = schedule[i];
        append_u64(out, entry.unlock_timestamp);
        append_u64(out, entry.quantity);
        proof {
            lemma_auto_spec_u64_to_from_le_bytes();
            let shorter = schedule@.subrange(0, i as int);
            let longer = schedule@.subrange(0, i + 1);
            assert forall|k: int| 0 <= k < 16 * (i + 1) implies schedules_bytes(longer)[k]
                == (schedules_bytes(shorter) + schedule_bytes(entry))[k] by {
                if k >= 16 * i {
                    assert(k / 16 == i);
                    assert(k % 16 == k - 16 * i);
                } else {
                    assert(k / 16 < i);
                    assert(longer[k / 16] == shorter[k / 16]);
                }
            }
            assert(schedules_bytes(longer) =~= schedules_bytes(shorter) + schedule_bytes(entry));
        }
        i += 1;
    }
    assert(schedule@.subrange(0, schedule@.len() as int) =~= schedule@);
}

/// Copies `bytes` over the bytes of `buffer` that start at `offset`.
pub(crate) fn write_bytes(buffer: &mut [u8], offset: usize, bytes: &[u8])
    requires
        offset + bytes@.len() <= old(buffer)@.len(),
    ensures
        final(buffer)@ == old(buffer)@.subrange(0, offset as int) + bytes@ + old(buffer)@.subrange(
            offset + bytes@.len(),
            old(buffer)@.len() as int,
        ),
{
    let mut i: usize = 0;
    while i < bytes.len()
        invariant
            i <= bytes@.len(),
            offset + bytes@.len() <= buffer@.len(),
            buffer@.len() == old(buffer)@.len(),
            forall|j: int| 0 <= j < offset ==> buffer@[j] == old(buffer)@[j],
            forall|j: int| 0 <= j < i ==> buffer@[offset + j] == bytes@[j],
            forall|j: int| offset + i <= j < buffer@.len() ==> buffer@[j] == old(buffer)@[j],
        decreases bytes@.len() - i,
    {
        assert(offset + i < buffer.len());
        buffer[offset + i] = bytes[i];
        i += 1;
    }
}

/// The integer that the eight bytes of `buffer` from `offset` hold.
pub(crate) fn read_u64(buffer: &[u8], offset: usize) -> (value: u64)
    requires
        offset + 8 <= buffer@.len(),
    ensures
        value == spec_u64_from_le_bytes(buffer@.subrange(offset as int, offset + 8)),
{
    assert(offset + 8 <= buffer.len());
    u64_from_le_bytes(slice_subrange(buffer, offset, offset + 8))
}

/// The address that the thirty-two bytes of `buffer` from `offset` hold.
pub(crate) fn read_pubkey(buffer: &[u8], offset: usize) -> (key: Pubkey)
    requires
        offset + 32 <= buffer@.len(),
    ensures
        key@ == buffer@.subrange(offset as int, offset + 32),
{
    let mut bytes = [0u8;32];
    let mut i: usize = 0;
    while i < 32
        invariant
            i <= 32,
            offset + 32 <= buffer@.len(),
            forall|j: int| 0 <= j < i ==> bytes@[j] == buffer@[offset + j],
        decreases 32 - i,
    {
        assert(offset + i < buffer.len());
        bytes[i] = buffer[offset + i];
        i += 1;
    }
    Pubkey(bytes)
}

/// The `count` tranches that the bytes of `buffer` from `offset` hold.
pub(crate) fn read_schedules(buffer: &[u8], offset: usize, count: usize) -> (schedule: Vec<
    VestingSchedule,
>)
    requires
        offset + 16 * count <= buffer@.len(),
    ensures
        schedule@ == schedules_at(buffer@, offset as int, count as nat),
{
    assert(offset + 16 * count <= buffer.len());
    let mut schedule: Vec<VestingSchedule> = Vec::new();
    let mut i: usize = 0;
    while i < count
        invariant
            i <= count,
            offset + 16 * count <= buffer@.len(),
            buffer@.len() <= usize::MAX,
            schedule@ == schedules_at(buffer@, offset as int, i as nat),
        decreases count - i,
    {
        let unlock_timestamp = read_u64(buffer, offset + 16 * i);
        let quantity = read_u64(buffer, offset + 16 * i + 8);
        schedule.push(VestingSchedule { unlock_timestamp, quantity });
        i += 1;
    }
    schedule
}

impl VestingContract {
    /// Turns freshly allocated account data into the data of a vesting contract: the tag
    /// goes from `Uninitialized` to `VestingContract`. Data with any other tag, or too
    /// short to hold one, is refused and left as it is.
    pub fn initialize(buffer: &mut [u8]) -> (result: Result<(), TokenVestingError>)
        ensures
            match result {
                Ok(_) => {
                    &&& has_tag(old(buffer)@, Tag::Uninitialized)
                    &&& final(buffer)@ == spec_u64_to_le_bytes(Tag::VestingContract.spec_code())
                        + old(buffer)@.subrange(8, old(buffer)@.len() as int)
                },
                Err(e) => {
                    &&& e == TokenVestingError::DataTypeMismatch
                    &&& !has_tag(old(buffer)@, Tag::Uninitialized)
                    &&& final(buffer)@ == old(buffer)@
                },
            },
    {
        if buffer.len() < 8 {
            return Err(TokenVestingError::DataTypeMismatch);
        }
        let tag = read_u64(buffer, 0);
        if tag != Tag::Uninitialized.code() {
            return Err(TokenVestingError::DataTypeMismatch);
        }
        let bytes = u64_to_le_bytes(Tag::VestingContract.code());
        write_bytes(buffer, 0, bytes.as_slice());
        Ok(())
    }

    /// Reads the contract that `buffer` holds under `expected_tag`.
    pub fn from_buffer(buffer: &[u8], expected_tag: Tag) -> (result: Result<
        VestingContract,
        TokenVestingError,
    >)
        ensures
            match result {
                Ok(contract) => load_result(buffer@, expected_tag) == Ok::<
                    ContractView,
                    TokenVestingError,
                >(contract@),
                Err(e) => load_result(buffer@, expected_tag) == Err::<
                    ContractView,
                    TokenVestingError,
                >(e),
            },
    {
        let len = buffer.len();
        if len < 8 {
            return Err(TokenVestingError::DataTypeMismatch);
        }
        let tag = read_u64(buffer, 0);
        if tag != expected_tag.code() {
            return Err(TokenVestingError::DataTypeMismatch);
        }
        if len < 88 || (len - 88) % 16 != 0 {
            return Err(TokenVestingError::SerializationError);
        }
        let owner = read_pubkey(buffer, 8);
        let vault = read_pubkey(buffer, 40);
        let current_schedule_index = read_u64(buffer, 72);
        let signer_nonce = buffer[80];
        let schedule = read_schedules(buffer, 88, (len - 88) / 16);
        Ok(VestingContract { owner, vault, current_schedule_index, signer_nonce, schedule })
    }

    /// Writes the contract over the bytes of `buffer` that follow the tag. A buffer that
    /// is not of the contract's size is refused and left as it is.
    pub fn commit(&self, buffer: &mut [u8]) -> (result: Result<(), TokenVestingError>)
        ensures
            match result {
                Ok(_) => {
                    &&& old(buffer)@.len() == allocation_size(self@.schedule.len())
                    &&& final(buffer)@ == old(buffer)@.subrange(0, 8) + body_bytes(self@)
                },
                Err(e) => {
                    &&& e == TokenVestingError::SerializationError
                    &&& old(buffer)@.len() != allocation_size(self@.schedule.len())
                    &&& final(buffer)@ == old(buffer)@
                },
            },
    {
        let len = buffer.len();
        if len < 88 || (len - 88) % 16 != 0 || (len - 88) / 16 != self.schedule.len() {
            return Err(TokenVestingError::SerializationError);
        }
        let mut body: Vec<u8> = Vec::new();
        append_bytes(&mut body, self.owner.0.as_slice());
        append_bytes(&mut body, self.vault.0.as_slice());
        append_u64(&mut body, self.current_schedule_index);
        body.push(self.signer_nonce);
        let mut k: usize = 0;
        while k < 7
            invariant
                k <= 7,
                body@ == self.owner@ + self.vault@ + spec_u64_to_le_bytes(
                    self.current_schedule_index,
                ) + seq![self.signer_nonce] + Seq::new(k as nat, |k: int| 0u8),
            decreases 7 - k,
        {
            body.push(0);
            k += 1;
        }
        append_schedules(&mut body, self.schedule.as_slice());
        proof {
            lemma_auto_spec_u64_to_from_le_bytes();
            lemma_pubkey_len(self.owner);
            lemma_pubkey_len(self.vault);
            lemma_schedules_bytes_read_back(Seq::empty(), self.schedule@, Seq::empty());
            assert(body@ == body_bytes(self@));
        }
        write_bytes(buffer, 8, body.as_slice());
        Ok(())
    }

    /// Number of bytes of the account that holds a contract with `number_of_schedules`
    /// tranches.
    pub fn compute_allocation_size(number_of_schedules: usize) -> (size: usize)
        requires
            allocation_size(number_of_schedules as nat) <= usize::MAX,
        ensures
            size == allocation_size(number_of_schedules as nat),
    {
        8 + 32 + 32 + 8 + 1 + 7 + (number_of_schedules * 16)
    }
}

} // verus!
