//! Account addresses and the derivation of program-owned signing addresses.

use crate::error::ProgramError;
use solana_program::pubkey::{Pubkey as HostPubkey, PubkeyError};
use vstd::prelude::*;

verus! {

/// The address of an account: 32 opaque bytes.
#[derive(Clone, Copy, Debug, Eq)]
pub struct Pubkey(pub [u8; 32]);

impl PartialEq for Pubkey {
    fn eq(&self, other: &Pubkey) -> (equal: bool) {
        let mut i: usize = 0;
        while i < 32
            invariant
                i <= 32,
                forall|j: int| 0 <= j < i ==> self.0[j] == other.0[j],
            decreases 32 - i,
        {
            if self.0[i] != other.0[i] {
                return false;
            }
            i += 1;
        }
        assert(self.0 =~= other.0);
        true
    }
}

impl vstd::std_specs::cmp::PartialEqSpecImpl for Pubkey {
    open spec fn obeys_eq_spec() -> bool {
        true
    }

    open spec fn eq_spec(&self, other: &Pubkey) -> bool {
        *self == *other
    }
}

impl View for Pubkey {
    type V = Seq<u8>;

    open spec fn view(&self) -> Seq<u8> {
        self.0@
    }
}

impl Pubkey {
    /// The address made of the given bytes.
    pub fn new_from_array(bytes: [u8; 32]) -> (key: Pubkey)
        ensures
            key.0 == bytes,
    {
        Pubkey(bytes)
    }

    /// The bytes of the address.
    pub fn to_bytes(&self) -> (bytes: [u8; 32])
        ensures
            bytes == self.0,
    {
        self.0
    }
}

/// An address has thirty-two bytes.
pub proof fn lemma_pubkey_len(key: Pubkey)
    ensures
        key@.len() == 32,
{
}

/// Two addresses with the same bytes are the same address.
pub proof fn lemma_pubkey_view_injective(a: Pubkey, b: Pubkey)
    ensures
        a@.len() == 32,
        (a@ == b@) <==> (a == b),
{
    if a@ == b@ {
        assert forall|i: int| 0 <= i < 32 implies a.0[i] == b.0[i] by {
            assert(a.0[i] == a@[i]);
            assert(b.0[i] == b@[i]);
        }
        assert(a.0 =~= b.0);
    }
}

/// The address that the host derives for the program `program_id` from the two seeds
/// `seed` and `nonce`, or the error with which it refuses them.
pub uninterp spec fn program_address(seed: Seq<u8>, nonce: u8, program_id: Seq<u8>) -> Result<
    Pubkey,
    ProgramError,
>;

/// Derives a program address with `Pubkey::create_program_address`, from the bytes of
/// `seed`, then the one byte `nonce`. The contract claims only that the result is a
/// function of the three arguments.
#[verifier::external_body]
pub(crate) fn create_program_address(seed: &Pubkey, nonce: u8, program_id: &Pubkey) -> (result:
    Result<Pubkey, ProgramError>)
    ensures
        result == program_address(seed@, nonce, program_id@),
{
    let program_id = HostPubkey::new_from_array(program_id.0);
    match HostPubkey::create_program_address(&[&seed.0, &[nonce]], &program_id) {
        Ok(key) => Ok(Pubkey(key.to_bytes())),
        Err(PubkeyError::MaxSeedLengthExceeded) => Err(ProgramError::MaxSeedLengthExceeded),
        Err(PubkeyError::InvalidSeeds) => Err(ProgramError::InvalidSeeds),
        Err(PubkeyError::IllegalOwner) => Err(ProgramError::IllegalOwner),
    }
}

} // verus!
