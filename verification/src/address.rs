//! Account addresses and the derivation of the two reserve addresses.

use vstd::prelude::*;
use solana_program::pubkey::Pubkey;
use vstd::string::StringSliceAdditionalSpecFns;

verus! {

/// Seed label from which the address of reserve A is derived.
pub const WALLET_A_SEED: &'static str = "wallet_a";

/// Seed label from which the address of reserve B is derived.
pub const WALLET_B_SEED: &'static str = "wallet_b";

/// The address of an account: 32 bytes.
#[derive(Debug, Clone, Copy, Eq)]
pub struct Address {
    pub bytes: [u8; 32],
}

impl View for Address {
    type V = Seq<u8>;

    open spec fn view(&self) -> Seq<u8> {
        self.bytes@
    }
}

impl PartialEq for Address {
    fn eq(&self, other: &Address) -> (equal: bool) {
        let mut i: usize = 0;
        while i < 32
            invariant
                i <= 32,
                forall|j: int| 0 <= j < i ==> self.bytes[j] == other.bytes[j],
            decreases 32 - i,
        {
            if self.bytes[i] != other.bytes[i] {
                return false;
            }
            i += 1;
        }
        assert(self.bytes =~= other.bytes);
        true
    }
}

impl vstd::std_specs::cmp::PartialEqSpecImpl for Address {
    open spec fn obeys_eq_spec() -> bool {
        true
    }

    open spec fn eq_spec(&self, other: &Address) -> bool {
        *self == *other
    }
}

impl Address {
    /// The address with these bytes.
    pub fn new(bytes: [u8; 32]) -> (address: Address)
        ensures
            address.bytes == bytes,
    {
        Address { bytes }
    }

    /// Two addresses are the same exactly when their bytes are.
    pub proof fn lemma_equal_by_bytes(self, other: Address)
        ensures
            (self@ == other@) <==> self == other,
    {
        if self@ == other@ {
            assert forall|i: int| 0 <= i < 32 implies self.bytes[i] == other.bytes[i] by {
                assert(self.bytes[i] == self@[i]);
                assert(other.bytes[i] == other@[i]);
            }
            assert(self.bytes =~= other.bytes);
        }
    }
}

/// One of the two reserves of the pool.
#[derive(Debug, Clone, Copy, PartialEq, Eq, Structural)]
pub enum Reserve {
    A,
    B,
}

/// The bytes of `"wallet_a"`.
pub open spec fn wallet_a_seed_bytes() -> Seq<u8> {
    seq![119u8, 97u8, 108u8, 108u8, 101u8, 116u8, 95u8, 97u8]
}

/// The bytes of `"wallet_b"`.
pub open spec fn wallet_b_seed_bytes() -> Seq<u8> {
    seq![119u8, 97u8, 108u8, 108u8, 101u8, 116u8, 95u8, 98u8]
}

impl Reserve {
    /// The bytes of the seed label of this reserve.
    pub open spec fn seed_bytes(&self) -> Seq<u8> {
        match self {
            Reserve::A => wallet_a_seed_bytes(),
            Reserve::B => wallet_b_seed_bytes(),
        }
    }

    /// The seed label of this reserve.
    pub fn seed(&self) -> (label: &'static str)
        ensures
            label.spec_bytes() == self.seed_bytes(),
    {
        proof {
            reveal_strlit("wallet_a");
            reveal_strlit("wallet_b");
            vstd::string::is_ascii_spec_bytes(WALLET_A_SEED);
            vstd::string::is_ascii_spec_bytes(WALLET_B_SEED);
            assert(WALLET_A_SEED.spec_bytes() =~= wallet_a_seed_bytes());
            assert(WALLET_B_SEED.spec_bytes() =~= wallet_b_seed_bytes());
        }
        match self {
            Reserve::A => WALLET_A_SEED,
            Reserve::B => WALLET_B_SEED,
        }
    }
}

/// The program-derived address of a seed under a program, with the bump that
/// yields it; `None` where the derivation finds no address.
pub uninterp spec fn program_address(seed: Seq<u8>, program_id: Seq<u8>) -> Option<(Seq<u8>, u8)>;

/// Calls `Pubkey::try_find_program_address` of `solana_program` with the one
/// seed and the program's address. Trusted, not proved: what comes back is
/// the derivation of exactly these bytes, a function of the two arguments
/// alone, and `None` where the search finds no bump or the seed is too long.
#[verifier::external_body]
pub(crate) fn find_program_address(seed: &[u8], program_id: &Address) -> (found: Option<
    (Address, u8),
>)
    ensures
        found matches Some((address, bump)) ==> program_address(seed@, program_id@) == Some(
            (address@, bump),
        ),
        found is None ==> program_address(seed@, program_id@) is None,
{
    let program = Pubkey::new_from_array(program_id.bytes);
    match Pubkey::try_find_program_address(&[seed], &program) {
        Some((key, bump)) => Some((Address { bytes: key.to_bytes() }, bump)),
        None => None,
    }
}

} // verus!
