//! The addresses that the program derives from seeds, and signs for.

use crate::address::Address;
use crate::error::{anker_failure, Abort, AnkerError, Failure, ProgramError};
use vstd::prelude::*;
use vstd::slice::slice_to_vec;

verus! {

/// The seed of the authority that mints bSOL: `mint_authority`.
pub const ANKER_MINT_AUTHORITY: [u8; 14] = [
    109, 105, 110, 116, 95, 97, 117, 116, 104, 111,
    114, 105, 116, 121,
];

/// The seed of the authority over the reserve accounts: `reserve_authority`.
pub const ANKER_RESERVE_AUTHORITY: [u8; 17] = [
    114, 101, 115, 101, 114, 118, 101, 95, 97, 117,
    116, 104, 111, 114, 105, 116, 121,
];

/// The seed of the account that holds the stSOL reserve: `st_sol_reserve_account`.
pub const ANKER_STSOL_RESERVE_ACCOUNT: [u8; 22] = [
    115, 116, 95, 115, 111, 108, 95, 114, 101, 115,
    101, 114, 118, 101, 95, 97, 99, 99, 111, 117,
    110, 116,
];

/// The seed of the account that holds the UST reserve: `ust_reserve_account`.
pub const ANKER_UST_RESERVE_ACCOUNT: [u8; 19] = [
    117, 115, 116, 95, 114, 101, 115, 101, 114, 118,
    101, 95, 97, 99, 99, 111, 117, 110, 116,
];

/// The address of the Orca token swap program, version 2:
/// `9W959DqEETiGZocYWCQPaJ6sBmUzgfxXfqGeTEdp3aQP`.
pub const ORCA_TOKEN_SWAP_V2: [u8; 32] = [
    126, 84, 119, 26, 87, 166, 241, 76, 169, 228, 2,
    213, 74, 238, 69, 247, 55, 138, 202, 54, 92, 123,
    22, 154, 126, 200, 63, 81, 130, 178, 152, 240,
];

/// What `Pubkey::create_program_address` makes of seeds and a program: the derived
/// address, or nothing where the seeds are too many or too long, or where they lead to
/// a point of the curve.
pub uninterp spec fn program_address(seeds: Seq<Seq<u8>>, program: Seq<u8>) -> Option<[u8; 32]>;

/// The address that seeds derive for a program, if they derive one.
pub open spec fn derived_address(seeds: Seq<Seq<u8>>, program: Address) -> Option<Address> {
    match program_address(seeds, program@) {
        Some(bytes) => Some(Address { bytes }),
        None => None,
    }
}

/// The contents of each seed.
pub open spec fn seed_bytes(seeds: Seq<Vec<u8>>) -> Seq<Seq<u8>> {
    seeds.map_values(|seed: Vec<u8>| seed@)
}

/// The highest bump seed from `bump` down to 1 with which `seeds` derive an address.
pub open spec fn highest_bump(seeds: Seq<Seq<u8>>, program: Address, bump: nat) -> Option<u8>
    decreases bump,
{
    if bump == 0 {
        None
    } else if derived_address(seeds.push(seq![bump as u8]), program) is Some {
        Some(bump as u8)
    } else {
        highest_bump(seeds, program, (bump - 1) as nat)
    }
}

/// The address that seeds derive with the highest viable bump seed, and that bump seed.
pub open spec fn found_address(seeds: Seq<Seq<u8>>, program: Address) -> Option<(Address, u8)> {
    match highest_bump(seeds, program, 255) {
        Some(bump) => Some((derived_address(seeds.push(seq![bump]), program)->0, bump)),
        None => None,
    }
}

/// A bump seed that was found does derive an address.
pub proof fn lemma_highest_bump_is_viable(seeds: Seq<Seq<u8>>, program: Address, bump: nat)
    requires
        bump <= 255,
    ensures
        highest_bump(seeds, program, bump) matches Some(b) ==> derived_address(
            seeds.push(seq![b]),
            program,
        ) is Some,
    decreases bump,
{
    if bump > 0 {
        lemma_highest_bump_is_viable(seeds, program, (bump - 1) as nat);
    }
}

/// `Pubkey::create_program_address`: the address that the seeds derive for the program,
/// or `None` where the crate returns an error. The address is a hash that this contract
/// only names: it depends on the seeds and the program, and on nothing else.
#[verifier::external_body]
fn create_program_address(seeds: &Vec<Vec<u8>>, program: &Address) -> (r: Option<Address>)
    ensures
        match program_address(seed_bytes(seeds@), program@) {
            Some(bytes) => r == Some((Address { bytes })),
            None => r is None,
        },
{
    let slices: Vec<&[u8]> = seeds.iter().map(|seed| seed.as_slice()).collect();
    let program = solana_program::pubkey::Pubkey::new_from_array(program.bytes);
    match solana_program::pubkey::Pubkey::create_program_address(&slices, &program) {
        Ok(key) => Some(Address { bytes: key.to_bytes() }),
        Err(_) => None,
    }
}

/// `Pubkey::try_find_program_address`: it tries the bump seeds from 255 down to 1, each as
/// a last seed of `create_program_address`, and returns the first address that comes out
/// together with its bump seed, or `None` where none does.
#[verifier::external_body]
fn try_find_program_address(seeds: &Vec<Vec<u8>>, program: &Address) -> (r: Option<(Address, u8)>)
    ensures
        r == found_address(seed_bytes(seeds@), *program),
{
    let slices: Vec<&[u8]> = seeds.iter().map(|seed| seed.as_slice()).collect();
    let program = solana_program::pubkey::Pubkey::new_from_array(program.bytes);
    solana_program::pubkey::Pubkey::try_find_program_address(&slices, &program)
        .map(|(key, bump)| (Address { bytes: key.to_bytes() }, bump))
}

/// What a derived address is for.
#[derive(Clone, Copy, Debug, PartialEq, Eq, Structural)]
pub enum Purpose {
    /// The Anker instance of a Solido instance.
    Instance,
    /// The authority that mints bSOL.
    MintAuthority,
    /// The authority over the reserve accounts.
    ReserveAuthority,
    /// The account that holds the stSOL reserve.
    StSolReserve,
    /// The account that holds the UST reserve.
    UstReserve,
    /// The authority of a token swap pool.
    TokenSwapAuthority,
}

/// The seeds of a derived address, without the bump seed.
#[derive(Clone, Copy, Debug, PartialEq, Eq)]
pub struct Derivation {
    pub purpose: Purpose,
    /// The Solido instance, the Anker instance or the pool that the address belongs to.
    pub base: Address,
}

impl Derivation {
    /// The seeds, one after another.
    pub open spec fn spec_seeds(self) -> Seq<Seq<u8>> {
        match self.purpose {
            Purpose::Instance => seq![self.base@],
            Purpose::MintAuthority => seq![self.base@, ANKER_MINT_AUTHORITY@],
            Purpose::ReserveAuthority => seq![self.base@, ANKER_RESERVE_AUTHORITY@],
            Purpose::StSolReserve => seq![self.base@, ANKER_STSOL_RESERVE_ACCOUNT@],
            Purpose::UstReserve => seq![self.base@, ANKER_UST_RESERVE_ACCOUNT@],
            Purpose::TokenSwapAuthority => seq![self.base@],
        }
    }

    /// The derived address with the highest viable bump seed, if there is one.
    pub open spec fn spec_find(self, program: Address) -> Option<(Address, u8)> {
        found_address(self.spec_seeds(), program)
    }

    /// The seeds, one after another.
    pub fn seeds(&self) -> (r: Vec<Vec<u8>>)
        ensures
            seed_bytes(r@) == self.spec_seeds(),
    {
        let mut r: Vec<Vec<u8>> = Vec::new();
        r.push(slice_to_vec(self.base.bytes.as_slice()));
        match self.purpose {
            Purpose::Instance => {},
            Purpose::MintAuthority => {
                r.push(slice_to_vec(ANKER_MINT_AUTHORITY.as_slice()));
            },
            Purpose::ReserveAuthority => {
                r.push(slice_to_vec(ANKER_RESERVE_AUTHORITY.as_slice()));
            },
            Purpose::StSolReserve => {
                r.push(slice_to_vec(ANKER_STSOL_RESERVE_ACCOUNT.as_slice()));
            },
            Purpose::UstReserve => {
                r.push(slice_to_vec(ANKER_UST_RESERVE_ACCOUNT.as_slice()));
            },
            Purpose::TokenSwapAuthority => {},
        }
        assert(seed_bytes(r@) =~= self.spec_seeds());
        r
    }

    /// Searches the highest viable bump seed.
    pub fn find(&self, program: &Address) -> (r: Result<(Address, u8), Failure>)
        ensures
            match self.spec_find(*program) {
                Some(found) => r == Ok::<(Address, u8), Failure>(found),
                None => r == Err::<(Address, u8), Failure>(
                    Failure::Abort(Abort::NoViableBumpSeed),
                ),
            },
            r matches Ok((address, bump)) ==> (SignerSeeds { derivation: *self, bump }).spec_derive(*program, address),
    {
        match try_find_program_address(&self.seeds(), program) {
            Some((address, bump)) => {
                proof {
                    lemma_highest_bump_is_viable(self.spec_seeds(), *program, 255);
                }
                Ok((address, bump))
            },
            None => Err(Failure::Abort(Abort::NoViableBumpSeed)),
        }
    }
}

/// All the seeds of a derived address, with which the program can sign for it.
#[derive(Clone, Copy, Debug, PartialEq, Eq)]
pub struct SignerSeeds {
    pub derivation: Derivation,
    pub bump: u8,
}

impl SignerSeeds {
    /// The seeds, with the bump seed last.
    pub open spec fn spec_seeds(self) -> Seq<Seq<u8>> {
        self.derivation.spec_seeds().push(seq![self.bump])
    }

    /// Whether the seeds derive `address` for `program`.
    pub open spec fn spec_derive(self, program: Address, address: Address) -> bool {
        derived_address(self.spec_seeds(), program) == Some(address)
    }

    /// The seeds, with the bump seed last.
    pub fn seeds(&self) -> (r: Vec<Vec<u8>>)
        ensures
            seed_bytes(r@) == self.spec_seeds(),
    {
        let mut r = self.derivation.seeds();
        let ghost before = r@;
        let bump: Vec<u8> = vec![self.bump];
        r.push(bump);
        proof {
            assert(bump@ =~= seq![self.bump]);
            assert(seed_bytes(r@) =~= seed_bytes(before).push(bump@));
        }
        r
    }

    /// Checks that an account lives at the address that the seeds derive.
    pub fn check(&self, program: &Address, address: &Address) -> (r: Result<(), Failure>)
        ensures
            r == spec_check_derived(*self, *program, *address),
    {
        expect_address(create_program_address(&self.seeds(), program), address)
    }
}

/// Checks that an account lives at the address that was derived for it, if one was.
pub fn expect_address(derived: Option<Address>, address: &Address) -> (r: Result<(), Failure>)
    ensures
        derived == Some(*address) ==> r == Ok::<(), Failure>(()),
        derived != Some(*address) ==> r == Err::<(), Failure>(
            anker_failure(AnkerError::InvalidDerivedAccount),
        ),
{
    match derived {
        Some(expected) => if expected == *address {
            Ok(())
        } else {
            Err(Failure::Error(ProgramError::Anker(AnkerError::InvalidDerivedAccount)))
        },
        None => Err(Failure::Error(ProgramError::Anker(AnkerError::InvalidDerivedAccount))),
    }
}

/// An account is accepted exactly at the address that the seeds derive.
pub open spec fn spec_check_derived(
    seeds: SignerSeeds,
    program: Address,
    address: Address,
) -> Result<(), Failure> {
    if seeds.spec_derive(program, address) {
        Ok(())
    } else {
        Err(anker_failure(AnkerError::InvalidDerivedAccount))
    }
}

} // verus!
