//! The state of an Anker instance, and how it is stored.

use crate::address::{lemma_address_is_its_bytes, Address};
use crate::error::{BorshError, Failure, ProgramError};
use vstd::prelude::*;

verus! {

/// The number of bytes that the state of an Anker instance takes.
pub const ANKER_LEN: usize = 166;

/// The state of an Anker instance.
#[derive(Clone, Copy, Debug, PartialEq, Eq)]
pub struct Anker {
    /// The mint of bSOL.
    pub b_sol_mint: Address,
    /// The program that owns the Solido instance.
    pub solido_program_id: Address,
    /// The Solido instance that this Anker instance belongs to.
    pub solido: Address,
    /// The pool where rewards are sold.
    pub token_swap_pool: Address,
    /// Where rewards go on Terra.
    pub terra_rewards_destination: Address,
    /// The bump seed of the address of this instance.
    pub self_bump_seed: u8,
    /// The bump seed of the authority that mints bSOL.
    pub mint_authority_bump_seed: u8,
    /// The bump seed of the authority over the reserve accounts.
    pub reserve_authority_bump_seed: u8,
    /// The bump seed of the stSOL reserve account.
    pub st_sol_reserve_account_bump_seed: u8,
    /// The bump seed of the UST reserve account.
    pub ust_reserve_account_bump_seed: u8,
    /// The bump seed of the authority of the token swap pool.
    pub token_swap_bump_seed: u8,
}

impl Anker {
    /// The stored form: the addresses, then the bump seeds, each as it stands.
    pub open spec fn spec_encode(self) -> Seq<u8> {
        self.b_sol_mint@ + self.solido_program_id@ + self.solido@ + self.token_swap_pool@
            + self.terra_rewards_destination@ + seq![
            self.self_bump_seed,
            self.mint_authority_bump_seed,
            self.reserve_authority_bump_seed,
            self.st_sol_reserve_account_bump_seed,
            self.ust_reserve_account_bump_seed,
            self.token_swap_bump_seed,
        ]
    }

    /// The state that `data` starts with, if it is long enough to hold one.
    pub open spec fn spec_decode(data: Seq<u8>) -> Result<Anker, Failure> {
        if data.len() < ANKER_LEN {
            Err(Failure::Error(ProgramError::Borsh(BorshError::UnexpectedLength)))
        } else {
            Ok(choose|anker: Anker| anker.spec_encode() == data.take(ANKER_LEN as int))
        }
    }

    /// Two states with the same stored form are the same.
    pub proof fn lemma_encode_is_injective(a: Anker, b: Anker)
        ensures
            a.spec_encode().len() == ANKER_LEN,
            a.spec_encode() == b.spec_encode() ==> a == b,
    {
        let x = a.spec_encode();
        let y = b.spec_encode();
        assert(x.len() == ANKER_LEN);
        if x == y {
            assert(x.subrange(0, 32) =~= a.b_sol_mint@);
            assert(y.subrange(0, 32) =~= b.b_sol_mint@);
            assert(x.subrange(32, 64) =~= a.solido_program_id@);
            assert(y.subrange(32, 64) =~= b.solido_program_id@);
            assert(x.subrange(64, 96) =~= a.solido@);
            assert(y.subrange(64, 96) =~= b.solido@);
            assert(x.subrange(96, 128) =~= a.token_swap_pool@);
            assert(y.subrange(96, 128) =~= b.token_swap_pool@);
            assert(x.subrange(128, 160) =~= a.terra_rewards_destination@);
            assert(y.subrange(128, 160) =~= b.terra_rewards_destination@);
            lemma_address_is_its_bytes(a.b_sol_mint, b.b_sol_mint);
            lemma_address_is_its_bytes(a.solido_program_id, b.solido_program_id);
            lemma_address_is_its_bytes(a.solido, b.solido);
            lemma_address_is_its_bytes(a.token_swap_pool, b.token_swap_pool);
            lemma_address_is_its_bytes(a.terra_rewards_destination, b.terra_rewards_destination);
            assert(forall|i: int| 160 <= i < 166 ==> x[i] == y[i]);
            assert(x[160] == a.self_bump_seed && y[160] == b.self_bump_seed);
            assert(x[161] == a.mint_authority_bump_seed && y[161] == b.mint_authority_bump_seed);
            assert(x[162] == a.reserve_authority_bump_seed);
            assert(y[162] == b.reserve_authority_bump_seed);
            assert(x[163] == a.st_sol_reserve_account_bump_seed);
            assert(y[163] == b.st_sol_reserve_account_bump_seed);
            assert(x[164] == a.ust_reserve_account_bump_seed);
            assert(y[164] == b.ust_reserve_account_bump_seed);
            assert(x[165] == a.token_swap_bump_seed && y[165] == b.token_swap_bump_seed);
        }
    }

    /// Reads the state that `data` starts with.
    pub fn read(data: &[u8]) -> (r: Result<Anker, Failure>)
        ensures
            r == Self::spec_decode(data@),
            r matches Ok(anker) ==> anker.spec_encode() == data@.take(ANKER_LEN as int),
    {
        if data.len() < ANKER_LEN {
            return Err(Failure::Error(ProgramError::Borsh(BorshError::UnexpectedLength)));
        }
        let anker = Anker {
            b_sol_mint: Address::read(data, 0),
            solido_program_id: Address::read(data, 32),
            solido: Address::read(data, 64),
            token_swap_pool: Address::read(data, 96),
            terra_rewards_destination: Address::read(data, 128),
            self_bump_seed: data[160],
            mint_authority_bump_seed: data[161],
            reserve_authority_bump_seed: data[162],
            st_sol_reserve_account_bump_seed: data[163],
            ust_reserve_account_bump_seed: data[164],
            token_swap_bump_seed: data[165],
        };
        proof {
            assert(anker.spec_encode() =~= data@.take(ANKER_LEN as int));
            let chosen = choose|a: Anker| a.spec_encode() == data@.take(ANKER_LEN as int);
            Self::lemma_encode_is_injective(anker, chosen);
        }
        Ok(anker)
    }

    /// The stored form.
    pub fn encode(&self) -> (r: Vec<u8>)
        ensures
            r@ == self.spec_encode(),
            r@.len() == ANKER_LEN,
    {
        let mut r: Vec<u8> = Vec::new();
        r.extend_from_slice(self.b_sol_mint.bytes.as_slice());
        r.extend_from_slice(self.solido_program_id.bytes.as_slice());
        r.extend_from_slice(self.solido.bytes.as_slice());
        r.extend_from_slice(self.token_swap_pool.bytes.as_slice());
        r.extend_from_slice(self.terra_rewards_destination.bytes.as_slice());
        r.push(self.self_bump_seed);
        r.push(self.mint_authority_bump_seed);
        r.push(self.reserve_authority_bump_seed);
        r.push(self.st_sol_reserve_account_bump_seed);
        r.push(self.ust_reserve_account_bump_seed);
        r.push(self.token_swap_bump_seed);
        assert(r@ =~= self.spec_encode());
        r
    }

    /// Stores the state at the start of `data`, if there is room for it.
    pub fn save(&self, data: &mut [u8]) -> (r: Result<(), ProgramError>)
        ensures
            final(data)@.len() == old(data)@.len(),
            old(data)@.len() >= ANKER_LEN ==> {
                &&& r is Ok
                &&& final(data)@ == self.spec_encode() + old(data)@.skip(ANKER_LEN as int)
            },
            old(data)@.len() < ANKER_LEN ==> {
                &&& r == Err::<(), ProgramError>(ProgramError::Borsh(BorshError::WriteZero))
                &&& final(data)@ == old(data)@
            },
    {
        if data.len() < ANKER_LEN {
            return Err(ProgramError::Borsh(BorshError::WriteZero));
        }
        let encoded = self.encode();
        let ghost before = data@;
        let mut i: usize = 0;
        while i < ANKER_LEN
            invariant
                i <= ANKER_LEN,
                encoded@.len() == ANKER_LEN,
                data@.len() == before.len(),
                before.len() >= ANKER_LEN,
                forall|j: int| 0 <= j < i ==> data@[j] == encoded@[j],
                forall|j: int| i <= j < before.len() ==> data@[j] == before[j],
            decreases ANKER_LEN - i,
        {
            data[i] = encoded[i];
            i = i + 1;
        }
        assert(data@ =~= self.spec_encode() + before.skip(ANKER_LEN as int));
        Ok(())
    }
}

} // verus!
