//! Accounts as the program finds them, and the checks that they have to pass.

use crate::address::Address;
use crate::derived::{spec_check_derived, Derivation, Purpose, SignerSeeds};
use crate::error::{anker_failure, Abort, AnkerError, Failure, ProgramError};
use crate::solido::{Solido, SolidoAccount};
use crate::spl::{
    holds_mint, holds_token_account, mint_in, spec_token_program, token_account_in, token_program,
    unpack_mint, unpack_token_account, Mint, TokenAccount, ACCOUNT_LEN, MINT_LEN,
};
use crate::state::Anker;
use vstd::prelude::*;

verus! {

/// What an account holds.
#[derive(Debug)]
pub struct Contents {
    /// The program that owns the account.
    pub owner: Address,
    pub data: Vec<u8>,
}

/// An account, with what it holds.
#[derive(Debug)]
pub struct Account {
    pub key: Address,
    pub contents: Contents,
}

impl Contents {
    /// The mint that the account holds; `refusal` where the data is no mint.
    pub open spec fn spec_read_mint(self, refusal: Failure) -> Result<Mint, Failure> {
        if self.data@.len() < MINT_LEN {
            Err(Failure::Abort(Abort::AccountDataTooShort))
        } else if !holds_mint(self.data@) {
            Err(refusal)
        } else {
            Ok(mint_in(self.data@))
        }
    }

    /// The token account that the account holds; `refusal` where the data is none.
    pub open spec fn spec_read_token_account(self, refusal: Failure) -> Result<
        TokenAccount,
        Failure,
    > {
        if self.data@.len() < ACCOUNT_LEN {
            Err(Failure::Abort(Abort::AccountDataTooShort))
        } else if !holds_token_account(self.data@) {
            Err(refusal)
        } else {
            Ok(token_account_in(self.data@))
        }
    }

    /// An stSOL account is owned by the SPL token program, and holds tokens of the mint
    /// that Solido names.
    pub open spec fn spec_check_is_st_sol_account(self, solido: Solido) -> Result<(), Failure> {
        if self.owner != spec_token_program() {
            Err(anker_failure(AnkerError::InvalidTokenAccountOwner))
        } else {
            match self.spec_read_token_account(anker_failure(AnkerError::InvalidTokenAccount)) {
                Err(e) => Err(e),
                Ok(account) => if account.mint == solido.st_sol_mint {
                    Ok(())
                } else {
                    Err(anker_failure(AnkerError::InvalidTokenAccount))
                },
            }
        }
    }

    /// Reads the mint that the account holds.
    pub fn read_mint(&self, refusal: Failure) -> (r: Result<Mint, Failure>)
        ensures
            r == self.spec_read_mint(refusal),
    {
        if self.data.len() < MINT_LEN {
            return Err(Failure::Abort(Abort::AccountDataTooShort));
        }
        match unpack_mint(self.data.as_slice()) {
            Some(mint) => Ok(mint),
            None => Err(refusal),
        }
    }

    /// Reads the token account that the account holds.
    pub fn read_token_account(&self, refusal: Failure) -> (r: Result<TokenAccount, Failure>)
        ensures
            r == self.spec_read_token_account(refusal),
    {
        if self.data.len() < ACCOUNT_LEN {
            return Err(Failure::Abort(Abort::AccountDataTooShort));
        }
        match unpack_token_account(self.data.as_slice()) {
            Some(account) => Ok(account),
            None => Err(refusal),
        }
    }

    /// Checks that the account holds stSOL.
    pub fn check_is_st_sol_account(&self, solido: &Solido) -> (r: Result<(), Failure>)
        ensures
            r == self.spec_check_is_st_sol_account(*solido),
    {
        if self.owner != token_program() {
            return Err(
                Failure::Error(ProgramError::Anker(AnkerError::InvalidTokenAccountOwner)),
            );
        }
        let refusal = Failure::Error(ProgramError::Anker(AnkerError::InvalidTokenAccount));
        let account = self.read_token_account(refusal)?;
        if account.mint == solido.st_sol_mint {
            Ok(())
        } else {
            Err(refusal)
        }
    }
}

/// The seeds of the reserve authority of an instance at `address`.
pub open spec fn reserve_authority_seeds(anker: Anker, address: Address) -> SignerSeeds {
    SignerSeeds {
        derivation: Derivation { purpose: Purpose::ReserveAuthority, base: address },
        bump: anker.reserve_authority_bump_seed,
    }
}

/// The seeds of the stSOL reserve account of an instance at `address`.
pub open spec fn st_sol_reserve_seeds(anker: Anker, address: Address) -> SignerSeeds {
    SignerSeeds {
        derivation: Derivation { purpose: Purpose::StSolReserve, base: address },
        bump: anker.st_sol_reserve_account_bump_seed,
    }
}

/// The seeds of the UST reserve account of an instance at `address`.
pub open spec fn ust_reserve_seeds(anker: Anker, address: Address) -> SignerSeeds {
    SignerSeeds {
        derivation: Derivation { purpose: Purpose::UstReserve, base: address },
        bump: anker.ust_reserve_account_bump_seed,
    }
}

/// The seeds of the address of an instance.
pub open spec fn instance_seeds(anker: Anker) -> SignerSeeds {
    SignerSeeds {
        derivation: Derivation { purpose: Purpose::Instance, base: anker.solido },
        bump: anker.self_bump_seed,
    }
}

impl Anker {
    /// The Solido state, if the account is the one that this instance belongs to.
    pub open spec fn spec_read_solido(self, account: SolidoAccount) -> Result<Solido, Failure> {
        if account.key != self.solido {
            Err(anker_failure(AnkerError::InvalidSolidoInstance))
        } else {
            account.spec_deserialize_lido(self.solido_program_id)
        }
    }

    /// Reads the state of the Solido instance that this instance belongs to.
    pub fn read_solido(&self, account: &SolidoAccount) -> (r: Result<Solido, Failure>)
        ensures
            r == self.spec_read_solido(*account),
    {
        if account.key != self.solido {
            return Err(Failure::Error(ProgramError::Anker(AnkerError::InvalidSolidoInstance)));
        }
        account.deserialize_lido(&self.solido_program_id)
    }

    /// The bSOL mint is the one in the state, owned by the SPL token program.
    pub open spec fn spec_check_mint(self, key: Address, owner: Address) -> Result<(), Failure> {
        if owner == spec_token_program() && key == self.b_sol_mint {
            Ok(())
        } else {
            Err(anker_failure(AnkerError::InvalidTokenMint))
        }
    }

    /// Checks that an account is the bSOL mint.
    pub fn check_mint(&self, key: &Address, owner: &Address) -> (r: Result<(), Failure>)
        ensures
            r == self.spec_check_mint(*key, *owner),
    {
        if *owner == token_program() && *key == self.b_sol_mint {
            Ok(())
        } else {
            Err(Failure::Error(ProgramError::Anker(AnkerError::InvalidTokenMint)))
        }
    }

    /// Checks that an account is the reserve authority of the instance at `address`.
    pub fn check_reserve_authority(&self, program: &Address, address: &Address, key: &Address) -> (r:
        Result<(), Failure>)
        ensures
            r == spec_check_derived(reserve_authority_seeds(*self, *address), *program, *key),
    {
        let seeds = SignerSeeds {
            derivation: Derivation { purpose: Purpose::ReserveAuthority, base: *address },
            bump: self.reserve_authority_bump_seed,
        };
        seeds.check(program, key)
    }

    /// Checks that an account is the stSOL reserve of the instance at `address`.
    pub fn check_st_sol_reserve_address(
        &self,
        program: &Address,
        address: &Address,
        key: &Address,
    ) -> (r: Result<(), Failure>)
        ensures
            r == spec_check_derived(st_sol_reserve_seeds(*self, *address), *program, *key),
    {
        let seeds = SignerSeeds {
            derivation: Derivation { purpose: Purpose::StSolReserve, base: *address },
            bump: self.st_sol_reserve_account_bump_seed,
        };
        seeds.check(program, key)
    }

    /// Checks that an account is the UST reserve of the instance at `address`.
    pub fn check_ust_reserve_address(
        &self,
        program: &Address,
        address: &Address,
        key: &Address,
    ) -> (r: Result<(), Failure>)
        ensures
            r == spec_check_derived(ust_reserve_seeds(*self, *address), *program, *key),
    {
        let seeds = SignerSeeds {
            derivation: Derivation { purpose: Purpose::UstReserve, base: *address },
            bump: self.ust_reserve_account_bump_seed,
        };
        seeds.check(program, key)
    }

    /// Checks that an account lives at the address of this instance.
    pub fn check_self_address(&self, program: &Address, key: &Address) -> (r: Result<(), Failure>)
        ensures
            r == spec_check_derived(instance_seeds(*self), *program, *key),
    {
        let seeds = SignerSeeds {
            derivation: Derivation { purpose: Purpose::Instance, base: self.solido },
            bump: self.self_bump_seed,
        };
        seeds.check(program, key)
    }
}

/// The Solido state and the Anker state, if both accounts are what they should be: the
/// Anker account is owned by the program and lives at the address of its instance, and the
/// Solido account is the one of that instance.
pub open spec fn spec_deserialize_anker(
    program: Address,
    anker_account: Account,
    solido_account: SolidoAccount,
) -> Result<(Solido, Anker), Failure> {
    if anker_account.contents.owner != program {
        Err(anker_failure(AnkerError::InvalidOwner))
    } else {
        match Anker::spec_decode(anker_account.contents.data@) {
            Err(e) => Err(e),
            Ok(anker) => if spec_check_derived(
                instance_seeds(anker),
                program,
                anker_account.key,
            ) is Err {
                Err(anker_failure(AnkerError::InvalidDerivedAccount))
            } else {
                match anker.spec_read_solido(solido_account) {
                    Ok(solido) => Ok((solido, anker)),
                    Err(e) => Err(e),
                }
            },
        }
    }
}

/// Reads the states of an Anker instance and of its Solido instance.
pub fn deserialize_anker(
    program: &Address,
    anker_account: &Account,
    solido_account: &SolidoAccount,
) -> (r: Result<(Solido, Anker), Failure>)
    ensures
        r == spec_deserialize_anker(*program, *anker_account, *solido_account),
{
    if anker_account.contents.owner != *program {
        return Err(Failure::Error(ProgramError::Anker(AnkerError::InvalidOwner)));
    }
    let anker = Anker::read(anker_account.contents.data.as_slice())?;
    anker.check_self_address(program, &anker_account.key)?;
    let solido = anker.read_solido(solido_account)?;
    Ok((solido, anker))
}

} // verus!
