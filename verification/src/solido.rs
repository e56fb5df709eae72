//! What the program reads of the Solido instance that it belongs to.

use crate::address::Address;
use crate::error::{lido_failure, Failure, LidoError, ProgramError};
use crate::token::{scale, scaled, Lamports, StLamports};
use vstd::prelude::*;

verus! {

/// How much SOL Solido manages, and how much stSOL stands for it.
#[derive(Clone, Copy, Debug, PartialEq, Eq, Structural)]
pub struct SolidoExchangeRate {
    /// The amount of stSOL in existence.
    pub st_sol_supply: StLamports,
    /// The amount of SOL under management.
    pub sol_balance: Lamports,
}

impl SolidoExchangeRate {
    /// The stSOL that is worth `amount` SOL. While there is no stSOL, or no SOL that
    /// backs it, one stSOL counts as one SOL.
    pub open spec fn spec_exchange_sol(self, amount: Lamports) -> Result<StLamports, Failure> {
        if self.st_sol_supply.0 == 0 || self.sol_balance.0 == 0 {
            Ok(StLamports(amount.0))
        } else {
            match scaled(amount.0, self.st_sol_supply.0, self.sol_balance.0) {
                Ok(x) => Ok(StLamports(x)),
                Err(e) => Err(e),
            }
        }
    }

    /// Converts SOL to stSOL, rounding down.
    pub fn exchange_sol(&self, amount: Lamports) -> (r: Result<StLamports, Failure>)
        ensures
            r == self.spec_exchange_sol(amount),
    {
        if self.st_sol_supply.0 == 0 || self.sol_balance.0 == 0 {
            return Ok(StLamports(amount.0));
        }
        match scale(amount.0, self.st_sol_supply.0, self.sol_balance.0) {
            Ok(x) => Ok(StLamports(x)),
            Err(e) => Err(e),
        }
    }
}

/// The part of the Solido state that the program reads.
#[derive(Clone, Copy, Debug, PartialEq, Eq)]
pub struct Solido {
    /// Who manages the Solido instance.
    pub manager: Address,
    /// The mint of stSOL.
    pub st_sol_mint: Address,
    pub exchange_rate: SolidoExchangeRate,
}

/// An account that may sign the transaction.
#[derive(Clone, Copy, Debug, PartialEq, Eq)]
pub struct Signer {
    pub key: Address,
    pub is_signer: bool,
}

impl Solido {
    /// The manager is accepted where it is the one in the state, and signs.
    pub open spec fn spec_check_manager(self, manager: Signer) -> Result<(), Failure> {
        if manager.key != self.manager {
            Err(lido_failure(LidoError::InvalidManager))
        } else if !manager.is_signer {
            Err(Failure::Error(ProgramError::MissingRequiredSignature))
        } else {
            Ok(())
        }
    }

    /// Checks that `manager` is the manager of the Solido instance, and signs.
    pub fn check_manager(&self, manager: &Signer) -> (r: Result<(), Failure>)
        ensures
            r == self.spec_check_manager(*manager),
    {
        if manager.key != self.manager {
            Err(Failure::Error(ProgramError::Lido(LidoError::InvalidManager)))
        } else if !manager.is_signer {
            Err(Failure::Error(ProgramError::MissingRequiredSignature))
        } else {
            Ok(())
        }
    }
}

/// The account of a Solido instance.
#[derive(Clone, Copy, Debug, PartialEq, Eq)]
pub struct SolidoAccount {
    pub key: Address,
    /// The program that owns the account.
    pub owner: Address,
    /// What the data of the account reads as, or the error of reading it.
    pub state: Result<Solido, ProgramError>,
}

impl SolidoAccount {
    /// The state, if the account is owned by the program `program` and can be read.
    pub open spec fn spec_deserialize_lido(self, program: Address) -> Result<Solido, Failure> {
        if self.owner != program {
            Err(lido_failure(LidoError::InvalidOwner))
        } else {
            match self.state {
                Ok(solido) => Ok(solido),
                Err(e) => Err(Failure::Error(e)),
            }
        }
    }

    /// Hands out the state of an account that the program `program` owns.
    pub fn deserialize_lido(&self, program: &Address) -> (r: Result<Solido, Failure>)
        ensures
            r == self.spec_deserialize_lido(*program),
    {
        if self.owner != *program {
            return Err(Failure::Error(ProgramError::Lido(LidoError::InvalidOwner)));
        }
        match &self.state {
            Ok(solido) => Ok(*solido),
            Err(e) => Err(Failure::Error(*e)),
        }
    }
}

} // verus!
