//! The exchange rate between bSOL and stSOL.

use crate::error::Failure;
use crate::solido::Solido;
use crate::token::{scale, scaled, BLamports, StLamports};
use vstd::prelude::*;

verus! {

/// A rate between bSOL and stSOL: the two amounts have the same value.
#[derive(Clone, Copy, Debug, PartialEq, Eq, Structural)]
pub struct ExchangeRate {
    pub st_sol_amount: StLamports,
    pub b_sol_amount: BLamports,
}

impl ExchangeRate {
    /// The rate at which one bSOL is worth one SOL.
    pub open spec fn spec_from_solido_pegged(solido: Solido) -> ExchangeRate {
        ExchangeRate {
            st_sol_amount: solido.exchange_rate.st_sol_supply,
            b_sol_amount: BLamports(solido.exchange_rate.sol_balance.0),
        }
    }

    /// The rate at which the bSOL supply is worth the stSOL reserve.
    pub open spec fn spec_from_anker_unpegged(
        b_sol_supply: BLamports,
        reserve_balance: StLamports,
    ) -> ExchangeRate {
        ExchangeRate { st_sol_amount: reserve_balance, b_sol_amount: b_sol_supply }
    }

    /// The bSOL that is worth `amount` stSOL, rounded down.
    pub open spec fn spec_exchange_st_sol(self, amount: StLamports) -> Result<BLamports, Failure> {
        match scaled(amount.0, self.b_sol_amount.0, self.st_sol_amount.0) {
            Ok(x) => Ok(BLamports(x)),
            Err(e) => Err(e),
        }
    }

    /// The stSOL that is worth `amount` bSOL, rounded down.
    pub open spec fn spec_exchange_b_sol(self, amount: BLamports) -> Result<StLamports, Failure> {
        match scaled(amount.0, self.st_sol_amount.0, self.b_sol_amount.0) {
            Ok(x) => Ok(StLamports(x)),
            Err(e) => Err(e),
        }
    }

    /// The rate at which one bSOL is worth one SOL.
    pub fn from_solido_pegged(solido: &Solido) -> (r: ExchangeRate)
        ensures
            r == Self::spec_from_solido_pegged(*solido),
    {
        ExchangeRate {
            st_sol_amount: solido.exchange_rate.st_sol_supply,
            b_sol_amount: BLamports(solido.exchange_rate.sol_balance.0),
        }
    }

    /// The rate at which one bSOL is the share of one in the bSOL supply of the reserve.
    pub fn from_anker_unpegged(b_sol_supply: BLamports, reserve_balance: StLamports) -> (r:
        ExchangeRate)
        ensures
            r == Self::spec_from_anker_unpegged(b_sol_supply, reserve_balance),
    {
        ExchangeRate { st_sol_amount: reserve_balance, b_sol_amount: b_sol_supply }
    }

    /// Converts stSOL to bSOL, rounding down.
    pub fn exchange_st_sol(&self, amount: StLamports) -> (r: Result<BLamports, Failure>)
        ensures
            r == self.spec_exchange_st_sol(amount),
    {
        match scale(amount.0, self.b_sol_amount.0, self.st_sol_amount.0) {
            Ok(x) => Ok(BLamports(x)),
            Err(e) => Err(e),
        }
    }

    /// Converts bSOL to stSOL, rounding down.
    pub fn exchange_b_sol(&self, amount: BLamports) -> (r: Result<StLamports, Failure>)
        ensures
            r == self.spec_exchange_b_sol(amount),
    {
        match scale(amount.0, self.st_sol_amount.0, self.b_sol_amount.0) {
            Ok(x) => Ok(StLamports(x)),
            Err(e) => Err(e),
        }
    }
}

} // verus!
