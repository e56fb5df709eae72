//! Amounts of SOL, stSOL and bSOL, and their arithmetic.

use crate::error::{lido_failure, Failure, LidoError, ProgramError};
use vstd::prelude::*;

verus! {

/// An amount of SOL, in units of 1e-9 SOL.
#[derive(Clone, Copy, Debug, PartialEq, Eq, Structural)]
pub struct Lamports(pub u64);

/// An amount of stSOL, in units of 1e-9 stSOL.
#[derive(Clone, Copy, Debug, PartialEq, Eq, Structural)]
pub struct StLamports(pub u64);

/// An amount of bSOL, in units of 1e-9 bSOL.
#[derive(Clone, Copy, Debug, PartialEq, Eq, Structural)]
pub struct BLamports(pub u64);

/// `amount * numerator / denominator`, rounded down. It fails where the denominator is
/// zero and where the result is no `u64`.
pub open spec fn scaled(amount: u64, numerator: u64, denominator: u64) -> Result<u64, Failure> {
    if denominator == 0 || amount * numerator / denominator as int > u64::MAX {
        Err(lido_failure(LidoError::CalculationFailure))
    } else {
        Ok((amount * numerator / denominator as int) as u64)
    }
}

/// Multiplies an amount by a fraction, rounding down.
pub fn scale(amount: u64, numerator: u64, denominator: u64) -> (r: Result<u64, Failure>)
    ensures
        r == scaled(amount, numerator, denominator),
{
    if denominator == 0 {
        return Err(Failure::Error(ProgramError::Lido(LidoError::CalculationFailure)));
    }
    assert(amount * numerator <= u64::MAX * u64::MAX) by (nonlinear_arith)
        requires
            0 <= amount <= u64::MAX,
            0 <= numerator <= u64::MAX,
    ;
    let product: u128 = amount as u128 * numerator as u128;
    let quotient: u128 = product / denominator as u128;
    if quotient > u64::MAX as u128 {
        Err(Failure::Error(ProgramError::Lido(LidoError::CalculationFailure)))
    } else {
        Ok(quotient as u64)
    }
}

impl StLamports {
    /// What is left after `other` is taken away. It fails where `other` is more.
    pub open spec fn spec_minus(self, other: StLamports) -> Result<StLamports, Failure> {
        if other.0 <= self.0 {
            Ok(StLamports((self.0 - other.0) as u64))
        } else {
            Err(lido_failure(LidoError::CalculationFailure))
        }
    }

    /// Takes `other` away.
    pub fn minus(&self, other: StLamports) -> (r: Result<StLamports, Failure>)
        ensures
            r == self.spec_minus(other),
    {
        if other.0 <= self.0 {
            Ok(StLamports(self.0 - other.0))
        } else {
            Err(Failure::Error(ProgramError::Lido(LidoError::CalculationFailure)))
        }
    }

    /// The lesser of two amounts.
    pub open spec fn spec_lesser(self, other: StLamports) -> StLamports {
        if self.0 <= other.0 {
            self
        } else {
            other
        }
    }

    /// The lesser of two amounts.
    pub fn lesser(&self, other: StLamports) -> (r: StLamports)
        ensures
            r == self.spec_lesser(other),
    {
        if self.0 <= other.0 {
            *self
        } else {
            other
        }
    }
}

/// The value of bytes, the least significant first.
pub open spec fn little_endian(bytes: Seq<u8>) -> nat
    decreases bytes.len(),
{
    if bytes.len() == 0 {
        0
    } else {
        bytes[0] as nat + 256 * little_endian(bytes.drop_first())
    }
}

/// The lowest `len` bytes of `value`, the least significant first.
pub open spec fn little_endian_bytes(value: nat, len: nat) -> Seq<u8>
    decreases len,
{
    if len == 0 {
        Seq::empty()
    } else {
        seq![(value % 256) as u8] + little_endian_bytes(value / 256, (len - 1) as nat)
    }
}

} // verus!
