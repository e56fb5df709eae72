//! The instructions of the program, how they are encoded, and the accounts that each of
//! them works on.

use crate::account::Account;
use crate::address::Address;
use crate::error::{BorshError, ProgramError};
use crate::solido::{Signer, SolidoAccount};
use crate::token::{little_endian, little_endian_bytes, BLamports, StLamports};
use vstd::prelude::*;
use vstd::slice::slice_subrange;

verus! {

/// An instruction to the program.
#[derive(Clone, Copy, Debug, PartialEq, Eq, Structural)]
pub enum AnkerInstruction {
    /// Set up an Anker instance for a Solido instance.
    Initialize,
    /// Deposit an amount of stSOL, and get bSOL in return.
    Deposit { amount: StLamports },
    /// Return some bSOL, and get back the underlying stSOL.
    Withdraw { amount: BLamports },
    /// Sell the rewards that accrued in the reserve.
    SellRewards,
    /// Change where rewards go on Terra.
    ChangeTerraRewardsDestination,
    /// Change the pool where rewards are sold.
    ChangeTokenSwapPool,
}

impl AnkerInstruction {
    /// The encoding: the number of the variant in one byte, then the amount, if there is
    /// one, in eight.
    pub open spec fn spec_encode(self) -> Seq<u8> {
        match self {
            AnkerInstruction::Initialize => seq![0u8],
            AnkerInstruction::Deposit { amount } => seq![1u8] + little_endian_bytes(
                amount.0 as nat,
                8,
            ),
            AnkerInstruction::Withdraw { amount } => seq![2u8] + little_endian_bytes(
                amount.0 as nat,
                8,
            ),
            AnkerInstruction::SellRewards => seq![3u8],
            AnkerInstruction::ChangeTerraRewardsDestination => seq![4u8],
            AnkerInstruction::ChangeTokenSwapPool => seq![5u8],
        }
    }

    /// The instruction that the whole of `input` encodes, or why it encodes none.
    pub open spec fn spec_try_from_slice(input: Seq<u8>) -> Result<AnkerInstruction, BorshError> {
        if input.len() == 0 {
            Err(BorshError::UnexpectedLength)
        } else if input[0] > 5 {
            Err(BorshError::UnexpectedVariant(input[0]))
        } else {
            let len: nat = if input[0] == 1 || input[0] == 2 {
                9
            } else {
                1
            };
            let amount = little_endian(input.subrange(1, 9)) as u64;
            if input.len() < len {
                Err(BorshError::UnexpectedLength)
            } else if input.len() > len {
                Err(BorshError::NotAllBytesRead)
            } else if input[0] == 0 {
                Ok(AnkerInstruction::Initialize)
            } else if input[0] == 1 {
                Ok(AnkerInstruction::Deposit { amount: StLamports(amount) })
            } else if input[0] == 2 {
                Ok(AnkerInstruction::Withdraw { amount: BLamports(amount) })
            } else if input[0] == 3 {
                Ok(AnkerInstruction::SellRewards)
            } else if input[0] == 4 {
                Ok(AnkerInstruction::ChangeTerraRewardsDestination)
            } else {
                Ok(AnkerInstruction::ChangeTokenSwapPool)
            }
        }
    }

    /// Decodes an instruction.
    pub fn try_from_slice(input: &[u8]) -> (r: Result<AnkerInstruction, BorshError>)
        ensures
            r == Self::spec_try_from_slice(input@),
    {
        if input.len() == 0 {
            return Err(BorshError::UnexpectedLength);
        }
        let tag: u8 = input[0];
        if tag > 5 {
            return Err(BorshError::UnexpectedVariant(tag));
        }
        if tag == 1 || tag == 2 {
            return match read_u64(slice_subrange(input, 1, input.len())) {
                Some(amount) => {
                    assert(input@.subrange(1, input@.len() as int) =~= input@.subrange(1, 9));
                    if tag == 1 {
                        Ok(AnkerInstruction::Deposit { amount: StLamports(amount) })
                    } else {
                        Ok(AnkerInstruction::Withdraw { amount: BLamports(amount) })
                    }
                },
                None => if input.len() < 9 {
                    Err(BorshError::UnexpectedLength)
                } else {
                    Err(BorshError::NotAllBytesRead)
                },
            };
        }
        if input.len() > 1 {
            return Err(BorshError::NotAllBytesRead);
        }
        if tag == 0 {
            Ok(AnkerInstruction::Initialize)
        } else if tag == 3 {
            Ok(AnkerInstruction::SellRewards)
        } else if tag == 4 {
            Ok(AnkerInstruction::ChangeTerraRewardsDestination)
        } else {
            Ok(AnkerInstruction::ChangeTokenSwapPool)
        }
    }
}

/// `borsh::BorshDeserialize::try_from_slice` for a `u64`: the value of exactly eight
/// bytes, the least significant first, or `None` where the crate returns an error, which
/// it does on any other number of bytes.
#[verifier::external_body]
fn read_u64(bytes: &[u8]) -> (r: Option<u64>)
    ensures
        r is Some <==> bytes@.len() == 8,
        r matches Some(value) ==> value as nat == little_endian(bytes@),
{
    borsh::BorshDeserialize::try_from_slice(bytes).ok()
}

/// The accounts of [`AnkerInstruction::Initialize`].
#[derive(Debug)]
pub struct InitializeAccounts {
    pub anker: Address,
    pub solido: SolidoAccount,
    pub solido_program: Address,
    pub b_sol_mint: Address,
    pub st_sol_mint: Address,
    pub ust_mint: Address,
    pub token_swap_pool: Address,
    pub terra_rewards_destination: Address,
    pub reserve_authority: Address,
    pub st_sol_reserve_account: Address,
    pub ust_reserve_account: Address,
    pub sysvar_rent: Account,
}

/// The accounts of [`AnkerInstruction::Deposit`].
#[derive(Debug)]
pub struct DepositAccounts {
    pub anker: Account,
    pub solido: SolidoAccount,
    pub from_account: Address,
    pub user_authority: Address,
    pub to_reserve_account: Account,
    pub spl_token: Address,
}

/// The accounts of [`AnkerInstruction::Withdraw`].
#[derive(Debug)]
pub struct WithdrawAccounts {
    pub anker: Account,
    pub solido: SolidoAccount,
    pub b_sol_mint: Account,
    pub reserve_account: Account,
    pub reserve_authority: Address,
    pub to_st_sol_account: Address,
    pub from_b_sol_account: Address,
    pub from_b_sol_authority: Address,
    pub spl_token: Address,
}

/// The accounts of [`AnkerInstruction::SellRewards`].
#[derive(Debug)]
pub struct SellRewardsAccounts {
    pub anker: Account,
    pub solido: SolidoAccount,
    pub b_sol_mint: Account,
    pub st_sol_reserve_account: Account,
}

/// The accounts of [`AnkerInstruction::ChangeTerraRewardsDestination`].
#[derive(Debug)]
pub struct ChangeTerraRewardsDestinationAccounts {
    pub anker: Account,
    pub solido: SolidoAccount,
    pub manager: Signer,
    pub terra_rewards_destination: Address,
}

/// The accounts of [`AnkerInstruction::ChangeTokenSwapPool`].
#[derive(Debug)]
pub struct ChangeTokenSwapPoolAccounts {
    pub anker: Account,
    pub solido: SolidoAccount,
    pub manager: Signer,
    pub token_swap_pool: Address,
    /// Whether the pool is a valid token swap instance, or the error of reading it.
    pub token_swap_instance: Result<(), ProgramError>,
}

/// The accounts that came with an instruction, read as the list of each instruction, or
/// the error of reading them so.
#[derive(Debug)]
pub struct AccountLists {
    pub initialize: Result<InitializeAccounts, ProgramError>,
    pub deposit: Result<DepositAccounts, ProgramError>,
    pub withdraw: Result<WithdrawAccounts, ProgramError>,
    pub sell_rewards: Result<SellRewardsAccounts, ProgramError>,
    pub change_terra_rewards_destination: Result<
        ChangeTerraRewardsDestinationAccounts,
        ProgramError,
    >,
    pub change_token_swap_pool: Result<ChangeTokenSwapPoolAccounts, ProgramError>,
}

} // verus!
