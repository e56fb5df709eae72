//! What the program has from the SPL token program: the state of its mints and accounts,
//! and its transfer instruction.

use crate::address::{address_of, Address};
use crate::error::ProgramError;
use crate::token::{little_endian, little_endian_bytes};
use vstd::prelude::*;

verus! {

/// The address of the SPL token program:
/// `TokenkegQfeZyiNwAJbNbGKPFXCWuBvf9Ss623VQ5DA`.
pub const TOKEN_PROGRAM: [u8; 32] = [
    6, 221, 246, 225, 215, 101, 161, 147, 217, 203, 225, 70, 206, 235, 121, 172,
    28, 180, 133, 237, 95, 91, 55, 145, 58, 140, 245, 133, 126, 255, 0, 169,
];

/// The number of bytes that the state of a mint takes.
pub const MINT_LEN: usize = 82;

/// The number of bytes that the state of a token account takes.
pub const ACCOUNT_LEN: usize = 165;

/// The address of the SPL token program.
pub open spec fn spec_token_program() -> Address {
    Address { bytes: TOKEN_PROGRAM }
}

/// `spl_token::id`: the address of the SPL token program, which is `TOKEN_PROGRAM`.
#[verifier::external_body]
pub(crate) fn token_program() -> (r: Address)
    ensures
        r == spec_token_program(),
{
    Address { bytes: spl_token::id().to_bytes() }
}

/// What the program reads of a mint.
#[derive(Clone, Copy, Debug, PartialEq, Eq)]
pub struct Mint {
    /// Who may mint new tokens, if anyone.
    pub mint_authority: Option<Address>,
    /// The number of tokens in existence.
    pub supply: u64,
}

/// What the program reads of a token account.
#[derive(Clone, Copy, Debug, PartialEq, Eq)]
pub struct TokenAccount {
    /// The mint of the tokens.
    pub mint: Address,
    /// The number of tokens.
    pub amount: u64,
}

/// Whether the four bytes from `at` on tag an optional value as present.
pub open spec fn tagged_some(data: Seq<u8>, at: int) -> bool {
    data.subrange(at, at + 4) == seq![1u8, 0, 0, 0]
}

/// Whether the four bytes from `at` on tag an optional value as absent.
pub open spec fn tagged_none(data: Seq<u8>, at: int) -> bool {
    data.subrange(at, at + 4) == seq![0u8, 0, 0, 0]
}

/// Whether `data` starts with the state of a mint: the mint authority and the freeze
/// authority are each present or absent, and the initialized flag is zero or one.
pub open spec fn holds_mint(data: Seq<u8>) -> bool {
    &&& tagged_some(data, 0) || tagged_none(data, 0)
    &&& data[45] <= 1
    &&& tagged_some(data, 46) || tagged_none(data, 46)
}

/// Whether `data` starts with the state of a token account: the delegate, the native
/// reserve and the close authority are each present or absent, and the account is
/// uninitialized, initialized or frozen.
pub open spec fn holds_token_account(data: Seq<u8>) -> bool {
    &&& tagged_some(data, 72) || tagged_none(data, 72)
    &&& data[108] <= 2
    &&& tagged_some(data, 109) || tagged_none(data, 109)
    &&& tagged_some(data, 129) || tagged_none(data, 129)
}

/// The state of the mint that `data` starts with.
pub open spec fn mint_in(data: Seq<u8>) -> Mint {
    Mint {
        mint_authority: if tagged_some(data, 0) {
            Some(address_of(data.subrange(4, 36)))
        } else {
            None
        },
        supply: little_endian(data.subrange(36, 44)) as u64,
    }
}

/// The state of the token account that `data` starts with.
pub open spec fn token_account_in(data: Seq<u8>) -> TokenAccount {
    TokenAccount {
        mint: address_of(data.subrange(0, 32)),
        amount: little_endian(data.subrange(64, 72)) as u64,
    }
}

/// `spl_token::state::Mint::unpack_from_slice`: the mint authority and the supply of the
/// mint that the data starts with, or `None` where the crate returns an error. The crate
/// does not ask that the mint is initialized, and it panics on fewer bytes than a mint
/// takes.
#[verifier::external_body]
pub(crate) fn unpack_mint(data: &[u8]) -> (r: Option<Mint>)
    requires
        data@.len() >= MINT_LEN,
    ensures
        r == if holds_mint(data@) {
            Some(mint_in(data@))
        } else {
            None
        },
{
    let mint: spl_token::state::Mint =
        solana_program::program_pack::Pack::unpack_from_slice(data).ok()?;
    let mint_authority: Option<solana_program::pubkey::Pubkey> = mint.mint_authority.into();
    Some(Mint {
        mint_authority: mint_authority.map(|key| Address { bytes: key.to_bytes() }),
        supply: mint.supply,
    })
}

/// `spl_token::state::Account::unpack_from_slice`: the mint and the amount of the token
/// account that the data starts with, or `None` where the crate returns an error. The
/// crate does not ask that the account is initialized, and it panics on fewer bytes than
/// a token account takes.
#[verifier::external_body]
pub(crate) fn unpack_token_account(data: &[u8]) -> (r: Option<TokenAccount>)
    requires
        data@.len() >= ACCOUNT_LEN,
    ensures
        r == if holds_token_account(data@) {
            Some(token_account_in(data@))
        } else {
            None
        },
{
    let account: spl_token::state::Account =
        solana_program::program_pack::Pack::unpack_from_slice(data).ok()?;
    Some(TokenAccount {
        mint: Address { bytes: account.mint.to_bytes() },
        amount: account.amount,
    })
}

/// An account that an instruction to another program names.
#[derive(Clone, Copy, Debug, PartialEq, Eq)]
pub struct AccountMeta {
    pub address: Address,
    pub is_signer: bool,
    pub is_writable: bool,
}

/// An instruction to another program.
#[derive(Debug)]
pub struct Instruction {
    pub program: Address,
    pub accounts: Vec<AccountMeta>,
    pub data: Vec<u8>,
}

/// What an instruction to another program consists of.
#[verifier::ext_equal]
pub struct InstructionView {
    pub program: Address,
    pub accounts: Seq<AccountMeta>,
    pub data: Seq<u8>,
}

impl View for Instruction {
    type V = InstructionView;

    open spec fn view(&self) -> InstructionView {
        InstructionView { program: self.program, accounts: self.accounts@, data: self.data@ }
    }
}

/// The instruction that moves `amount` tokens out of `source` into `destination`, signed
/// by `authority`.
pub open spec fn transfer_instruction(
    source: Address,
    destination: Address,
    authority: Address,
    amount: u64,
) -> InstructionView {
    InstructionView {
        program: spec_token_program(),
        accounts: seq![
            AccountMeta { address: source, is_signer: false, is_writable: true },
            AccountMeta { address: destination, is_signer: false, is_writable: true },
            AccountMeta { address: authority, is_signer: true, is_writable: false },
        ],
        data: seq![3u8] + little_endian_bytes(amount as nat, 8),
    }
}

/// `spl_token::instruction::transfer`, for the SPL token program and without further
/// signers: the instruction of that transfer, with the tag 3 and the amount as its data.
/// The one error of the crate is an incorrect program id, for another token program, so
/// none comes here.
#[verifier::external_body]
pub(crate) fn transfer(
    source: &Address,
    destination: &Address,
    authority: &Address,
    amount: u64,
) -> (r: Result<Instruction, ProgramError>)
    ensures
        r is Ok,
        r->Ok_0@ == transfer_instruction(*source, *destination, *authority, amount),
{
    let key = |address: &Address| solana_program::pubkey::Pubkey::new_from_array(address.bytes);
    let (from, to, by) = (key(source), key(destination), key(authority));
    let made = spl_token::instruction::transfer(&spl_token::id(), &from, &to, &by, &[], amount)
        .map_err(|_| ProgramError::IncorrectProgramId)?;
    let meta = |m: solana_program::instruction::AccountMeta| AccountMeta {
        address: Address { bytes: m.pubkey.to_bytes() },
        is_signer: m.is_signer,
        is_writable: m.is_writable,
    };
    let program = Address { bytes: made.program_id.to_bytes() };
    let accounts = made.accounts.into_iter().map(meta).collect();
    Ok(Instruction { program, accounts, data: made.data })
}

} // verus!
