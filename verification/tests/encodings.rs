use anker::account::Contents;
use anker::address::Address;
use anker::error::{Abort, AnkerError, BorshError, Failure, ProgramError};
use anker::instruction::AnkerInstruction;
use anker::spl::{Mint, TokenAccount, TOKEN_PROGRAM};
use anker::state::{Anker, ANKER_LEN};
use anker::token::{BLamports, StLamports};
use borsh::BorshSerialize;
use solana_program::program_option::COption;
use solana_program::program_pack::Pack;
use solana_program::pubkey::Pubkey;

fn address(n: u8) -> Address {
    Address { bytes: [n; 32] }
}

fn sample() -> Anker {
    Anker {
        b_sol_mint: address(1),
        solido_program_id: address(2),
        solido: address(3),
        token_swap_pool: address(4),
        terra_rewards_destination: address(5),
        self_bump_seed: 250,
        mint_authority_bump_seed: 251,
        reserve_authority_bump_seed: 252,
        st_sol_reserve_account_bump_seed: 253,
        ust_reserve_account_bump_seed: 254,
        token_swap_bump_seed: 255,
    }
}

#[test]
fn state_is_encoded_as_borsh_does() {
    let a = sample();
    let tuple = (
        (a.b_sol_mint.bytes, a.solido_program_id.bytes, a.solido.bytes),
        (a.token_swap_pool.bytes, a.terra_rewards_destination.bytes),
        [250u8, 251, 252, 253, 254, 255],
    );
    assert_eq!(a.encode(), tuple.try_to_vec().unwrap());
    assert_eq!(a.encode().len(), ANKER_LEN);
}

#[test]
fn state_is_saved_and_read_back() {
    let mut data = vec![7u8; ANKER_LEN + 3];
    assert_eq!(sample().save(&mut data), Ok(()));
    assert_eq!(&data[..ANKER_LEN], sample().encode().as_slice());
    assert_eq!(&data[ANKER_LEN..], &[7, 7, 7]);
    assert_eq!(Anker::read(&data), Ok(sample()));
}

#[test]
fn state_needs_room() {
    let mut data = vec![7u8; ANKER_LEN - 1];
    assert_eq!(
        sample().save(&mut data),
        Err(ProgramError::Borsh(BorshError::WriteZero))
    );
    assert_eq!(data, vec![7u8; ANKER_LEN - 1]);
    assert_eq!(
        Anker::read(&data),
        Err(Failure::Error(ProgramError::Borsh(BorshError::UnexpectedLength)))
    );
}

#[test]
fn instructions_are_decoded() {
    let amount: u64 = 0x0102_0304_0506_0708;
    assert_eq!(AnkerInstruction::try_from_slice(&[0]), Ok(AnkerInstruction::Initialize));
    assert_eq!(
        AnkerInstruction::try_from_slice(&(1u8, amount).try_to_vec().unwrap()),
        Ok(AnkerInstruction::Deposit { amount: StLamports(amount) })
    );
    assert_eq!(
        AnkerInstruction::try_from_slice(&[2, 8, 7, 6, 5, 4, 3, 2, 1]),
        Ok(AnkerInstruction::Withdraw { amount: BLamports(amount) })
    );
    assert_eq!(AnkerInstruction::try_from_slice(&[3]), Ok(AnkerInstruction::SellRewards));
    assert_eq!(
        AnkerInstruction::try_from_slice(&[4]),
        Ok(AnkerInstruction::ChangeTerraRewardsDestination)
    );
    assert_eq!(
        AnkerInstruction::try_from_slice(&[5]),
        Ok(AnkerInstruction::ChangeTokenSwapPool)
    );
}

#[test]
fn other_bytes_are_no_instruction() {
    assert_eq!(AnkerInstruction::try_from_slice(&[]), Err(BorshError::UnexpectedLength));
    assert_eq!(
        AnkerInstruction::try_from_slice(&[6]),
        Err(BorshError::UnexpectedVariant(6))
    );
    assert_eq!(
        AnkerInstruction::try_from_slice(&[1, 0, 0, 0]),
        Err(BorshError::UnexpectedLength)
    );
    assert_eq!(
        AnkerInstruction::try_from_slice(&[2, 0, 0, 0, 0, 0, 0, 0, 0, 0]),
        Err(BorshError::NotAllBytesRead)
    );
    assert_eq!(AnkerInstruction::try_from_slice(&[3, 0]), Err(BorshError::NotAllBytesRead));
}

fn contents(data: Vec<u8>) -> Contents {
    Contents { owner: Address { bytes: TOKEN_PROGRAM }, data }
}

const REFUSAL: Failure = Failure::Error(ProgramError::Anker(AnkerError::InvalidTokenMint));

fn packed_mint(authority: COption<Pubkey>, supply: u64) -> Vec<u8> {
    let mint = spl_token::state::Mint {
        mint_authority: authority,
        supply,
        decimals: 9,
        is_initialized: true,
        freeze_authority: COption::None,
    };
    let mut data = vec![0u8; spl_token::state::Mint::LEN];
    mint.pack_into_slice(&mut data);
    data
}

#[test]
fn mint_is_read() {
    let data = packed_mint(COption::Some(Pubkey::new_from_array([9; 32])), 1234567890123);
    assert_eq!(
        contents(data).read_mint(REFUSAL),
        Ok(Mint { mint_authority: Some(address(9)), supply: 1234567890123 })
    );
    assert_eq!(
        contents(packed_mint(COption::None, 5)).read_mint(REFUSAL),
        Ok(Mint { mint_authority: None, supply: 5 })
    );
}

#[test]
fn mint_is_refused() {
    for at in [0usize, 45, 46] {
        let mut data = packed_mint(COption::None, 5);
        data[at] = 2;
        assert_eq!(contents(data).read_mint(REFUSAL), Err(REFUSAL));
    }
    assert_eq!(
        contents(vec![0; 81]).read_mint(REFUSAL),
        Err(Failure::Abort(Abort::AccountDataTooShort))
    );
}

fn packed_account(mint: u8, amount: u64) -> Vec<u8> {
    let account = spl_token::state::Account {
        mint: Pubkey::new_from_array([mint; 32]),
        owner: Pubkey::new_from_array([8; 32]),
        amount,
        delegate: COption::None,
        state: spl_token::state::AccountState::Initialized,
        is_native: COption::None,
        delegated_amount: 0,
        close_authority: COption::None,
    };
    let mut data = vec![0u8; spl_token::state::Account::LEN];
    account.pack_into_slice(&mut data);
    data
}

#[test]
fn token_account_is_read() {
    assert_eq!(
        contents(packed_account(6, 987654321)).read_token_account(REFUSAL),
        Ok(TokenAccount { mint: address(6), amount: 987654321 })
    );
}

#[test]
fn token_account_is_refused() {
    for (at, value) in [(72usize, 2u8), (108, 3), (109, 7), (129, 1), (130, 1)] {
        let mut data = packed_account(6, 1);
        data[at] = value;
        let expected = if at == 129 {
            Ok(TokenAccount { mint: address(6), amount: 1 })
        } else {
            Err(REFUSAL)
        };
        assert_eq!(contents(data).read_token_account(REFUSAL), expected);
    }
    assert_eq!(
        contents(vec![0; 164]).read_token_account(REFUSAL),
        Err(Failure::Abort(Abort::AccountDataTooShort))
    );
}
