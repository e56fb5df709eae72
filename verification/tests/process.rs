use anker::account::{deserialize_anker, Account, Contents};
use anker::action::{Action, End, Plan, Progress};
use anker::address::Address;
use anker::derived::{Derivation, Purpose, SignerSeeds, ORCA_TOKEN_SWAP_V2};
use anker::error::{Abort, AnkerError, BorshError, Failure, LidoError, ProgramError};
use anker::instruction::{
    AccountLists, ChangeTerraRewardsDestinationAccounts, ChangeTokenSwapPoolAccounts,
    DepositAccounts, InitializeAccounts, SellRewardsAccounts, WithdrawAccounts,
};
use anker::processor::{
    process, process_change_terra_rewards_destination, process_change_token_swap_pool,
    process_deposit, process_initialize, process_sell_rewards, process_withdraw, RENT_SYSVAR,
};
use anker::solido::{Signer, Solido, SolidoAccount, SolidoExchangeRate};
use anker::spl::{Instruction, TOKEN_PROGRAM};
use anker::state::{Anker, ANKER_LEN};
use anker::token::{BLamports, Lamports, StLamports};
use solana_program::program_option::COption;
use solana_program::program_pack::Pack;
use solana_program::pubkey::Pubkey;

const PROGRAM: Address = Address { bytes: [100; 32] };
const SOLIDO: Address = Address { bytes: [101; 32] };
const SOLIDO_PROGRAM: Address = Address { bytes: [102; 32] };
const ST_SOL_MINT: Address = Address { bytes: [103; 32] };
const B_SOL_MINT: Address = Address { bytes: [104; 32] };
const POOL: Address = Address { bytes: [105; 32] };
const TERRA: Address = Address { bytes: [106; 32] };
const MANAGER: Address = Address { bytes: [107; 32] };
const UST_MINT: Address = Address { bytes: [108; 32] };
const USER: Address = Address { bytes: [109; 32] };
const USER_ST_SOL: Address = Address { bytes: [110; 32] };
const USER_B_SOL: Address = Address { bytes: [111; 32] };
const TOKEN: Address = Address { bytes: TOKEN_PROGRAM };

fn anker_error(e: AnkerError) -> Failure {
    Failure::Error(ProgramError::Anker(e))
}

fn found(purpose: Purpose, base: Address) -> (Address, u8) {
    Derivation { purpose, base }.find(&PROGRAM).unwrap()
}

fn instance() -> Address {
    found(Purpose::Instance, SOLIDO).0
}

fn state() -> Anker {
    let orca = Pubkey::new_from_array(ORCA_TOKEN_SWAP_V2);
    Anker {
        b_sol_mint: B_SOL_MINT,
        solido_program_id: SOLIDO_PROGRAM,
        solido: SOLIDO,
        token_swap_pool: POOL,
        terra_rewards_destination: TERRA,
        self_bump_seed: found(Purpose::Instance, SOLIDO).1,
        mint_authority_bump_seed: found(Purpose::MintAuthority, instance()).1,
        reserve_authority_bump_seed: found(Purpose::ReserveAuthority, instance()).1,
        st_sol_reserve_account_bump_seed: found(Purpose::StSolReserve, instance()).1,
        ust_reserve_account_bump_seed: found(Purpose::UstReserve, instance()).1,
        token_swap_bump_seed: Pubkey::find_program_address(&[&POOL.bytes], &orca).1,
    }
}

fn solido() -> Solido {
    Solido {
        manager: MANAGER,
        st_sol_mint: ST_SOL_MINT,
        exchange_rate: SolidoExchangeRate {
            st_sol_supply: StLamports(1000),
            sol_balance: Lamports(1500),
        },
    }
}

fn solido_account() -> SolidoAccount {
    SolidoAccount { key: SOLIDO, owner: SOLIDO_PROGRAM, state: Ok(solido()) }
}

fn anker_account() -> Account {
    Account { key: instance(), contents: Contents { owner: PROGRAM, data: state().encode() } }
}

fn mint_contents(authority: Option<Address>, supply: u64) -> Contents {
    let mint = spl_token::state::Mint {
        mint_authority: match authority {
            Some(a) => COption::Some(Pubkey::new_from_array(a.bytes)),
            None => COption::None,
        },
        supply,
        decimals: 9,
        is_initialized: true,
        freeze_authority: COption::None,
    };
    let mut data = vec![0u8; spl_token::state::Mint::LEN];
    mint.pack_into_slice(&mut data);
    Contents { owner: TOKEN, data }
}

fn b_sol_mint(supply: u64) -> Account {
    let authority = found(Purpose::MintAuthority, instance()).0;
    Account { key: B_SOL_MINT, contents: mint_contents(Some(authority), supply) }
}

fn token_contents(mint: Address, amount: u64) -> Contents {
    let account = spl_token::state::Account {
        mint: Pubkey::new_from_array(mint.bytes),
        owner: Pubkey::new_from_array(USER.bytes),
        amount,
        delegate: COption::None,
        state: spl_token::state::AccountState::Initialized,
        is_native: COption::None,
        delegated_amount: 0,
        close_authority: COption::None,
    };
    let mut data = vec![0u8; spl_token::state::Account::LEN];
    account.pack_into_slice(&mut data);
    Contents { owner: TOKEN, data }
}

fn reserve(amount: u64) -> Account {
    Account {
        key: found(Purpose::StSolReserve, instance()).0,
        contents: token_contents(ST_SOL_MINT, amount),
    }
}

fn refused(plan: Plan, failure: Failure) {
    assert!(plan.actions.is_empty());
    match plan.end {
        End::Finish(outcome) => assert_eq!(outcome, Err(failure)),
        End::Inspect(_) => panic!("the plan goes on"),
    }
}

fn same_instruction(ours: &Instruction, theirs: &solana_program::instruction::Instruction) {
    assert_eq!(ours.program.bytes, theirs.program_id.to_bytes());
    assert_eq!(ours.data, theirs.data);
    assert_eq!(ours.accounts.len(), theirs.accounts.len());
    for (a, b) in ours.accounts.iter().zip(theirs.accounts.iter()) {
        assert_eq!(a.address.bytes, b.pubkey.to_bytes());
        assert_eq!(a.is_signer, b.is_signer);
        assert_eq!(a.is_writable, b.is_writable);
    }
}

fn their_transfer(
    from: Address,
    to: Address,
    authority: Address,
    amount: u64,
) -> solana_program::instruction::Instruction {
    spl_token::instruction::transfer(
        &spl_token::id(),
        &Pubkey::new_from_array(from.bytes),
        &Pubkey::new_from_array(to.bytes),
        &Pubkey::new_from_array(authority.bytes),
        &[],
        amount,
    )
    .unwrap()
}

fn deposit_accounts() -> DepositAccounts {
    DepositAccounts {
        anker: anker_account(),
        solido: solido_account(),
        from_account: USER_ST_SOL,
        user_authority: USER,
        to_reserve_account: reserve(0),
        spl_token: TOKEN,
    }
}

#[test]
fn deposit_transfers_and_mints() {
    let accounts = deposit_accounts();
    let plan = process_deposit(&PROGRAM, &accounts, StLamports(101));
    assert_eq!(plan.actions.len(), 2);
    match &plan.actions[0] {
        Action::Invoke { instruction, accounts: given, signer } => {
            let to = reserve(0).key;
            same_instruction(instruction, &their_transfer(USER_ST_SOL, to, USER, 101));
            assert_eq!(instruction.data, vec![3, 101, 0, 0, 0, 0, 0, 0, 0]);
            assert_eq!(*given, vec![USER_ST_SOL, to, USER, TOKEN]);
            assert_eq!(*signer, None);
        }
        _ => panic!("not a transfer"),
    }
    match plan.actions[1] {
        Action::MintBSolTo { program_id, anker, amount } => {
            assert_eq!(program_id, PROGRAM);
            assert_eq!(anker, state());
            assert_eq!(amount, BLamports(151));
        }
        _ => panic!("not a mint"),
    }
    assert!(matches!(plan.end, End::Finish(Ok(()))));
}

#[test]
fn empty_deposit_is_refused() {
    let failure = Failure::Error(ProgramError::InvalidArgument);
    refused(process_deposit(&PROGRAM, &deposit_accounts(), StLamports(0)), failure);
}

#[test]
fn deposit_without_a_rate_fails_after_the_transfer() {
    let mut accounts = deposit_accounts();
    let mut empty = solido();
    empty.exchange_rate.st_sol_supply = StLamports(0);
    accounts.solido.state = Ok(empty);
    let plan = process_deposit(&PROGRAM, &accounts, StLamports(5));
    assert_eq!(plan.actions.len(), 1);
    assert!(matches!(plan.actions[0], Action::Invoke { .. }));
    assert!(matches!(
        plan.end,
        End::Finish(Err(Failure::Error(ProgramError::Lido(LidoError::CalculationFailure))))
    ));
}

#[test]
fn deposit_checks_its_accounts() {
    let amount = StLamports(5);

    let mut accounts = deposit_accounts();
    accounts.anker.contents.owner = USER;
    refused(process_deposit(&PROGRAM, &accounts, amount), anker_error(AnkerError::InvalidOwner));

    let mut accounts = deposit_accounts();
    accounts.anker.contents.data.truncate(ANKER_LEN - 1);
    let short = Failure::Error(ProgramError::Borsh(BorshError::UnexpectedLength));
    refused(process_deposit(&PROGRAM, &accounts, amount), short);

    let derived = anker_error(AnkerError::InvalidDerivedAccount);
    let mut accounts = deposit_accounts();
    accounts.anker.key = USER;
    refused(process_deposit(&PROGRAM, &accounts, amount), derived);

    let mut accounts = deposit_accounts();
    accounts.solido.key = USER;
    let instance = anker_error(AnkerError::InvalidSolidoInstance);
    refused(process_deposit(&PROGRAM, &accounts, amount), instance);

    let mut accounts = deposit_accounts();
    accounts.solido.owner = USER;
    let owner = Failure::Error(ProgramError::Lido(LidoError::InvalidOwner));
    refused(process_deposit(&PROGRAM, &accounts, amount), owner);

    let mut accounts = deposit_accounts();
    accounts.solido.state = Err(ProgramError::Outside(77));
    let outside = Failure::Error(ProgramError::Outside(77));
    refused(process_deposit(&PROGRAM, &accounts, amount), outside);

    let mut accounts = deposit_accounts();
    accounts.to_reserve_account.key = USER_ST_SOL;
    refused(process_deposit(&PROGRAM, &accounts, amount), derived);

    let mut accounts = deposit_accounts();
    accounts.to_reserve_account.contents.owner = USER;
    let owner = anker_error(AnkerError::InvalidTokenAccountOwner);
    refused(process_deposit(&PROGRAM, &accounts, amount), owner);

    let mut accounts = deposit_accounts();
    accounts.to_reserve_account.contents = token_contents(UST_MINT, 0);
    let account = anker_error(AnkerError::InvalidTokenAccount);
    refused(process_deposit(&PROGRAM, &accounts, amount), account);

    let mut accounts = deposit_accounts();
    accounts.to_reserve_account.contents.data[108] = 3;
    refused(process_deposit(&PROGRAM, &accounts, amount), account);

    let mut accounts = deposit_accounts();
    accounts.to_reserve_account.contents.data.truncate(164);
    let abort = Failure::Abort(Abort::AccountDataTooShort);
    refused(process_deposit(&PROGRAM, &accounts, amount), abort);
}

fn withdraw_accounts(supply: u64, balance: u64) -> WithdrawAccounts {
    WithdrawAccounts {
        anker: anker_account(),
        solido: solido_account(),
        b_sol_mint: b_sol_mint(supply),
        reserve_account: reserve(balance),
        reserve_authority: found(Purpose::ReserveAuthority, instance()).0,
        to_st_sol_account: USER_ST_SOL,
        from_b_sol_account: USER_B_SOL,
        from_b_sol_authority: USER,
        spl_token: TOKEN,
    }
}

#[test]
fn withdrawal_pays_and_burns() {
    for (balance, paid) in [(700u64, 100u64), (500, 75)] {
        let accounts = withdraw_accounts(1000, balance);
        let plan = process_withdraw(&PROGRAM, &accounts, BLamports(150));
        assert_eq!(plan.actions.len(), 2);
        let (authority, bump) = found(Purpose::ReserveAuthority, instance());
        match &plan.actions[0] {
            Action::Invoke { instruction, accounts: given, signer } => {
                let from = reserve(0).key;
                same_instruction(instruction, &their_transfer(from, USER_ST_SOL, authority, paid));
                assert_eq!(*given, vec![from, USER_ST_SOL, authority, TOKEN]);
                let derivation =
                    Derivation { purpose: Purpose::ReserveAuthority, base: instance() };
                assert_eq!(*signer, Some(SignerSeeds { derivation, bump }));
            }
            _ => panic!("not a transfer"),
        }
        match plan.actions[1] {
            Action::BurnBSol { anker, spl_token, mint, from, authority, amount } => {
                assert_eq!(anker, state());
                assert_eq!(spl_token, TOKEN);
                assert_eq!(mint, B_SOL_MINT);
                assert_eq!(from, USER_B_SOL);
                assert_eq!(authority, USER);
                assert_eq!(amount, BLamports(150));
            }
            _ => panic!("nothing is burned"),
        }
        assert!(matches!(plan.end, End::Finish(Ok(()))));
    }
}

#[test]
fn withdrawal_checks_its_accounts() {
    let amount = BLamports(5);

    let mut accounts = withdraw_accounts(1000, 700);
    accounts.reserve_account.contents = token_contents(UST_MINT, 700);
    let account = anker_error(AnkerError::InvalidTokenAccount);
    refused(process_withdraw(&PROGRAM, &accounts, amount), account);

    let mint = anker_error(AnkerError::InvalidTokenMint);
    let mut accounts = withdraw_accounts(1000, 700);
    accounts.b_sol_mint.key = UST_MINT;
    refused(process_withdraw(&PROGRAM, &accounts, amount), mint);

    let mut accounts = withdraw_accounts(1000, 700);
    accounts.b_sol_mint.contents.owner = USER;
    refused(process_withdraw(&PROGRAM, &accounts, amount), mint);

    let mut accounts = withdraw_accounts(1000, 700);
    accounts.b_sol_mint.contents.data[45] = 2;
    refused(process_withdraw(&PROGRAM, &accounts, amount), mint);

    let mut accounts = withdraw_accounts(1000, 700);
    accounts.b_sol_mint.contents.data.truncate(81);
    let abort = Failure::Abort(Abort::AccountDataTooShort);
    refused(process_withdraw(&PROGRAM, &accounts, amount), abort);

    let mut accounts = withdraw_accounts(1000, 700);
    accounts.reserve_authority = USER;
    let derived = anker_error(AnkerError::InvalidDerivedAccount);
    refused(process_withdraw(&PROGRAM, &accounts, amount), derived);

    let accounts = withdraw_accounts(0, 700);
    let failure = Failure::Error(ProgramError::Lido(LidoError::CalculationFailure));
    refused(process_withdraw(&PROGRAM, &accounts, amount), failure);
}

fn sell_rewards_accounts(supply: u64, balance: u64) -> SellRewardsAccounts {
    SellRewardsAccounts {
        anker: anker_account(),
        solido: solido_account(),
        b_sol_mint: b_sol_mint(supply),
        st_sol_reserve_account: reserve(balance),
    }
}

#[test]
fn rewards_are_swapped() {
    let plan = process_sell_rewards(&PROGRAM, &sell_rewards_accounts(1500, 1100));
    assert_eq!(plan.actions.len(), 1);
    match plan.actions[0] {
        Action::SwapRewards { program_id, anker, rewards } => {
            assert_eq!(program_id, PROGRAM);
            assert_eq!(anker, state());
            assert_eq!(rewards, StLamports(100));
        }
        _ => panic!("not a swap"),
    }
    assert!(matches!(plan.end, End::Finish(Ok(()))));
}

#[test]
fn rewards_are_refused() {
    let failure = Failure::Error(ProgramError::Lido(LidoError::CalculationFailure));
    refused(process_sell_rewards(&PROGRAM, &sell_rewards_accounts(1500, 999)), failure);

    let mut accounts = sell_rewards_accounts(1500, 1100);
    accounts.st_sol_reserve_account.key = USER;
    let derived = anker_error(AnkerError::InvalidDerivedAccount);
    refused(process_sell_rewards(&PROGRAM, &accounts), derived);

    let mut accounts = sell_rewards_accounts(1500, 1100);
    accounts.b_sol_mint.contents.data[0] = 9;
    let data = Failure::Error(ProgramError::InvalidAccountData);
    refused(process_sell_rewards(&PROGRAM, &accounts), data);

    let mut accounts = sell_rewards_accounts(1500, 1100);
    accounts.b_sol_mint.key = USER;
    let mint = anker_error(AnkerError::InvalidTokenMint);
    refused(process_sell_rewards(&PROGRAM, &accounts), mint);
}

fn saved(plan: Plan) -> Anker {
    assert_eq!(plan.actions.len(), 1);
    assert!(matches!(plan.end, End::Finish(Ok(()))));
    match plan.actions[0] {
        Action::SaveAnker { account, anker } => {
            assert_eq!(account, instance());
            anker
        }
        _ => panic!("nothing is saved"),
    }
}

fn change_terra_accounts(manager: Signer) -> ChangeTerraRewardsDestinationAccounts {
    ChangeTerraRewardsDestinationAccounts {
        anker: anker_account(),
        solido: solido_account(),
        manager,
        terra_rewards_destination: USER,
    }
}

#[test]
fn manager_changes_the_terra_rewards_destination() {
    let manager = Signer { key: MANAGER, is_signer: true };
    let accounts = change_terra_accounts(manager);
    let anker = saved(process_change_terra_rewards_destination(&PROGRAM, &accounts));
    let mut expected = state();
    expected.terra_rewards_destination = USER;
    assert_eq!(anker, expected);

    let accounts = change_terra_accounts(Signer { key: MANAGER, is_signer: false });
    let signature = Failure::Error(ProgramError::MissingRequiredSignature);
    refused(process_change_terra_rewards_destination(&PROGRAM, &accounts), signature);

    let accounts = change_terra_accounts(Signer { key: USER, is_signer: true });
    let wrong = Failure::Error(ProgramError::Lido(LidoError::InvalidManager));
    refused(process_change_terra_rewards_destination(&PROGRAM, &accounts), wrong);
}

fn change_pool_accounts(
    manager: Signer,
    token_swap_instance: Result<(), ProgramError>,
) -> ChangeTokenSwapPoolAccounts {
    ChangeTokenSwapPoolAccounts {
        anker: anker_account(),
        solido: solido_account(),
        manager,
        token_swap_pool: USER,
        token_swap_instance,
    }
}

#[test]
fn manager_changes_the_token_swap_pool() {
    let manager = Signer { key: MANAGER, is_signer: true };
    let accounts = change_pool_accounts(manager, Ok(()));
    let anker = saved(process_change_token_swap_pool(&PROGRAM, &accounts));
    let orca = Pubkey::new_from_array(ORCA_TOKEN_SWAP_V2);
    let mut expected = state();
    expected.token_swap_pool = USER;
    expected.token_swap_bump_seed = Pubkey::find_program_address(&[&USER.bytes], &orca).1;
    assert_eq!(anker, expected);

    let accounts = change_pool_accounts(manager, Err(ProgramError::Outside(5)));
    let outside = Failure::Error(ProgramError::Outside(5));
    refused(process_change_token_swap_pool(&PROGRAM, &accounts), outside);

    let accounts = change_pool_accounts(Signer { key: USER, is_signer: true }, Ok(()));
    let wrong = Failure::Error(ProgramError::Lido(LidoError::InvalidManager));
    refused(process_change_token_swap_pool(&PROGRAM, &accounts), wrong);
}

fn rent(len: usize) -> Account {
    Account {
        key: Address { bytes: RENT_SYSVAR },
        contents: Contents { owner: USER, data: vec![1; len] },
    }
}

fn initialize_accounts() -> InitializeAccounts {
    InitializeAccounts {
        anker: instance(),
        solido: solido_account(),
        solido_program: SOLIDO_PROGRAM,
        b_sol_mint: B_SOL_MINT,
        st_sol_mint: ST_SOL_MINT,
        ust_mint: UST_MINT,
        token_swap_pool: POOL,
        terra_rewards_destination: TERRA,
        reserve_authority: found(Purpose::ReserveAuthority, instance()).0,
        st_sol_reserve_account: found(Purpose::StSolReserve, instance()).0,
        ust_reserve_account: found(Purpose::UstReserve, instance()).0,
        sysvar_rent: rent(17),
    }
}

/// Runs a plan in which every action succeeds, up to the point where accounts are read
/// again, and finishes it with these accounts.
fn finish(plan: Plan, mint: Contents, reserve: Contents) -> Plan {
    let mut progress = plan.start();
    for _ in 0..20 {
        progress = match progress {
            Progress::Perform { rest, .. } => rest.resume(Ok(())),
            Progress::Inspect { check } => return check.finish(&mint, &reserve),
            Progress::Finish { .. } => panic!("the plan is over"),
        };
    }
    panic!("the plan does not end");
}

#[test]
fn initialization_creates_its_accounts() {
    let plan = process_initialize(&PROGRAM, &initialize_accounts());
    let seeds = |purpose: Purpose, base: Address| SignerSeeds {
        derivation: Derivation { purpose, base },
        bump: found(purpose, base).1,
    };
    let st_sol = seeds(Purpose::StSolReserve, instance());
    let ust = seeds(Purpose::UstReserve, instance());
    let st_sol_reserve = found(Purpose::StSolReserve, instance()).0;
    let ust_reserve = found(Purpose::UstReserve, instance()).0;
    let created = [
        (0usize, PROGRAM, instance(), ANKER_LEN, seeds(Purpose::Instance, SOLIDO)),
        (1, TOKEN, st_sol_reserve, 165, st_sol),
        (3, TOKEN, ust_reserve, 165, ust),
    ];
    assert_eq!(plan.actions.len(), 5);
    for (i, o, a, s, k) in created {
        match plan.actions[i] {
            Action::CreateAccount { owner, account, sysvar_rent, space, seeds } => {
                assert_eq!(sysvar_rent, Address { bytes: RENT_SYSVAR });
                assert_eq!((owner, account, space, seeds), (o, a, s, k));
            }
            _ => panic!("nothing is created"),
        }
    }
    for (i, a, m, k) in [(2usize, st_sol_reserve, ST_SOL_MINT, st_sol), (4, ust_reserve, UST_MINT, ust)]
    {
        match plan.actions[i] {
            Action::InitializeSplAccount { account, mint, seeds } => {
                assert_eq!((account, mint, seeds), (a, m, k));
            }
            _ => panic!("nothing is initialized"),
        }
    }
    assert!(matches!(plan.end, End::Inspect(_)));
}

#[test]
fn initialization_stores_the_instance() {
    let plan = process_initialize(&PROGRAM, &initialize_accounts());
    let anker = saved(finish(plan, b_sol_mint(0).contents, reserve(0).contents));
    assert_eq!(anker, state());

    // What was stored is what later instructions read.
    let mut data = vec![0u8; ANKER_LEN];
    assert_eq!(anker.save(&mut data), Ok(()));
    let stored = Account { key: instance(), contents: Contents { owner: PROGRAM, data } };
    assert_eq!(
        deserialize_anker(&PROGRAM, &stored, &solido_account()),
        Ok((solido(), state()))
    );
}

#[test]
fn created_accounts_are_signed_for() {
    let plan = process_initialize(&PROGRAM, &initialize_accounts());
    for action in &plan.actions {
        let (account, seeds) = match action {
            Action::CreateAccount { account, seeds, .. } => (account, seeds),
            Action::InitializeSplAccount { account, seeds, .. } => (account, seeds),
            _ => panic!("nothing is created"),
        };
        assert_eq!(seeds.check(&PROGRAM, account), Ok(()));
    }
}

#[test]
fn changed_instance_is_read_back() {
    let accounts = change_terra_accounts(Signer { key: MANAGER, is_signer: true });
    let changed = saved(process_change_terra_rewards_destination(&PROGRAM, &accounts));
    let mut stored = anker_account();
    assert_eq!(changed.save(&mut stored.contents.data), Ok(()));
    assert_eq!(
        deserialize_anker(&PROGRAM, &stored, &solido_account()),
        Ok((solido(), changed))
    );
}

#[test]
fn initialization_checks_before_it_starts() {
    let invalid = Failure::Error(ProgramError::InvalidArgument);
    let mut accounts = initialize_accounts();
    accounts.sysvar_rent = rent(16);
    refused(process_initialize(&PROGRAM, &accounts), invalid);

    let mut accounts = initialize_accounts();
    accounts.sysvar_rent.key = USER;
    refused(process_initialize(&PROGRAM, &accounts), invalid);

    let mut accounts = initialize_accounts();
    accounts.anker = USER;
    let derived = anker_error(AnkerError::InvalidDerivedAccount);
    refused(process_initialize(&PROGRAM, &accounts), derived);

    let mut accounts = initialize_accounts();
    accounts.solido_program = USER;
    let owner = Failure::Error(ProgramError::Lido(LidoError::InvalidOwner));
    refused(process_initialize(&PROGRAM, &accounts), owner);
}

#[test]
fn initialization_checks_before_it_stores() {
    let start = |accounts: InitializeAccounts| process_initialize(&PROGRAM, &accounts);
    let mint = anker_error(AnkerError::InvalidTokenMint);
    let derived = anker_error(AnkerError::InvalidDerivedAccount);

    let plan = start(initialize_accounts());
    refused(finish(plan, mint_contents(Some(USER), 0), reserve(0).contents), mint);

    let plan = start(initialize_accounts());
    refused(finish(plan, mint_contents(None, 0), reserve(0).contents), mint);

    let plan = start(initialize_accounts());
    let mut contents = b_sol_mint(0).contents;
    contents.owner = USER;
    refused(finish(plan, contents, reserve(0).contents), mint);

    let plan = start(initialize_accounts());
    let mut contents = b_sol_mint(0).contents;
    contents.data[45] = 7;
    refused(finish(plan, contents, reserve(0).contents), mint);

    let plan = start(initialize_accounts());
    let mut contents = b_sol_mint(0).contents;
    contents.data.truncate(10);
    let abort = Failure::Abort(Abort::AccountDataTooShort);
    refused(finish(plan, contents, reserve(0).contents), abort);

    let plan = start(initialize_accounts());
    let account = anker_error(AnkerError::InvalidTokenAccount);
    refused(finish(plan, b_sol_mint(0).contents, token_contents(UST_MINT, 0)), account);

    let mut accounts = initialize_accounts();
    accounts.st_sol_reserve_account = USER;
    refused(finish(start(accounts), b_sol_mint(0).contents, reserve(0).contents), derived);

    let mut accounts = initialize_accounts();
    accounts.ust_reserve_account = USER;
    refused(finish(start(accounts), b_sol_mint(0).contents, reserve(0).contents), derived);

    let mut accounts = initialize_accounts();
    accounts.reserve_authority = USER;
    refused(finish(start(accounts), b_sol_mint(0).contents, reserve(0).contents), derived);
}

#[test]
fn failed_action_ends_the_instruction() {
    let plan = process_deposit(&PROGRAM, &deposit_accounts(), StLamports(101));
    match plan.start() {
        Progress::Perform { action, rest } => {
            assert!(matches!(action, Action::Invoke { .. }));
            match rest.resume(Err(ProgramError::Outside(12))) {
                Progress::Finish { outcome } => {
                    assert_eq!(outcome, Err(Failure::Error(ProgramError::Outside(12))));
                }
                _ => panic!("the instruction goes on"),
            }
        }
        _ => panic!("nothing is performed"),
    }
}

#[test]
fn actions_are_performed_in_order() {
    let plan = process_deposit(&PROGRAM, &deposit_accounts(), StLamports(101));
    let rest = match plan.start() {
        Progress::Perform { action: Action::Invoke { .. }, rest } => rest,
        _ => panic!("no transfer"),
    };
    let rest = match rest.resume(Ok(())) {
        Progress::Perform { action: Action::MintBSolTo { .. }, rest } => rest,
        _ => panic!("no mint"),
    };
    assert!(matches!(rest.resume(Ok(())), Progress::Finish { outcome: Ok(()) }));
}

fn lists() -> AccountLists {
    AccountLists {
        initialize: Ok(initialize_accounts()),
        deposit: Ok(deposit_accounts()),
        withdraw: Ok(withdraw_accounts(1000, 700)),
        sell_rewards: Ok(sell_rewards_accounts(1500, 1100)),
        change_terra_rewards_destination: Ok(change_terra_accounts(Signer {
            key: MANAGER,
            is_signer: true,
        })),
        change_token_swap_pool: Ok(change_pool_accounts(
            Signer { key: MANAGER, is_signer: true },
            Ok(()),
        )),
    }
}

#[test]
fn instructions_are_told_apart() {
    let run = |input: &[u8]| process(&PROGRAM, &lists(), input);
    assert!(matches!(run(&[0]).end, End::Inspect(_)));
    let deposit = run(&[1, 101, 0, 0, 0, 0, 0, 0, 0]);
    assert!(matches!(deposit.actions[1], Action::MintBSolTo { amount: BLamports(151), .. }));
    let withdraw = run(&[2, 150, 0, 0, 0, 0, 0, 0, 0]);
    assert!(matches!(withdraw.actions[1], Action::BurnBSol { amount: BLamports(150), .. }));
    let sell = run(&[3]);
    assert!(matches!(sell.actions[0], Action::SwapRewards { rewards: StLamports(100), .. }));
    assert_eq!(saved(run(&[4])).terra_rewards_destination, USER);
    assert_eq!(saved(run(&[5])).token_swap_pool, USER);
    let unknown = Failure::Error(ProgramError::Borsh(BorshError::UnexpectedVariant(6)));
    refused(run(&[6]), unknown);
}

#[test]
fn unreadable_accounts_are_refused() {
    let few = ProgramError::Outside(11);
    let none = AccountLists {
        initialize: Err(few),
        deposit: Err(few),
        withdraw: Err(few),
        sell_rewards: Err(few),
        change_terra_rewards_destination: Err(few),
        change_token_swap_pool: Err(few),
    };
    let inputs: [&[u8]; 6] = [
        &[0],
        &[1, 1, 0, 0, 0, 0, 0, 0, 0],
        &[2, 1, 0, 0, 0, 0, 0, 0, 0],
        &[3],
        &[4],
        &[5],
    ];
    for input in inputs {
        refused(process(&PROGRAM, &none, input), Failure::Error(few));
    }
}

#[test]
fn only_the_list_of_the_instruction_counts() {
    let mut accounts = lists();
    accounts.initialize = Err(ProgramError::Outside(1));
    accounts.withdraw = Err(ProgramError::Outside(2));
    accounts.sell_rewards = Err(ProgramError::Outside(3));
    accounts.change_terra_rewards_destination = Err(ProgramError::Outside(4));
    accounts.change_token_swap_pool = Err(ProgramError::Outside(5));
    let plan = process(&PROGRAM, &accounts, &[1, 101, 0, 0, 0, 0, 0, 0, 0]);
    assert_eq!(plan.actions.len(), 2);

    accounts.deposit = Err(ProgramError::Outside(6));
    let short = Failure::Error(ProgramError::Borsh(BorshError::UnexpectedLength));
    refused(process(&PROGRAM, &accounts, &[]), short);
}

/// The lists, with this as the data of the instance.
fn lists_with(data: &[u8]) -> AccountLists {
    let stored = || Account {
        key: instance(),
        contents: Contents { owner: PROGRAM, data: data.to_vec() },
    };
    let mut accounts = lists();
    for anker in [
        accounts.deposit.as_mut().map(|list| &mut list.anker),
        accounts.withdraw.as_mut().map(|list| &mut list.anker),
        accounts.sell_rewards.as_mut().map(|list| &mut list.anker),
        accounts.change_terra_rewards_destination.as_mut().map(|list| &mut list.anker),
        accounts.change_token_swap_pool.as_mut().map(|list| &mut list.anker),
    ] {
        *anker.unwrap() = stored();
    }
    accounts
}

/// Runs an instruction in which every action succeeds, on an instance that exists.
fn run_on(data: &mut Vec<u8>, input: &[u8]) {
    let plan = process(&PROGRAM, &lists_with(data), input);
    assert!(matches!(plan.end, End::Finish(Ok(()))));
    for action in &plan.actions {
        if let Action::SaveAnker { account, anker } = action {
            assert_eq!(*account, instance());
            assert_eq!(anker.save(data), Ok(()));
        }
    }
}

#[test]
fn initialized_instance_stays_the_same() {
    let plan = process(&PROGRAM, &lists(), &[0]);
    let initial = saved(finish(plan, b_sol_mint(0).contents, reserve(0).contents));
    let mut data = vec![0u8; ANKER_LEN];
    assert_eq!(initial.save(&mut data), Ok(()));

    run_on(&mut data, &[1, 101, 0, 0, 0, 0, 0, 0, 0]);
    run_on(&mut data, &[2, 150, 0, 0, 0, 0, 0, 0, 0]);
    run_on(&mut data, &[3]);
    assert_eq!(Anker::read(&data), Ok(initial));

    run_on(&mut data, &[4]);
    let mut expected = initial;
    expected.terra_rewards_destination = USER;
    assert_eq!(Anker::read(&data), Ok(expected));

    run_on(&mut data, &[2, 150, 0, 0, 0, 0, 0, 0, 0]);
    assert_eq!(Anker::read(&data), Ok(expected));

    run_on(&mut data, &[5]);
    let orca = Pubkey::new_from_array(ORCA_TOKEN_SWAP_V2);
    expected.token_swap_pool = USER;
    expected.token_swap_bump_seed = Pubkey::find_program_address(&[&USER.bytes], &orca).1;
    assert_eq!(Anker::read(&data), Ok(expected));
}

#[test]
fn refused_change_leaves_the_instance() {
    let data = state().encode();
    let mut accounts = lists_with(&data);
    if let Ok(list) = accounts.change_terra_rewards_destination.as_mut() {
        list.manager.is_signer = false;
    }
    let signature = Failure::Error(ProgramError::MissingRequiredSignature);
    refused(process(&PROGRAM, &accounts, &[4]), signature);
}
