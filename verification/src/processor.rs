//! What each instruction does.

use crate::account::{
    deserialize_anker, reserve_authority_seeds, spec_deserialize_anker, st_sol_reserve_seeds,
    ust_reserve_seeds, Account, Contents,
};
use crate::action::{Action, ActionView, End, Plan, PlanView};
use crate::address::Address;
use crate::derived::{
    spec_check_derived, Derivation, Purpose, SignerSeeds, ORCA_TOKEN_SWAP_V2,
};
use crate::error::{anker_failure, Abort, AnkerError, Failure, ProgramError};
use crate::exchange::ExchangeRate;
use crate::instruction::{
    AccountLists, AnkerInstruction, ChangeTerraRewardsDestinationAccounts,
    ChangeTokenSwapPoolAccounts, DepositAccounts, InitializeAccounts, SellRewardsAccounts,
    WithdrawAccounts,
};
use crate::solido::Solido;
use crate::spl::{
    spec_token_program, token_program, transfer, transfer_instruction, ACCOUNT_LEN,
};
use crate::state::{Anker, ANKER_LEN};
use crate::token::{BLamports, Lamports, StLamports};
use vstd::prelude::*;

verus! {

/// The address of the rent sysvar: `SysvarRent111111111111111111111111111111111`.
pub const RENT_SYSVAR: [u8; 32] = [
    6, 167, 213, 23, 25, 44, 92, 81, 33, 140, 201, 76, 61, 74, 241, 127,
    88, 218, 238, 8, 155, 161, 253, 68, 227, 219, 217, 138, 0, 0, 0, 0,
];

/// The least number of bytes that the rent sysvar takes.
pub const RENT_LEN: usize = 17;

/// The derived addresses that an initialization finds, each with its bump seed.
#[derive(Clone, Copy, Debug)]
pub struct Found {
    /// Where the instance lives.
    pub instance: (Address, u8),
    /// The authority that mints bSOL.
    pub mint_authority: (Address, u8),
    /// The authority over the reserve accounts.
    pub reserve_authority: (Address, u8),
    /// The account that holds the stSOL reserve.
    pub st_sol_reserve: (Address, u8),
    /// The account that holds the UST reserve.
    pub ust_reserve: (Address, u8),
}

/// What an initialization still needs, once its accounts are created: what it found, and
/// the accounts that it was given.
#[derive(Clone, Copy, Debug)]
pub struct InitializeCheck {
    pub program_id: Address,
    pub solido_state: Solido,
    pub found: Found,
    pub solido: Address,
    pub solido_program: Address,
    pub b_sol_mint: Address,
    pub token_swap_pool: Address,
    pub terra_rewards_destination: Address,
    pub reserve_authority: Address,
    pub st_sol_reserve_account: Address,
    pub ust_reserve_account: Address,
}

/// The action that moves `amount` tokens with a transfer of the SPL token program.
pub open spec fn transfer_action(
    source: Address,
    destination: Address,
    authority: Address,
    spl_token: Address,
    amount: StLamports,
    signer: Option<SignerSeeds>,
) -> ActionView {
    ActionView::Invoke {
        instruction: transfer_instruction(source, destination, authority, amount.0),
        accounts: seq![source, destination, authority, spl_token],
        signer,
    }
}

/// Puts together the transfer of `amount` tokens.
fn invoke_transfer(
    source: &Address,
    destination: &Address,
    authority: &Address,
    spl_token: &Address,
    amount: StLamports,
    signer: Option<SignerSeeds>,
) -> (r: Result<Action, ProgramError>)
    ensures
        r is Ok,
        r->Ok_0@ == transfer_action(*source, *destination, *authority, *spl_token, amount, signer),
{
    let instruction = transfer(source, destination, authority, amount.0)?;
    let accounts: Vec<Address> = vec![*source, *destination, *authority, *spl_token];
    assert(accounts@ =~= seq![*source, *destination, *authority, *spl_token]);
    Ok(Action::Invoke { instruction, accounts, signer })
}

/// Whether a deposit is accepted: the amount is not zero, the states can be read, and the
/// account to deposit to is the stSOL reserve of the instance.
pub open spec fn deposit_checks(
    program_id: Address,
    accounts: DepositAccounts,
    amount: StLamports,
) -> Result<(Solido, Anker), Failure> {
    if amount.0 == 0 {
        Err(Failure::Error(ProgramError::InvalidArgument))
    } else {
        match spec_deserialize_anker(program_id, accounts.anker, accounts.solido) {
            Err(e) => Err(e),
            Ok((solido, anker)) => match spec_check_st_sol_reserve(
                program_id,
                solido,
                anker,
                accounts.anker.key,
                accounts.to_reserve_account,
            ) {
                Err(e) => Err(e),
                Ok(_) => Ok((solido, anker)),
            },
        }
    }
}

/// An account is the stSOL reserve of the instance at `address` where it lives at the
/// derived address and holds stSOL.
pub open spec fn spec_check_st_sol_reserve(
    program_id: Address,
    solido: Solido,
    anker: Anker,
    address: Address,
    reserve: Account,
) -> Result<(), Failure> {
    match spec_check_derived(st_sol_reserve_seeds(anker, address), program_id, reserve.key) {
        Err(e) => Err(e),
        Ok(_) => reserve.contents.spec_check_is_st_sol_account(solido),
    }
}

/// An accepted deposit moves `amount` stSOL into the reserve, and then mints the bSOL that
/// it is worth at the rate of one bSOL per SOL. Where that bSOL cannot be calculated, the
/// instruction fails after the transfer.
pub open spec fn accepted_deposit(
    program_id: Address,
    solido: Solido,
    anker: Anker,
    accounts: DepositAccounts,
    amount: StLamports,
) -> PlanView {
    let payment = transfer_action(
        accounts.from_account,
        accounts.to_reserve_account.key,
        accounts.user_authority,
        accounts.spl_token,
        amount,
        None,
    );
    match ExchangeRate::spec_from_solido_pegged(solido).spec_exchange_st_sol(amount) {
        Err(e) => PlanView { actions: seq![payment], end: End::Finish(Err(e)) },
        Ok(b_sol_amount) => PlanView {
            actions: seq![
                payment,
                ActionView::MintBSolTo { program_id, anker, amount: b_sol_amount },
            ],
            end: End::Finish(Ok(())),
        },
    }
}

/// What a deposit does.
pub open spec fn deposit_plan(
    program_id: Address,
    accounts: DepositAccounts,
    amount: StLamports,
) -> PlanView {
    match deposit_checks(program_id, accounts, amount) {
        Err(e) => PlanView::refuse(e),
        Ok((solido, anker)) => accepted_deposit(program_id, solido, anker, accounts, amount),
    }
}

/// Checks that an account is the stSOL reserve of the instance at `address`.
fn check_st_sol_reserve(
    program_id: &Address,
    solido: &Solido,
    anker: &Anker,
    address: &Address,
    reserve: &Account,
) -> (r: Result<(), Failure>)
    ensures
        r == spec_check_st_sol_reserve(*program_id, *solido, *anker, *address, *reserve),
{
    anker.check_st_sol_reserve_address(program_id, address, &reserve.key)?;
    reserve.contents.check_is_st_sol_account(solido)
}

/// Checks a deposit.
fn check_deposit(program_id: &Address, accounts: &DepositAccounts, amount: StLamports) -> (r:
    Result<(Solido, Anker), Failure>)
    ensures
        r == deposit_checks(*program_id, *accounts, amount),
{
    if amount == StLamports(0) {
        return Err(Failure::Error(ProgramError::InvalidArgument));
    }
    let (solido, anker) = deserialize_anker(program_id, &accounts.anker, &accounts.solido)?;
    check_st_sol_reserve(
        program_id,
        &solido,
        &anker,
        &accounts.anker.key,
        &accounts.to_reserve_account,
    )?;
    Ok((solido, anker))
}

/// Plans a deposit that has passed its checks.
pub fn plan_deposit(
    program_id: &Address,
    solido: &Solido,
    anker: &Anker,
    accounts: &DepositAccounts,
    amount: StLamports,
) -> (r: Plan)
    ensures
        r@ == accepted_deposit(*program_id, *solido, *anker, *accounts, amount),
{
    let mut actions: Vec<Action> = Vec::new();
    match invoke_transfer(
        &accounts.from_account,
        &accounts.to_reserve_account.key,
        &accounts.user_authority,
        &accounts.spl_token,
        amount,
        None,
    ) {
        Ok(payment) => actions.push(payment),
        Err(e) => return Plan::refuse(Failure::Error(e)),
    }
    let exchange_rate = ExchangeRate::from_solido_pegged(solido);
    let end = match exchange_rate.exchange_st_sol(amount) {
        Ok(b_sol_amount) => {
            actions.push(
                Action::MintBSolTo { program_id: *program_id, anker: *anker, amount: b_sol_amount },
            );
            End::Finish(Ok(()))
        },
        Err(e) => End::Finish(Err(e)),
    };
    let r = Plan { actions, end };
    assert(r@.actions =~= accepted_deposit(
        *program_id,
        *solido,
        *anker,
        *accounts,
        amount,
    ).actions);
    r
}

/// Deposits an amount of stSOL, for bSOL in return.
pub fn process_deposit(program_id: &Address, accounts: &DepositAccounts, amount: StLamports) -> (r:
    Plan)
    ensures
        r@ == deposit_plan(*program_id, *accounts, amount),
{
    match check_deposit(program_id, accounts, amount) {
        Ok((solido, anker)) => plan_deposit(program_id, &solido, &anker, accounts, amount),
        Err(e) => Plan::refuse(e),
    }
}

/// The stSOL that `amount` bSOL is paid out as. At the pegged rate one bSOL is worth one
/// SOL; at the unpegged rate it is a share of the reserve. The lower of the two is paid.
pub open spec fn spec_withdraw_amount(
    solido: Solido,
    b_sol_supply: BLamports,
    reserve_balance: StLamports,
    amount: BLamports,
) -> Result<StLamports, Failure> {
    let pegged = ExchangeRate::spec_from_solido_pegged(solido).spec_exchange_b_sol(amount);
    let unpegged = ExchangeRate::spec_from_anker_unpegged(
        b_sol_supply,
        reserve_balance,
    ).spec_exchange_b_sol(amount);
    match (pegged, unpegged) {
        (Err(e), _) => Err(e),
        (_, Err(e)) => Err(e),
        (Ok(st_sol_solido), Ok(st_sol_anker)) => Ok(st_sol_solido.spec_lesser(st_sol_anker)),
    }
}

/// Calculates the stSOL that `amount` bSOL is paid out as.
///
/// If the value of stSOL ever drops, the reserve may not cover all bSOL at the pegged
/// rate. Then one bSOL counts as its share of the reserve, so that all stSOL can be
/// withdrawn, and the loss is spread over the withdrawers until the peg is restored.
pub fn withdraw_amount(
    solido: &Solido,
    b_sol_supply: BLamports,
    reserve_balance: StLamports,
    amount: BLamports,
) -> (r: Result<StLamports, Failure>)
    ensures
        r == spec_withdraw_amount(*solido, b_sol_supply, reserve_balance, amount),
{
    let exchange_rate_solido = ExchangeRate::from_solido_pegged(solido);
    let exchange_rate_anker = ExchangeRate::from_anker_unpegged(b_sol_supply, reserve_balance);
    let st_sol_solido = exchange_rate_solido.exchange_b_sol(amount)?;
    let st_sol_anker = exchange_rate_anker.exchange_b_sol(amount)?;
    Ok(st_sol_solido.lesser(st_sol_anker))
}

/// Whether a withdrawal is accepted, and what it reads: the states, the bSOL supply and
/// the balance of the reserve.
pub open spec fn withdraw_checks(program_id: Address, accounts: WithdrawAccounts) -> Result<
    (Solido, Anker, BLamports, StLamports),
    Failure,
> {
    let reserve = accounts.reserve_account.contents;
    let mint = accounts.b_sol_mint;
    match spec_deserialize_anker(program_id, accounts.anker, accounts.solido) {
        Err(e) => Err(e),
        Ok((solido, anker)) => if reserve.spec_check_is_st_sol_account(solido) is Err {
            Err(reserve.spec_check_is_st_sol_account(solido)->Err_0)
        } else if anker.spec_check_mint(mint.key, mint.contents.owner) is Err {
            Err(anker_failure(AnkerError::InvalidTokenMint))
        } else if spec_check_derived(
            reserve_authority_seeds(anker, accounts.anker.key),
            program_id,
            accounts.reserve_authority,
        ) is Err {
            Err(anker_failure(AnkerError::InvalidDerivedAccount))
        } else {
            match mint.contents.spec_read_mint(anker_failure(AnkerError::InvalidTokenMint)) {
                Err(e) => Err(e),
                Ok(mint_state) => match reserve.spec_read_token_account(
                    anker_failure(AnkerError::InvalidReserveAccount),
                ) {
                    Err(e) => Err(e),
                    Ok(reserve_state) => Ok(
                        (
                            solido,
                            anker,
                            BLamports(mint_state.supply),
                            StLamports(reserve_state.amount),
                        ),
                    ),
                },
            }
        },
    }
}

/// An accepted withdrawal pays `st_sol_amount` stSOL out of the reserve, signed by the
/// reserve authority, and then burns `amount` bSOL out of the account of the withdrawer,
/// signed by the authority over that account.
pub open spec fn accepted_withdrawal(
    anker: Anker,
    accounts: WithdrawAccounts,
    amount: BLamports,
    st_sol_amount: StLamports,
) -> PlanView {
    PlanView {
        actions: seq![
            transfer_action(
                accounts.reserve_account.key,
                accounts.to_st_sol_account,
                accounts.reserve_authority,
                accounts.spl_token,
                st_sol_amount,
                Some(reserve_authority_seeds(anker, accounts.anker.key)),
            ),
            ActionView::BurnBSol {
                anker,
                spl_token: accounts.spl_token,
                mint: accounts.b_sol_mint.key,
                from: accounts.from_b_sol_account,
                authority: accounts.from_b_sol_authority,
                amount,
            },
        ],
        end: End::Finish(Ok(())),
    }
}

/// What a withdrawal does.
pub open spec fn withdraw_plan(
    program_id: Address,
    accounts: WithdrawAccounts,
    amount: BLamports,
) -> PlanView {
    match withdraw_checks(program_id, accounts) {
        Err(e) => PlanView::refuse(e),
        Ok((solido, anker, b_sol_supply, reserve_balance)) => match spec_withdraw_amount(
            solido,
            b_sol_supply,
            reserve_balance,
            amount,
        ) {
            Err(e) => PlanView::refuse(e),
            Ok(st_sol_amount) => accepted_withdrawal(anker, accounts, amount, st_sol_amount),
        },
    }
}

/// Checks a withdrawal, and reads the amounts that it depends on.
fn check_withdraw(program_id: &Address, accounts: &WithdrawAccounts) -> (r: Result<
    (Solido, Anker, BLamports, StLamports),
    Failure,
>)
    ensures
        r == withdraw_checks(*program_id, *accounts),
{
    let (solido, anker) = deserialize_anker(program_id, &accounts.anker, &accounts.solido)?;
    accounts.reserve_account.contents.check_is_st_sol_account(&solido)?;
    anker.check_mint(&accounts.b_sol_mint.key, &accounts.b_sol_mint.contents.owner)?;
    anker.check_reserve_authority(
        program_id,
        &accounts.anker.key,
        &accounts.reserve_authority,
    )?;
    let mint = accounts.b_sol_mint.contents.read_mint(
        Failure::Error(ProgramError::Anker(AnkerError::InvalidTokenMint)),
    )?;
    let reserve = accounts.reserve_account.contents.read_token_account(
        Failure::Error(ProgramError::Anker(AnkerError::InvalidReserveAccount)),
    )?;
    Ok((solido, anker, BLamports(mint.supply), StLamports(reserve.amount)))
}

/// Plans a withdrawal that has passed its checks, and pays `st_sol_amount`.
pub fn plan_withdraw(
    anker: &Anker,
    accounts: &WithdrawAccounts,
    amount: BLamports,
    st_sol_amount: StLamports,
) -> (r: Plan)
    ensures
        r@ == accepted_withdrawal(*anker, *accounts, amount, st_sol_amount),
{
    let reserve_seeds = SignerSeeds {
        derivation: Derivation { purpose: Purpose::ReserveAuthority, base: accounts.anker.key },
        bump: anker.reserve_authority_bump_seed,
    };
    let mut actions: Vec<Action> = Vec::new();
    match invoke_transfer(
        &accounts.reserve_account.key,
        &accounts.to_st_sol_account,
        &accounts.reserve_authority,
        &accounts.spl_token,
        st_sol_amount,
        Some(reserve_seeds),
    ) {
        Ok(payment) => actions.push(payment),
        Err(e) => return Plan::refuse(Failure::Error(e)),
    }
    actions.push(
        Action::BurnBSol {
            anker: *anker,
            spl_token: accounts.spl_token,
            mint: accounts.b_sol_mint.key,
            from: accounts.from_b_sol_account,
            authority: accounts.from_b_sol_authority,
            amount,
        },
    );
    let r = Plan { actions, end: End::Finish(Ok(())) };
    assert(r@.actions =~= accepted_withdrawal(*anker, *accounts, amount, st_sol_amount).actions);
    r
}

/// Returns some bSOL, for the underlying stSOL.
pub fn process_withdraw(program_id: &Address, accounts: &WithdrawAccounts, amount: BLamports) -> (r:
    Plan)
    ensures
        r@ == withdraw_plan(*program_id, *accounts, amount),
{
    let (solido, anker, b_sol_supply, reserve_balance) = match check_withdraw(
        program_id,
        accounts,
    ) {
        Ok(read) => read,
        Err(e) => return Plan::refuse(e),
    };
    match withdraw_amount(&solido, b_sol_supply, reserve_balance, amount) {
        Ok(st_sol_amount) => plan_withdraw(&anker, accounts, amount, st_sol_amount),
        Err(e) => Plan::refuse(e),
    }
}

/// The stSOL in the reserve beyond what the bSOL supply is worth. It fails where the
/// reserve holds less than that.
pub open spec fn spec_rewards(
    solido: Solido,
    b_sol_supply: u64,
    reserve_st_sol: StLamports,
) -> Result<StLamports, Failure> {
    match solido.exchange_rate.spec_exchange_sol(Lamports(b_sol_supply)) {
        Err(e) => Err(e),
        Ok(st_sol_amount) => reserve_st_sol.spec_minus(st_sol_amount),
    }
}

/// Calculates the rewards that accrued in the reserve.
pub fn rewards(solido: &Solido, b_sol_supply: u64, reserve_st_sol: StLamports) -> (r: Result<
    StLamports,
    Failure,
>)
    ensures
        r == spec_rewards(*solido, b_sol_supply, reserve_st_sol),
{
    let st_sol_amount = solido.exchange_rate.exchange_sol(Lamports(b_sol_supply))?;
    reserve_st_sol.minus(st_sol_amount)
}

/// Whether rewards can be sold, and what that reads: the states, the bSOL supply and the
/// balance of the reserve.
pub open spec fn sell_rewards_checks(program_id: Address, accounts: SellRewardsAccounts) -> Result<
    (Solido, Anker, u64, StLamports),
    Failure,
> {
    let reserve = accounts.st_sol_reserve_account;
    let mint = accounts.b_sol_mint;
    let unreadable = Failure::Error(ProgramError::InvalidAccountData);
    match spec_deserialize_anker(program_id, accounts.anker, accounts.solido) {
        Err(e) => Err(e),
        Ok((solido, anker)) => match spec_check_st_sol_reserve(
            program_id,
            solido,
            anker,
            accounts.anker.key,
            reserve,
        ) {
            Err(e) => Err(e),
            Ok(_) => if anker.spec_check_mint(mint.key, mint.contents.owner) is Err {
                Err(anker_failure(AnkerError::InvalidTokenMint))
            } else {
                match mint.contents.spec_read_mint(unreadable) {
                    Err(e) => Err(e),
                    Ok(mint_state) => match reserve.contents.spec_read_token_account(unreadable) {
                        Err(e) => Err(e),
                        Ok(reserve_state) => Ok(
                            (solido, anker, mint_state.supply, StLamports(reserve_state.amount)),
                        ),
                    },
                }
            },
        },
    }
}

/// The plan that swaps rewards, and succeeds.
pub open spec fn swap_plan(program_id: Address, anker: Anker, rewards: StLamports) -> PlanView {
    PlanView {
        actions: seq![ActionView::SwapRewards { program_id, anker, rewards }],
        end: End::Finish(Ok(())),
    }
}

/// What selling the rewards does: all of them are swapped.
pub open spec fn sell_rewards_plan(
    program_id: Address,
    accounts: SellRewardsAccounts,
) -> PlanView {
    match sell_rewards_checks(program_id, accounts) {
        Err(e) => PlanView::refuse(e),
        Ok((solido, anker, b_sol_supply, reserve_st_sol)) => match spec_rewards(
            solido,
            b_sol_supply,
            reserve_st_sol,
        ) {
            Err(e) => PlanView::refuse(e),
            Ok(rewards) => swap_plan(program_id, anker, rewards),
        },
    }
}

/// Checks that rewards can be sold, and reads the amounts that they depend on.
fn check_sell_rewards(program_id: &Address, accounts: &SellRewardsAccounts) -> (r: Result<
    (Solido, Anker, u64, StLamports),
    Failure,
>)
    ensures
        r == sell_rewards_checks(*program_id, *accounts),
{
    let (solido, anker) = deserialize_anker(program_id, &accounts.anker, &accounts.solido)?;
    check_st_sol_reserve(
        program_id,
        &solido,
        &anker,
        &accounts.anker.key,
        &accounts.st_sol_reserve_account,
    )?;
    anker.check_mint(&accounts.b_sol_mint.key, &accounts.b_sol_mint.contents.owner)?;
    let unreadable = Failure::Error(ProgramError::InvalidAccountData);
    let mint = accounts.b_sol_mint.contents.read_mint(unreadable)?;
    let reserve = accounts.st_sol_reserve_account.contents.read_token_account(unreadable)?;
    Ok((solido, anker, mint.supply, StLamports(reserve.amount)))
}

/// Plans to swap rewards.
pub fn plan_sell_rewards(program_id: &Address, anker: Anker, rewards: StLamports) -> (r: Plan)
    ensures
        r@ == swap_plan(*program_id, anker, rewards),
{
    let r = Plan {
        actions: vec![Action::SwapRewards { program_id: *program_id, anker, rewards }],
        end: End::Finish(Ok(())),
    };
    assert(r@.actions =~= swap_plan(*program_id, anker, rewards).actions);
    r
}

/// Sells the rewards of the instance.
pub fn process_sell_rewards(program_id: &Address, accounts: &SellRewardsAccounts) -> (r: Plan)
    ensures
        r@ == sell_rewards_plan(*program_id, *accounts),
{
    let (solido, anker, b_sol_supply, reserve_st_sol) = match check_sell_rewards(
        program_id,
        accounts,
    ) {
        Ok(read) => read,
        Err(e) => return Plan::refuse(e),
    };
    // Where the reserve does not cover the bSOL supply something went wrong, and there is
    // nothing to sell.
    match rewards(&solido, b_sol_supply, reserve_st_sol) {
        Ok(rewards) => plan_sell_rewards(program_id, anker, rewards),
        Err(e) => Plan::refuse(e),
    }
}

/// The plan that stores a state in `account`, and succeeds.
pub open spec fn save_plan(account: Address, anker: Anker) -> PlanView {
    PlanView { actions: seq![ActionView::SaveAnker { account, anker }], end: End::Finish(Ok(())) }
}

/// Plans to store a state.
fn plan_save(account: Address, anker: Anker) -> (r: Plan)
    ensures
        r@ == save_plan(account, anker),
{
    let r = Plan {
        actions: vec![Action::SaveAnker { account, anker }],
        end: End::Finish(Ok(())),
    };
    assert(r@.actions =~= save_plan(account, anker).actions);
    r
}

/// What changing the Terra rewards destination does: the manager of Solido may set it.
pub open spec fn change_terra_rewards_destination_plan(
    program_id: Address,
    accounts: ChangeTerraRewardsDestinationAccounts,
) -> PlanView {
    match spec_deserialize_anker(program_id, accounts.anker, accounts.solido) {
        Err(e) => PlanView::refuse(e),
        Ok((solido, anker)) => match solido.spec_check_manager(accounts.manager) {
            Err(e) => PlanView::refuse(e),
            Ok(_) => save_plan(
                accounts.anker.key,
                Anker { terra_rewards_destination: accounts.terra_rewards_destination, ..anker },
            ),
        },
    }
}

/// Plans to store a state in `account` with another Terra rewards destination.
pub fn plan_change_terra_rewards_destination(
    account: Address,
    anker: &Anker,
    destination: Address,
) -> (r: Plan)
    ensures
        r@ == save_plan(account, Anker { terra_rewards_destination: destination, ..*anker }),
{
    let mut anker = *anker;
    anker.terra_rewards_destination = destination;
    plan_save(account, anker)
}

/// Changes the Terra rewards destination. The manager of Solido has to sign.
pub fn process_change_terra_rewards_destination(
    program_id: &Address,
    accounts: &ChangeTerraRewardsDestinationAccounts,
) -> (r: Plan)
    ensures
        r@ == change_terra_rewards_destination_plan(*program_id, *accounts),
{
    let (solido, anker) = match deserialize_anker(
        program_id,
        &accounts.anker,
        &accounts.solido,
    ) {
        Ok(states) => states,
        Err(e) => return Plan::refuse(e),
    };
    match solido.check_manager(&accounts.manager) {
        Ok(()) => {},
        Err(e) => return Plan::refuse(e),
    }
    plan_change_terra_rewards_destination(
        accounts.anker.key,
        &anker,
        accounts.terra_rewards_destination,
    )
}

/// The program of the token swap pools.
pub open spec fn spec_token_swap_program() -> Address {
    Address { bytes: ORCA_TOKEN_SWAP_V2 }
}

/// The seeds of the authority of a token swap pool.
pub open spec fn token_swap_derivation(pool: Address) -> Derivation {
    Derivation { purpose: Purpose::TokenSwapAuthority, base: pool }
}

/// Whether a token swap pool may be set: the states can be read, the manager of Solido
/// signs, and the pool is a token swap instance.
pub open spec fn change_token_swap_pool_checks(
    program_id: Address,
    accounts: ChangeTokenSwapPoolAccounts,
) -> Result<Anker, Failure> {
    match spec_deserialize_anker(program_id, accounts.anker, accounts.solido) {
        Err(e) => Err(e),
        Ok((solido, anker)) => match (
            solido.spec_check_manager(accounts.manager),
            accounts.token_swap_instance,
        ) {
            (Err(e), _) => Err(e),
            (_, Err(e)) => Err(Failure::Error(e)),
            (Ok(_), Ok(_)) => Ok(anker),
        },
    }
}

/// What changing the token swap pool does: the pool is set together with the bump seed of
/// its authority.
pub open spec fn change_token_swap_pool_plan(
    program_id: Address,
    accounts: ChangeTokenSwapPoolAccounts,
) -> PlanView {
    match change_token_swap_pool_checks(program_id, accounts) {
        Err(e) => PlanView::refuse(e),
        Ok(anker) => match token_swap_derivation(accounts.token_swap_pool).spec_find(
            spec_token_swap_program(),
        ) {
            None => PlanView::refuse(Failure::Abort(Abort::NoViableBumpSeed)),
            Some((_, bump)) => save_plan(
                accounts.anker.key,
                Anker {
                    token_swap_pool: accounts.token_swap_pool,
                    token_swap_bump_seed: bump,
                    ..anker
                },
            ),
        },
    }
}

/// Checks that a token swap pool may be set.
fn check_change_token_swap_pool(
    program_id: &Address,
    accounts: &ChangeTokenSwapPoolAccounts,
) -> (r: Result<Anker, Failure>)
    ensures
        r == change_token_swap_pool_checks(*program_id, *accounts),
{
    let (solido, anker) = deserialize_anker(program_id, &accounts.anker, &accounts.solido)?;
    solido.check_manager(&accounts.manager)?;
    match &accounts.token_swap_instance {
        Ok(_) => Ok(anker),
        Err(e) => Err(Failure::Error(*e)),
    }
}

/// Searches the bump seed of the authority of a token swap pool.
fn find_token_swap_bump_seed(pool: &Address) -> (r: Result<u8, Failure>)
    ensures
        match token_swap_derivation(*pool).spec_find(spec_token_swap_program()) {
            Some((_, bump)) => r == Ok::<u8, Failure>(bump),
            None => r == Err::<u8, Failure>(Failure::Abort(Abort::NoViableBumpSeed)),
        },
{
    let derivation = Derivation { purpose: Purpose::TokenSwapAuthority, base: *pool };
    let (_, bump) = derivation.find(&Address { bytes: ORCA_TOKEN_SWAP_V2 })?;
    Ok(bump)
}

/// Plans to store a state in `account` with another token swap pool.
pub fn plan_change_token_swap_pool(
    account: Address,
    anker: &Anker,
    pool: Address,
    bump: u8,
) -> (r: Plan)
    ensures
        r@ == save_plan(
            account,
            Anker { token_swap_pool: pool, token_swap_bump_seed: bump, ..*anker },
        ),
{
    let mut anker = *anker;
    anker.token_swap_pool = pool;
    anker.token_swap_bump_seed = bump;
    plan_save(account, anker)
}

/// Changes the token swap pool. The manager of Solido has to sign.
pub fn process_change_token_swap_pool(
    program_id: &Address,
    accounts: &ChangeTokenSwapPoolAccounts,
) -> (r: Plan)
    ensures
        r@ == change_token_swap_pool_plan(*program_id, *accounts),
{
    let anker = match check_change_token_swap_pool(program_id, accounts) {
        Ok(anker) => anker,
        Err(e) => return Plan::refuse(e),
    };
    match find_token_swap_bump_seed(&accounts.token_swap_pool) {
        Ok(bump) => plan_change_token_swap_pool(
            accounts.anker.key,
            &anker,
            accounts.token_swap_pool,
            bump,
        ),
        Err(e) => Plan::refuse(e),
    }
}

/// Whether the account is the rent sysvar, and holds it.
pub open spec fn is_rent_sysvar(account: Account) -> bool {
    account.key@ == RENT_SYSVAR@ && account.contents.data@.len() >= RENT_LEN
}

/// `solana_program::rent::Rent::from_account_info`: whether the rent parameters can be
/// read from the account. The crate asks that the account is the rent sysvar, and reads
/// two numbers of eight bytes and one of one byte from the start of its data.
#[verifier::external_body]
fn read_rent(account: &Account) -> (r: bool)
    ensures
        r == is_rent_sysvar(*account),
{
    let key = solana_program::pubkey::Pubkey::new_from_array(account.key.bytes);
    let owner = solana_program::pubkey::Pubkey::new_from_array(account.contents.owner.bytes);
    let (mut lamports, mut data) = (0, account.contents.data.clone());
    let info = solana_program::account_info::AccountInfo::new(
        &key, false, false, &mut lamports, &mut data, &owner, false, 0,
    );
    <solana_program::rent::Rent as solana_program::sysvar::Sysvar>::from_account_info(&info).is_ok()
}

/// What an initialization finds for an Anker instance at `address`, or that it finds none.
pub open spec fn spec_find_all(
    program_id: Address,
    instance: (Address, u8),
) -> Result<Found, Failure> {
    let find = |purpose: Purpose|
        (Derivation { purpose, base: instance.0 }).spec_find(program_id);
    match (
        find(Purpose::MintAuthority),
        find(Purpose::ReserveAuthority),
        find(Purpose::StSolReserve),
        find(Purpose::UstReserve),
    ) {
        (
            Some(mint_authority),
            Some(reserve_authority),
            Some(st_sol_reserve),
            Some(ust_reserve),
        ) => Ok(
            Found { instance, mint_authority, reserve_authority, st_sol_reserve, ust_reserve },
        ),
        _ => Err(Failure::Abort(Abort::NoViableBumpSeed)),
    }
}

/// Searches the derived addresses of the Anker instance at `instance`.
fn find_all(program_id: &Address, instance: (Address, u8)) -> (r: Result<Found, Failure>)
    ensures
        r == spec_find_all(*program_id, instance),
{
    let base = instance.0;
    let mint_authority = (Derivation { purpose: Purpose::MintAuthority, base }).find(program_id)?;
    let reserve_authority = (Derivation { purpose: Purpose::ReserveAuthority, base }).find(
        program_id,
    )?;
    let st_sol_reserve = (Derivation { purpose: Purpose::StSolReserve, base }).find(program_id)?;
    let ust_reserve = (Derivation { purpose: Purpose::UstReserve, base }).find(program_id)?;
    Ok(Found { instance, mint_authority, reserve_authority, st_sol_reserve, ust_reserve })
}

/// Whether an initialization may start, and what it finds: the rent sysvar can be read, the
/// instance is to live at its derived address, and the Solido state can be read.
pub open spec fn initialize_checks(program_id: Address, accounts: InitializeAccounts) -> Result<
    (Solido, Found),
    Failure,
> {
    let instance = Derivation { purpose: Purpose::Instance, base: accounts.solido.key };
    if !is_rent_sysvar(accounts.sysvar_rent) {
        Err(Failure::Error(ProgramError::InvalidArgument))
    } else {
        match instance.spec_find(program_id) {
            None => Err(Failure::Abort(Abort::NoViableBumpSeed)),
            Some(found) => if found.0 != accounts.anker {
                Err(anker_failure(AnkerError::InvalidDerivedAccount))
            } else {
                match accounts.solido.spec_deserialize_lido(accounts.solido_program) {
                    Err(e) => Err(e),
                    Ok(solido) => match spec_find_all(program_id, found) {
                        Err(e) => Err(e),
                        Ok(found) => Ok((solido, found)),
                    },
                }
            },
        }
    }
}

/// The accounts that an initialization creates: the instance, and a token account for each
/// of the two reserves. Each is created and initialized under the signature of its own
/// address. Afterwards they are read again and checked.
pub open spec fn started_initialize(
    program_id: Address,
    accounts: InitializeAccounts,
    solido_state: Solido,
    found: Found,
) -> PlanView {
    let instance_seeds = SignerSeeds {
        derivation: Derivation { purpose: Purpose::Instance, base: accounts.solido.key },
        bump: found.instance.1,
    };
    let st_sol_seeds = SignerSeeds {
        derivation: Derivation { purpose: Purpose::StSolReserve, base: found.instance.0 },
        bump: found.st_sol_reserve.1,
    };
    let ust_seeds = SignerSeeds {
        derivation: Derivation { purpose: Purpose::UstReserve, base: found.instance.0 },
        bump: found.ust_reserve.1,
    };
    PlanView {
        actions: seq![
            ActionView::CreateAccount {
                owner: program_id,
                account: accounts.anker,
                sysvar_rent: accounts.sysvar_rent.key,
                space: ANKER_LEN,
                seeds: instance_seeds,
            },
            ActionView::CreateAccount {
                owner: spec_token_program(),
                account: accounts.st_sol_reserve_account,
                sysvar_rent: accounts.sysvar_rent.key,
                space: ACCOUNT_LEN,
                seeds: st_sol_seeds,
            },
            ActionView::InitializeSplAccount {
                account: accounts.st_sol_reserve_account,
                mint: accounts.st_sol_mint,
                seeds: st_sol_seeds,
            },
            ActionView::CreateAccount {
                owner: spec_token_program(),
                account: accounts.ust_reserve_account,
                sysvar_rent: accounts.sysvar_rent.key,
                space: ACCOUNT_LEN,
                seeds: ust_seeds,
            },
            ActionView::InitializeSplAccount {
                account: accounts.ust_reserve_account,
                mint: accounts.ust_mint,
                seeds: ust_seeds,
            },
        ],
        end: End::Inspect(
            InitializeCheck {
                program_id,
                solido_state,
                found,
                solido: accounts.solido.key,
                solido_program: accounts.solido_program,
                b_sol_mint: accounts.b_sol_mint,
                token_swap_pool: accounts.token_swap_pool,
                terra_rewards_destination: accounts.terra_rewards_destination,
                reserve_authority: accounts.reserve_authority,
                st_sol_reserve_account: accounts.st_sol_reserve_account,
                ust_reserve_account: accounts.ust_reserve_account,
            },
        ),
    }
}

/// What an initialization does, until its accounts are read again.
pub open spec fn initialize_plan(program_id: Address, accounts: InitializeAccounts) -> PlanView {
    match initialize_checks(program_id, accounts) {
        Err(e) => PlanView::refuse(e),
        Ok((solido, found)) => started_initialize(program_id, accounts, solido, found),
    }
}

/// Checks that an initialization may start.
fn check_initialize(program_id: &Address, accounts: &InitializeAccounts) -> (r: Result<
    (Solido, Found),
    Failure,
>)
    ensures
        r == initialize_checks(*program_id, *accounts),
{
    if !read_rent(&accounts.sysvar_rent) {
        return Err(Failure::Error(ProgramError::InvalidArgument));
    }
    let derivation = Derivation { purpose: Purpose::Instance, base: accounts.solido.key };
    let instance = derivation.find(program_id)?;
    if instance.0 != accounts.anker {
        return Err(Failure::Error(ProgramError::Anker(AnkerError::InvalidDerivedAccount)));
    }
    let solido = accounts.solido.deserialize_lido(&accounts.solido_program)?;
    let found = find_all(program_id, instance)?;
    Ok((solido, found))
}

/// Plans the accounts of an initialization, once its derived addresses are found.
pub fn plan_initialize(
    program_id: &Address,
    accounts: &InitializeAccounts,
    solido_state: &Solido,
    found: &Found,
) -> (r: Plan)
    ensures
        r@ == started_initialize(*program_id, *accounts, *solido_state, *found),
{
    let instance_seeds = SignerSeeds {
        derivation: Derivation { purpose: Purpose::Instance, base: accounts.solido.key },
        bump: found.instance.1,
    };
    let st_sol_seeds = SignerSeeds {
        derivation: Derivation { purpose: Purpose::StSolReserve, base: found.instance.0 },
        bump: found.st_sol_reserve.1,
    };
    let ust_seeds = SignerSeeds {
        derivation: Derivation { purpose: Purpose::UstReserve, base: found.instance.0 },
        bump: found.ust_reserve.1,
    };
    let actions: Vec<Action> = vec![
        Action::CreateAccount {
            owner: *program_id,
            account: accounts.anker,
            sysvar_rent: accounts.sysvar_rent.key,
            space: ANKER_LEN,
            seeds: instance_seeds,
        },
        Action::CreateAccount {
            owner: token_program(),
            account: accounts.st_sol_reserve_account,
            sysvar_rent: accounts.sysvar_rent.key,
            space: ACCOUNT_LEN,
            seeds: st_sol_seeds,
        },
        Action::InitializeSplAccount {
            account: accounts.st_sol_reserve_account,
            mint: accounts.st_sol_mint,
            seeds: st_sol_seeds,
        },
        Action::CreateAccount {
            owner: token_program(),
            account: accounts.ust_reserve_account,
            sysvar_rent: accounts.sysvar_rent.key,
            space: ACCOUNT_LEN,
            seeds: ust_seeds,
        },
        Action::InitializeSplAccount {
            account: accounts.ust_reserve_account,
            mint: accounts.ust_mint,
            seeds: ust_seeds,
        },
    ];
    let check = InitializeCheck {
        program_id: *program_id,
        solido_state: *solido_state,
        found: *found,
        solido: accounts.solido.key,
        solido_program: accounts.solido_program,
        b_sol_mint: accounts.b_sol_mint,
        token_swap_pool: accounts.token_swap_pool,
        terra_rewards_destination: accounts.terra_rewards_destination,
        reserve_authority: accounts.reserve_authority,
        st_sol_reserve_account: accounts.st_sol_reserve_account,
        ust_reserve_account: accounts.ust_reserve_account,
    };
    let r = Plan { actions, end: End::Inspect(check) };
    assert(r@.actions =~= started_initialize(
        *program_id,
        *accounts,
        *solido_state,
        *found,
    ).actions);
    r
}

/// Sets up an Anker instance for a Solido instance.
pub fn process_initialize(program_id: &Address, accounts: &InitializeAccounts) -> (r: Plan)
    ensures
        r@ == initialize_plan(*program_id, *accounts),
{
    match check_initialize(program_id, accounts) {
        Ok((solido, found)) => plan_initialize(program_id, accounts, &solido, &found),
        Err(e) => Plan::refuse(e),
    }
}

/// The program controls a mint where it can be read and its mint authority is the derived
/// one.
pub open spec fn spec_check_mint_authority(mint: Contents, mint_authority: Address) -> Result<
    (),
    Failure,
> {
    match mint.spec_read_mint(anker_failure(AnkerError::InvalidTokenMint)) {
        Err(e) => Err(e),
        Ok(state) => if state.mint_authority == Some(mint_authority) {
            Ok(())
        } else {
            Err(anker_failure(AnkerError::InvalidTokenMint))
        },
    }
}

/// Checks that the program controls a mint.
pub fn check_mint_authority(mint: &Contents, mint_authority: &Address) -> (r: Result<(), Failure>)
    ensures
        r == spec_check_mint_authority(*mint, *mint_authority),
{
    let refusal = Failure::Error(ProgramError::Anker(AnkerError::InvalidTokenMint));
    let state = mint.read_mint(refusal)?;
    match state.mint_authority {
        Some(authority) => if authority == *mint_authority {
            Ok(())
        } else {
            Err(refusal)
        },
        None => Err(refusal),
    }
}

impl InitializeCheck {
    /// The state of the new instance.
    pub open spec fn spec_anker(self, token_swap_bump_seed: u8) -> Anker {
        Anker {
            b_sol_mint: self.b_sol_mint,
            solido_program_id: self.solido_program,
            solido: self.solido,
            token_swap_pool: self.token_swap_pool,
            terra_rewards_destination: self.terra_rewards_destination,
            self_bump_seed: self.found.instance.1,
            mint_authority_bump_seed: self.found.mint_authority.1,
            reserve_authority_bump_seed: self.found.reserve_authority.1,
            st_sol_reserve_account_bump_seed: self.found.st_sol_reserve.1,
            ust_reserve_account_bump_seed: self.found.ust_reserve.1,
            token_swap_bump_seed,
        }
    }

    /// Whether the new instance may be stored: the accounts that were given are the ones
    /// that its state names, the stSOL reserve holds stSOL, and the program controls the
    /// bSOL mint.
    pub open spec fn spec_check_new(
        self,
        anker: Anker,
        b_sol_mint: Contents,
        st_sol_reserve: Contents,
    ) -> Result<(), Failure> {
        let address = self.found.instance.0;
        if anker.spec_check_mint(self.b_sol_mint, b_sol_mint.owner) is Err {
            Err(anker_failure(AnkerError::InvalidTokenMint))
        } else if {
            ||| spec_check_derived(
                st_sol_reserve_seeds(anker, address),
                self.program_id,
                self.st_sol_reserve_account,
            ) is Err
            ||| spec_check_derived(
                ust_reserve_seeds(anker, address),
                self.program_id,
                self.ust_reserve_account,
            ) is Err
            ||| spec_check_derived(
                reserve_authority_seeds(anker, address),
                self.program_id,
                self.reserve_authority,
            ) is Err
        } {
            Err(anker_failure(AnkerError::InvalidDerivedAccount))
        } else {
            match st_sol_reserve.spec_check_is_st_sol_account(self.solido_state) {
                Err(e) => Err(e),
                Ok(_) => spec_check_mint_authority(b_sol_mint, self.found.mint_authority.0),
            }
        }
    }

    /// What is left of an initialization, with what the bSOL mint and the stSOL reserve
    /// account hold by now: the new state is stored.
    pub open spec fn spec_finish(self, b_sol_mint: Contents, st_sol_reserve: Contents) -> PlanView {
        match token_swap_derivation(self.token_swap_pool).spec_find(spec_token_swap_program()) {
            None => PlanView::refuse(Failure::Abort(Abort::NoViableBumpSeed)),
            Some((_, bump)) => match self.spec_check_new(
                self.spec_anker(bump),
                b_sol_mint,
                st_sol_reserve,
            ) {
                Err(e) => PlanView::refuse(e),
                Ok(_) => save_plan(self.found.instance.0, self.spec_anker(bump)),
            },
        }
    }

    /// Puts together the state of the new instance.
    pub fn anker(&self, token_swap_bump_seed: u8) -> (r: Anker)
        ensures
            r == self.spec_anker(token_swap_bump_seed),
    {
        Anker {
            b_sol_mint: self.b_sol_mint,
            solido_program_id: self.solido_program,
            solido: self.solido,
            token_swap_pool: self.token_swap_pool,
            terra_rewards_destination: self.terra_rewards_destination,
            self_bump_seed: self.found.instance.1,
            mint_authority_bump_seed: self.found.mint_authority.1,
            reserve_authority_bump_seed: self.found.reserve_authority.1,
            st_sol_reserve_account_bump_seed: self.found.st_sol_reserve.1,
            ust_reserve_account_bump_seed: self.found.ust_reserve.1,
            token_swap_bump_seed,
        }
    }

    /// Checks the new instance.
    fn check_new(&self, anker: &Anker, b_sol_mint: &Contents, st_sol_reserve: &Contents) -> (r:
        Result<(), Failure>)
        ensures
            r == self.spec_check_new(*anker, *b_sol_mint, *st_sol_reserve),
    {
        let address = self.found.instance.0;
        anker.check_mint(&self.b_sol_mint, &b_sol_mint.owner)?;
        anker.check_st_sol_reserve_address(
            &self.program_id,
            &address,
            &self.st_sol_reserve_account,
        )?;
        anker.check_ust_reserve_address(&self.program_id, &address, &self.ust_reserve_account)?;
        anker.check_reserve_authority(&self.program_id, &address, &self.reserve_authority)?;
        st_sol_reserve.check_is_st_sol_account(&self.solido_state)?;
        check_mint_authority(b_sol_mint, &self.found.mint_authority.0)
    }

    /// Finishes an initialization, with what the bSOL mint and the stSOL reserve account
    /// hold after the accounts were created.
    pub fn finish(&self, b_sol_mint: &Contents, st_sol_reserve: &Contents) -> (r: Plan)
        ensures
            r@ == self.spec_finish(*b_sol_mint, *st_sol_reserve),
    {
        let bump: u8 = match find_token_swap_bump_seed(&self.token_swap_pool) {
            Ok(bump) => bump,
            Err(e) => return Plan::refuse(e),
        };
        let anker = self.anker(bump);
        match self.check_new(&anker, b_sol_mint, st_sol_reserve) {
            Ok(()) => plan_save(self.found.instance.0, anker),
            Err(e) => Plan::refuse(e),
        }
    }
}

/// What an instruction does: `input` says which one it is, and its accounts are read as
/// the list of that one.
pub open spec fn process_plan(program_id: Address, accounts: AccountLists, input: Seq<u8>) -> PlanView {
    match AnkerInstruction::spec_try_from_slice(input) {
        Err(e) => PlanView::refuse(Failure::Error(ProgramError::Borsh(e))),
        Ok(AnkerInstruction::Initialize) => match accounts.initialize {
            Err(e) => PlanView::refuse(Failure::Error(e)),
            Ok(list) => initialize_plan(program_id, list),
        },
        Ok(AnkerInstruction::Deposit { amount }) => match accounts.deposit {
            Err(e) => PlanView::refuse(Failure::Error(e)),
            Ok(list) => deposit_plan(program_id, list, amount),
        },
        Ok(AnkerInstruction::Withdraw { amount }) => match accounts.withdraw {
            Err(e) => PlanView::refuse(Failure::Error(e)),
            Ok(list) => withdraw_plan(program_id, list, amount),
        },
        Ok(AnkerInstruction::SellRewards) => match accounts.sell_rewards {
            Err(e) => PlanView::refuse(Failure::Error(e)),
            Ok(list) => sell_rewards_plan(program_id, list),
        },
        Ok(AnkerInstruction::ChangeTerraRewardsDestination) => {
            match accounts.change_terra_rewards_destination {
                Err(e) => PlanView::refuse(Failure::Error(e)),
                Ok(list) => change_terra_rewards_destination_plan(program_id, list),
            }
        },
        Ok(AnkerInstruction::ChangeTokenSwapPool) => match accounts.change_token_swap_pool {
            Err(e) => PlanView::refuse(Failure::Error(e)),
            Ok(list) => change_token_swap_pool_plan(program_id, list),
        },
    }
}

/// Processes an instruction.
pub fn process(program_id: &Address, accounts: &AccountLists, input: &[u8]) -> (r: Plan)
    ensures
        r@ == process_plan(*program_id, *accounts, input@),
{
    let instruction = match AnkerInstruction::try_from_slice(input) {
        Ok(instruction) => instruction,
        Err(e) => return Plan::refuse(Failure::Error(ProgramError::Borsh(e))),
    };
    match instruction {
        AnkerInstruction::Initialize => match &accounts.initialize {
            Ok(list) => process_initialize(program_id, list),
            Err(e) => Plan::refuse(Failure::Error(*e)),
        },
        AnkerInstruction::Deposit { amount } => match &accounts.deposit {
            Ok(list) => process_deposit(program_id, list, amount),
            Err(e) => Plan::refuse(Failure::Error(*e)),
        },
        AnkerInstruction::Withdraw { amount } => match &accounts.withdraw {
            Ok(list) => process_withdraw(program_id, list, amount),
            Err(e) => Plan::refuse(Failure::Error(*e)),
        },
        AnkerInstruction::SellRewards => match &accounts.sell_rewards {
            Ok(list) => process_sell_rewards(program_id, list),
            Err(e) => Plan::refuse(Failure::Error(*e)),
        },
        AnkerInstruction::ChangeTerraRewardsDestination => {
            match &accounts.change_terra_rewards_destination {
                Ok(list) => process_change_terra_rewards_destination(program_id, list),
                Err(e) => Plan::refuse(Failure::Error(*e)),
            }
        },
        AnkerInstruction::ChangeTokenSwapPool => match &accounts.change_token_swap_pool {
            Ok(list) => process_change_token_swap_pool(program_id, list),
            Err(e) => Plan::refuse(Failure::Error(*e)),
        },
    }
}

} // verus!
