//! Laws of what each instruction comes to, stated over the bytes of its accounts.

use crate::account::spec_deserialize_anker;
use crate::action::{Action, ActionView, End, Plan, PlanView, Progress, ProgressView};
use crate::address::Address;
use crate::amount_laws::{
    amounts_are_exchanged_at_the_rate, covered_withdrawal_is_paid_at_the_peg, covers,
    rewards_leave_the_worth_of_all_b_sol, uncovered_withdrawal_is_paid_its_share,
    withdrawal_is_paid_the_most_within_peg_and_share,
};
use crate::derived::{
    Derivation, Purpose, SignerSeeds, ANKER_RESERVE_AUTHORITY, ANKER_STSOL_RESERVE_ACCOUNT,
    ORCA_TOKEN_SWAP_V2,
};
use crate::error::{Abort, AnkerError, BorshError, Failure, LidoError, ProgramError};
use crate::exchange::ExchangeRate;
use crate::instruction::{
    AccountLists, ChangeTerraRewardsDestinationAccounts, ChangeTokenSwapPoolAccounts,
    DepositAccounts, SellRewardsAccounts, WithdrawAccounts,
};
use crate::processor::{
    accepted_deposit, accepted_withdrawal, change_terra_rewards_destination_plan,
    change_token_swap_pool_plan, deposit_plan, initialize_plan, process_plan, save_plan,
    sell_rewards_plan, spec_rewards, spec_withdraw_amount, swap_plan, transfer_action,
    withdraw_checks, withdraw_plan,
};
use crate::reading_laws::{
    accounts_of_an_instance_are_told, b_sol_mint_is_told, belongs, eight_bytes_are_summed,
    highest_viable_bump_seed_is_found, instruction_is_read, is_found, is_instance, is_mint,
    is_solido, is_st_sol_account, is_unviable, manager_is_told, mint_is_read, number,
    st_sol_account_is_told, states_are_read, token_account_is_read, transfer_is_spelled_out,
};
use crate::solido::Solido;
use crate::spl::{AccountMeta, TOKEN_PROGRAM};
use crate::state::Anker;
use crate::token::{BLamports, StLamports};
use vstd::prelude::*;

verus! {

/// The plan does nothing, and fails with `failure`.
pub open spec fn is_refused(plan: PlanView, failure: Failure) -> bool {
    plan.actions.len() == 0 && plan.end == End::Finish(Err(failure))
}

/// The action moves `amount` tokens from `source` to `destination` through the SPL token
/// program, under the signature of `authority`, which the program gives itself with the
/// seeds of `signer`, if there are any.
pub open spec fn is_transfer(
    action: ActionView,
    source: Address,
    destination: Address,
    authority: Address,
    spl_token: Address,
    amount: int,
    signer: Option<SignerSeeds>,
) -> bool {
    &&& action matches ActionView::Invoke { instruction, accounts, signer: signed }
    &&& instruction.program.bytes == TOKEN_PROGRAM
    &&& instruction.accounts == seq![
        AccountMeta { address: source, is_signer: false, is_writable: true },
        AccountMeta { address: destination, is_signer: false, is_writable: true },
        AccountMeta { address: authority, is_signer: true, is_writable: false },
    ]
    &&& instruction.data.len() == 9
    &&& instruction.data[0] == 3
    &&& number(instruction.data.subrange(1, 9)) == amount
    &&& accounts == seq![source, destination, authority, spl_token]
    &&& signed == signer
}

/// The number of tokens that a transfer moves.
pub open spec fn moved(action: ActionView) -> int {
    number(action->Invoke_instruction.data.subrange(1, 9))
}

/// A transfer is put together as asked for.
pub proof fn transfer_moves_the_amount(
    source: Address,
    destination: Address,
    authority: Address,
    spl_token: Address,
    amount: StLamports,
    signer: Option<SignerSeeds>,
)
    ensures
        is_transfer(
            transfer_action(source, destination, authority, spl_token, amount, signer),
            source,
            destination,
            authority,
            spl_token,
            amount.0 as int,
            signer,
        ),
        moved(transfer_action(source, destination, authority, spl_token, amount, signer))
            == amount.0,
{
    transfer_is_spelled_out(source, destination, authority, amount.0);
}

/// The plans that refuse, that swap, and that store.
pub proof fn plans_are_spelled_out(
    program_id: Address,
    account: Address,
    anker: Anker,
    rewards: StLamports,
    failure: Failure,
)
    ensures
        is_refused(PlanView::refuse(failure), failure),
        swap_plan(program_id, anker, rewards).actions == seq![
            ActionView::SwapRewards { program_id, anker, rewards },
        ],
        swap_plan(program_id, anker, rewards).end == End::Finish(Ok(())),
        save_plan(account, anker).actions == seq![ActionView::SaveAnker { account, anker }],
        save_plan(account, anker).end == End::Finish(Ok(())),
{
}

/// A deposit that passed its checks moves the amount, and then mints bSOL: as much as the
/// deposited stSOL is worth in SOL at the rate of Solido, rounded down, and that depends
/// on nothing else. Where that is no `u64`, or there is no stSOL, it fails after the
/// transfer.
pub proof fn accepted_deposit_mints_its_worth(
    program_id: Address,
    solido: Solido,
    anker: Anker,
    accounts: DepositAccounts,
    amount: StLamports,
)
    ensures
        ({
            let plan = accepted_deposit(program_id, solido, anker, accounts, amount);
            let st_sol = solido.exchange_rate.st_sol_supply.0;
            let sol = solido.exchange_rate.sol_balance.0;
            let fails = st_sol == 0 || amount.0 * sol >= (u64::MAX + 1) * st_sol;
            &&& plan.actions.len() == if fails {
                1nat
            } else {
                2nat
            }
            &&& is_transfer(
                plan.actions[0],
                accounts.from_account,
                accounts.to_reserve_account.key,
                accounts.user_authority,
                accounts.spl_token,
                amount.0 as int,
                None,
            )
            &&& fails ==> plan.end == End::Finish(
                Err(Failure::Error(ProgramError::Lido(LidoError::CalculationFailure))),
            )
            &&& !fails ==> {
                &&& plan.end == End::Finish(Ok(()))
                &&& plan.actions[1] matches ActionView::MintBSolTo {
                    program_id: minter,
                    anker: instance,
                    amount: minted,
                }
                &&& minter == program_id
                &&& instance == anker
                &&& minted.0 * st_sol <= amount.0 * sol < (minted.0 + 1) * st_sol
            }
        }),
{
    let rate = ExchangeRate::spec_from_solido_pegged(solido);
    amounts_are_exchanged_at_the_rate(rate, amount, rate.spec_exchange_st_sol(amount)->Ok_0);
    transfer_moves_the_amount(
        accounts.from_account,
        accounts.to_reserve_account.key,
        accounts.user_authority,
        accounts.spl_token,
        amount,
        None,
    );
}

/// A deposit of some stSOL, into the stSOL reserve of an instance that can be read, moves
/// the stSOL and mints the bSOL that it is worth.
pub proof fn deposit_mints_its_worth(
    program_id: Address,
    accounts: DepositAccounts,
    amount: StLamports,
    solido: Solido,
    anker: Anker,
)
    requires
        amount.0 > 0,
        is_instance(program_id, accounts.anker, anker),
        is_solido(anker, accounts.solido, solido),
        belongs(
            program_id,
            accounts.anker.key,
            ANKER_STSOL_RESERVE_ACCOUNT@,
            anker.st_sol_reserve_account_bump_seed,
            accounts.to_reserve_account.key,
        ),
        is_st_sol_account(accounts.to_reserve_account.contents, solido),
    ensures
        ({
            let plan = deposit_plan(program_id, accounts, amount);
            let st_sol = solido.exchange_rate.st_sol_supply.0;
            let sol = solido.exchange_rate.sol_balance.0;
            let fails = st_sol == 0 || amount.0 * sol >= (u64::MAX + 1) * st_sol;
            &&& plan.actions.len() == if fails {
                1nat
            } else {
                2nat
            }
            &&& is_transfer(
                plan.actions[0],
                accounts.from_account,
                accounts.to_reserve_account.key,
                accounts.user_authority,
                accounts.spl_token,
                amount.0 as int,
                None,
            )
            &&& fails ==> plan.end == End::Finish(
                Err(Failure::Error(ProgramError::Lido(LidoError::CalculationFailure))),
            )
            &&& !fails ==> {
                &&& plan.end == End::Finish(Ok(()))
                &&& plan.actions[1] matches ActionView::MintBSolTo {
                    program_id: minter,
                    anker: instance,
                    amount: minted,
                }
                &&& minter == program_id
                &&& instance == anker
                &&& minted.0 * st_sol <= amount.0 * sol < (minted.0 + 1) * st_sol
            }
        }),
{
    states_are_read(program_id, accounts.anker, accounts.solido, solido, anker);
    accounts_of_an_instance_are_told(
        anker,
        program_id,
        accounts.anker.key,
        accounts.to_reserve_account.key,
    );
    st_sol_account_is_told(accounts.to_reserve_account.contents, solido);
    accepted_deposit_mints_its_worth(program_id, solido, anker, accounts, amount);
}

/// A deposit is refused, and does nothing, for an amount of zero, for states that cannot be
/// read, for an account that is not at the address of the reserve, and for one that holds
/// no stSOL, in this order.
pub proof fn deposit_is_refused(
    program_id: Address,
    accounts: DepositAccounts,
    amount: StLamports,
    solido: Solido,
    anker: Anker,
)
    ensures
        ({
            let plan = deposit_plan(program_id, accounts, amount);
            let reserve = accounts.to_reserve_account;
            let at_the_reserve = belongs(
                program_id,
                accounts.anker.key,
                ANKER_STSOL_RESERVE_ACCOUNT@,
                anker.st_sol_reserve_account_bump_seed,
                reserve.key,
            );
            let readable = is_instance(program_id, accounts.anker, anker) && is_solido(
                anker,
                accounts.solido,
                solido,
            );
            &&& amount.0 == 0 ==> is_refused(plan, Failure::Error(ProgramError::InvalidArgument))
            &&& amount.0 > 0 ==> (spec_deserialize_anker(
                program_id,
                accounts.anker,
                accounts.solido,
            ) matches Err(e) ==> is_refused(plan, e))
            &&& amount.0 > 0 && readable && !at_the_reserve ==> is_refused(
                plan,
                Failure::Error(ProgramError::Anker(AnkerError::InvalidDerivedAccount)),
            )
            &&& amount.0 > 0 && readable && at_the_reserve ==> (
            reserve.contents.spec_check_is_st_sol_account(solido) matches Err(e) ==> is_refused(
                plan,
                e,
            ))
        }),
{
    states_are_read(program_id, accounts.anker, accounts.solido, solido, anker);
    accounts_of_an_instance_are_told(
        anker,
        program_id,
        accounts.anker.key,
        accounts.to_reserve_account.key,
    );
}

/// A withdrawal that passed its checks moves what it is paid out of the reserve, and then
/// burns what was returned.
pub proof fn accepted_withdrawal_pays_and_burns(
    anker: Anker,
    accounts: WithdrawAccounts,
    amount: BLamports,
    paid: StLamports,
)
    ensures
        is_withdrawal(accepted_withdrawal(anker, accounts, amount, paid), anker, accounts, amount),
        moved(accepted_withdrawal(anker, accounts, amount, paid).actions[0]) == paid.0,
{
    transfer_moves_the_amount(
        accounts.reserve_account.key,
        accounts.to_st_sol_account,
        accounts.reserve_authority,
        accounts.spl_token,
        paid,
        Some(
            SignerSeeds {
                derivation: Derivation {
                    purpose: Purpose::ReserveAuthority,
                    base: accounts.anker.key,
                },
                bump: anker.reserve_authority_bump_seed,
            },
        ),
    );
}

/// The plan moves some stSOL out of the reserve to the withdrawer, signed by the reserve
/// authority of the instance, and then burns all the bSOL that is returned, and succeeds.
pub open spec fn is_withdrawal(
    plan: PlanView,
    anker: Anker,
    accounts: WithdrawAccounts,
    amount: BLamports,
) -> bool {
    &&& plan.actions.len() == 2
    &&& plan.end == End::Finish(Ok(()))
    &&& is_transfer(
        plan.actions[0],
        accounts.reserve_account.key,
        accounts.to_st_sol_account,
        accounts.reserve_authority,
        accounts.spl_token,
        moved(plan.actions[0]),
        Some(
            SignerSeeds {
                derivation: Derivation {
                    purpose: Purpose::ReserveAuthority,
                    base: accounts.anker.key,
                },
                bump: anker.reserve_authority_bump_seed,
            },
        ),
    )
    &&& plan.actions[1] == (ActionView::BurnBSol {
        anker,
        spl_token: accounts.spl_token,
        mint: accounts.b_sol_mint.key,
        from: accounts.from_b_sol_account,
        authority: accounts.from_b_sol_authority,
        amount,
    })
}

/// The accounts of a withdrawal are what they should be, for an instance in the state
/// `anker` of a Solido instance in the state `solido`.
pub open spec fn can_withdraw(
    program_id: Address,
    accounts: WithdrawAccounts,
    solido: Solido,
    anker: Anker,
) -> bool {
    &&& is_instance(program_id, accounts.anker, anker)
    &&& is_solido(anker, accounts.solido, solido)
    &&& is_st_sol_account(accounts.reserve_account.contents, solido)
    &&& accounts.b_sol_mint.key == anker.b_sol_mint
    &&& accounts.b_sol_mint.contents.owner.bytes == TOKEN_PROGRAM
    &&& belongs(
        program_id,
        accounts.anker.key,
        ANKER_RESERVE_AUTHORITY@,
        anker.reserve_authority_bump_seed,
        accounts.reserve_authority,
    )
    &&& accounts.b_sol_mint.contents.data@.len() >= 82
    &&& is_mint(accounts.b_sol_mint.contents.data@)
}

/// A withdrawal whose accounts are what they should be is paid the most stSOL that is worth
/// no more than one SOL for each bSOL returned, and no more than its share of the reserve.
/// The supply of bSOL is the whole number in the bytes 36 to 43 of the mint, and what the
/// reserve holds the one in the bytes 64 to 71 of the reserve account. Where that cannot
/// be calculated, nothing is done.
pub proof fn withdrawal_pays_what_the_accounts_say(
    program_id: Address,
    accounts: WithdrawAccounts,
    amount: BLamports,
    solido: Solido,
    anker: Anker,
)
    requires
        can_withdraw(program_id, accounts, solido, anker),
    ensures
        ({
            let plan = withdraw_plan(program_id, accounts, amount);
            let supply = number(accounts.b_sol_mint.contents.data@.subrange(36, 44));
            let balance = number(accounts.reserve_account.contents.data@.subrange(64, 72));
            let st_sol = solido.exchange_rate.st_sol_supply.0;
            let sol = solido.exchange_rate.sol_balance.0;
            let paid = moved(plan.actions[0]);
            let fails = {
                ||| sol == 0
                ||| supply == 0
                ||| amount.0 * st_sol >= (u64::MAX + 1) * sol
                ||| amount.0 * balance >= (u64::MAX + 1) * supply
            };
            &&& fails ==> is_refused(
                plan,
                Failure::Error(ProgramError::Lido(LidoError::CalculationFailure)),
            )
            &&& !fails ==> {
                &&& is_withdrawal(plan, anker, accounts, amount)
                &&& paid * sol <= amount.0 * st_sol
                &&& paid * supply <= amount.0 * balance
                &&& amount.0 * st_sol < (paid + 1) * sol || amount.0 * balance < (paid + 1) * supply
            }
        }),
{
    lemma_withdrawal_reads(program_id, accounts, solido, anker);
    let mint = accounts.b_sol_mint.contents.data@;
    let reserve = accounts.reserve_account.contents.data@;
    let supply = BLamports(number(mint.subrange(36, 44)) as u64);
    let balance = StLamports(number(reserve.subrange(64, 72)) as u64);
    let paid = spec_withdraw_amount(solido, supply, balance, amount);
    withdrawal_is_paid_the_most_within_peg_and_share(solido, supply, balance, amount, paid->Ok_0);
    accepted_withdrawal_pays_and_burns(anker, accounts, amount, paid->Ok_0);
}

/// What a withdrawal reads of its accounts.
proof fn lemma_withdrawal_reads(
    program_id: Address,
    accounts: WithdrawAccounts,
    solido: Solido,
    anker: Anker,
)
    requires
        can_withdraw(program_id, accounts, solido, anker),
    ensures
        ({
            let supply = number(accounts.b_sol_mint.contents.data@.subrange(36, 44));
            let balance = number(accounts.reserve_account.contents.data@.subrange(64, 72));
            &&& 0 <= supply <= u64::MAX
            &&& 0 <= balance <= u64::MAX
            &&& withdraw_checks(program_id, accounts) == Ok::<_, Failure>(
                (solido, anker, BLamports(supply as u64), StLamports(balance as u64)),
            )
        }),
{
    let refusal = Failure::Error(ProgramError::Anker(AnkerError::InvalidTokenMint));
    let unreadable = Failure::Error(ProgramError::Anker(AnkerError::InvalidReserveAccount));
    states_are_read(program_id, accounts.anker, accounts.solido, solido, anker);
    st_sol_account_is_told(accounts.reserve_account.contents, solido);
    b_sol_mint_is_told(anker, accounts.b_sol_mint.key, accounts.b_sol_mint.contents.owner);
    accounts_of_an_instance_are_told(
        anker,
        program_id,
        accounts.anker.key,
        accounts.reserve_authority,
    );
    mint_is_read(accounts.b_sol_mint.contents, refusal);
    token_account_is_read(accounts.reserve_account.contents, unreadable);
}

/// Where what the reserve account holds covers the supply of the mint, a withdrawal is paid
/// one SOL for each bSOL, rounded down to whole stSOL; where it does not, the share of the
/// reserve that the bSOL is of the supply, rounded down. In both cases it succeeds, as
/// long as the worth at the peg is a `u64`.
pub proof fn withdrawal_is_paid_by_peg_or_share(
    program_id: Address,
    accounts: WithdrawAccounts,
    amount: BLamports,
    solido: Solido,
    anker: Anker,
)
    requires
        can_withdraw(program_id, accounts, solido, anker),
        0 < number(accounts.b_sol_mint.contents.data@.subrange(36, 44)),
        amount.0 <= number(accounts.b_sol_mint.contents.data@.subrange(36, 44)),
        solido.exchange_rate.sol_balance.0 > 0,
    ensures
        ({
            let plan = withdraw_plan(program_id, accounts, amount);
            let supply = number(accounts.b_sol_mint.contents.data@.subrange(36, 44));
            let balance = number(accounts.reserve_account.contents.data@.subrange(64, 72));
            let st_sol = solido.exchange_rate.st_sol_supply.0;
            let sol = solido.exchange_rate.sol_balance.0;
            let paid = moved(plan.actions[0]);
            &&& supply * st_sol <= balance * sol ==> {
                &&& is_withdrawal(plan, anker, accounts, amount)
                &&& paid * sol <= amount.0 * st_sol < (paid + 1) * sol
            }
            &&& supply * st_sol > balance * sol && amount.0 * st_sol < (u64::MAX + 1) * sol ==> {
                &&& is_withdrawal(plan, anker, accounts, amount)
                &&& paid * supply <= amount.0 * balance < (paid + 1) * supply
            }
        }),
{
    lemma_withdrawal_reads(program_id, accounts, solido, anker);
    let supply = BLamports(
        number(accounts.b_sol_mint.contents.data@.subrange(36, 44)) as u64,
    );
    let balance = StLamports(
        number(accounts.reserve_account.contents.data@.subrange(64, 72)) as u64,
    );
    let paid = spec_withdraw_amount(solido, supply, balance, amount);
    let pegged = ExchangeRate::spec_from_solido_pegged(solido);
    let share = ExchangeRate::spec_from_anker_unpegged(supply, balance);
    amounts_are_exchanged_at_the_rate(pegged, paid->Ok_0, amount);
    amounts_are_exchanged_at_the_rate(share, paid->Ok_0, amount);
    accepted_withdrawal_pays_and_burns(anker, accounts, amount, paid->Ok_0);
    if covers(solido, supply, balance) {
        covered_withdrawal_is_paid_at_the_peg(solido, supply, balance, amount);
    } else if pegged.spec_exchange_b_sol(amount) is Ok {
        uncovered_withdrawal_is_paid_its_share(solido, supply, balance, amount);
    }
}

/// A withdrawal is refused, and does nothing, for states that cannot be read, for a reserve
/// account that holds no stSOL, for a wrong bSOL mint, for a wrong reserve authority, and
/// for a bSOL mint that cannot be read, in this order.
pub proof fn withdrawal_is_refused(
    program_id: Address,
    accounts: WithdrawAccounts,
    amount: BLamports,
    solido: Solido,
    anker: Anker,
)
    ensures
        ({
            let plan = withdraw_plan(program_id, accounts, amount);
            let reserve = accounts.reserve_account.contents;
            let mint = accounts.b_sol_mint;
            let readable = is_instance(program_id, accounts.anker, anker) && is_solido(
                anker,
                accounts.solido,
                solido,
            );
            let is_the_mint = mint.key == anker.b_sol_mint && mint.contents.owner.bytes
                == TOKEN_PROGRAM;
            let is_the_authority = belongs(
                program_id,
                accounts.anker.key,
                ANKER_RESERVE_AUTHORITY@,
                anker.reserve_authority_bump_seed,
                accounts.reserve_authority,
            );
            let wrong = |e: AnkerError| is_refused(plan, Failure::Error(ProgramError::Anker(e)));
            &&& spec_deserialize_anker(program_id, accounts.anker, accounts.solido) matches Err(e)
                ==> is_refused(plan, e)
            &&& readable ==> (reserve.spec_check_is_st_sol_account(solido) matches Err(e)
                ==> is_refused(plan, e))
            &&& readable && is_st_sol_account(reserve, solido) ==> {
                &&& !is_the_mint ==> wrong(AnkerError::InvalidTokenMint)
                &&& is_the_mint && !is_the_authority ==> wrong(AnkerError::InvalidDerivedAccount)
                &&& is_the_mint && is_the_authority ==> {
                    &&& mint.contents.data@.len() < 82 ==> is_refused(
                        plan,
                        Failure::Abort(Abort::AccountDataTooShort),
                    )
                    &&& mint.contents.data@.len() >= 82 && !is_mint(mint.contents.data@) ==> wrong(
                        AnkerError::InvalidTokenMint,
                    )
                }
            }
        }),
{
    let refusal = Failure::Error(ProgramError::Anker(AnkerError::InvalidTokenMint));
    states_are_read(program_id, accounts.anker, accounts.solido, solido, anker);
    st_sol_account_is_told(accounts.reserve_account.contents, solido);
    b_sol_mint_is_told(anker, accounts.b_sol_mint.key, accounts.b_sol_mint.contents.owner);
    accounts_of_an_instance_are_told(
        anker,
        program_id,
        accounts.anker.key,
        accounts.reserve_authority,
    );
    mint_is_read(accounts.b_sol_mint.contents, refusal);
}

/// The accounts of a sale of rewards are what they should be.
pub open spec fn can_sell_rewards(
    program_id: Address,
    accounts: SellRewardsAccounts,
    solido: Solido,
    anker: Anker,
) -> bool {
    &&& is_instance(program_id, accounts.anker, anker)
    &&& is_solido(anker, accounts.solido, solido)
    &&& belongs(
        program_id,
        accounts.anker.key,
        ANKER_STSOL_RESERVE_ACCOUNT@,
        anker.st_sol_reserve_account_bump_seed,
        accounts.st_sol_reserve_account.key,
    )
    &&& is_st_sol_account(accounts.st_sol_reserve_account.contents, solido)
    &&& accounts.b_sol_mint.key == anker.b_sol_mint
    &&& accounts.b_sol_mint.contents.owner.bytes == TOKEN_PROGRAM
    &&& accounts.b_sol_mint.contents.data@.len() >= 82
    &&& is_mint(accounts.b_sol_mint.contents.data@)
}

/// A sale of rewards whose accounts are what they should be swaps all that the reserve
/// account holds beyond the worth of the supply of the mint, and leaves exactly that worth,
/// rounded down. Where the reserve account holds less, nothing is done.
pub proof fn sale_leaves_the_worth_of_the_supply(
    program_id: Address,
    accounts: SellRewardsAccounts,
    solido: Solido,
    anker: Anker,
)
    requires
        can_sell_rewards(program_id, accounts, solido, anker),
    ensures
        ({
            let plan = sell_rewards_plan(program_id, accounts);
            let supply = number(accounts.b_sol_mint.contents.data@.subrange(36, 44));
            let balance = number(accounts.st_sol_reserve_account.contents.data@.subrange(64, 72));
            let st_sol = solido.exchange_rate.st_sol_supply.0;
            let sol = solido.exchange_rate.sol_balance.0;
            let one_for_one = st_sol == 0 || sol == 0;
            let falls_short = if one_for_one {
                balance < supply
            } else {
                supply * st_sol >= (balance + 1) * sol
            };
            &&& falls_short ==> is_refused(
                plan,
                Failure::Error(ProgramError::Lido(LidoError::CalculationFailure)),
            )
            &&& !falls_short ==> {
                &&& plan.actions.len() == 1
                &&& plan.end == End::Finish(Ok(()))
                &&& plan.actions[0] matches ActionView::SwapRewards {
                    program_id: seller,
                    anker: instance,
                    rewards,
                }
                &&& seller == program_id
                &&& instance == anker
                &&& rewards.0 <= balance
                &&& one_for_one ==> balance - rewards.0 == supply
                &&& !one_for_one ==> (balance - rewards.0) * sol <= supply * st_sol < (balance
                    - rewards.0 + 1) * sol
            }
        }),
{
    let refusal = Failure::Error(ProgramError::InvalidAccountData);
    let mint = accounts.b_sol_mint.contents;
    let reserve = accounts.st_sol_reserve_account.contents;
    states_are_read(program_id, accounts.anker, accounts.solido, solido, anker);
    st_sol_account_is_told(reserve, solido);
    b_sol_mint_is_told(anker, accounts.b_sol_mint.key, mint.owner);
    accounts_of_an_instance_are_told(
        anker,
        program_id,
        accounts.anker.key,
        accounts.st_sol_reserve_account.key,
    );
    mint_is_read(mint, refusal);
    token_account_is_read(reserve, refusal);
    let supply = number(mint.data@.subrange(36, 44)) as u64;
    let balance = StLamports(number(reserve.data@.subrange(64, 72)) as u64);
    let rewards = spec_rewards(solido, supply, balance);
    rewards_leave_the_worth_of_all_b_sol(solido, supply, balance, rewards->Ok_0);
}

/// A sale of rewards is refused, and does nothing, for states that cannot be read, for an
/// account that is not at the address of the reserve, for one that holds no stSOL, for a
/// wrong bSOL mint, and for one that cannot be read, in this order.
pub proof fn sale_is_refused(
    program_id: Address,
    accounts: SellRewardsAccounts,
    solido: Solido,
    anker: Anker,
)
    ensures
        ({
            let plan = sell_rewards_plan(program_id, accounts);
            let reserve = accounts.st_sol_reserve_account;
            let mint = accounts.b_sol_mint;
            let readable = is_instance(program_id, accounts.anker, anker) && is_solido(
                anker,
                accounts.solido,
                solido,
            );
            let at_the_reserve = belongs(
                program_id,
                accounts.anker.key,
                ANKER_STSOL_RESERVE_ACCOUNT@,
                anker.st_sol_reserve_account_bump_seed,
                reserve.key,
            );
            let is_the_mint = mint.key == anker.b_sol_mint && mint.contents.owner.bytes
                == TOKEN_PROGRAM;
            &&& spec_deserialize_anker(program_id, accounts.anker, accounts.solido) matches Err(e)
                ==> is_refused(plan, e)
            &&& readable && !at_the_reserve ==> is_refused(
                plan,
                Failure::Error(ProgramError::Anker(AnkerError::InvalidDerivedAccount)),
            )
            &&& readable && at_the_reserve ==> (reserve.contents.spec_check_is_st_sol_account(
                solido,
            ) matches Err(e) ==> is_refused(plan, e))
            &&& readable && at_the_reserve && is_st_sol_account(reserve.contents, solido) ==> {
                &&& !is_the_mint ==> is_refused(
                    plan,
                    Failure::Error(ProgramError::Anker(AnkerError::InvalidTokenMint)),
                )
                &&& is_the_mint && mint.contents.data@.len() < 82 ==> is_refused(
                    plan,
                    Failure::Abort(Abort::AccountDataTooShort),
                )
                &&& is_the_mint && mint.contents.data@.len() >= 82 && !is_mint(mint.contents.data@)
                    ==> is_refused(plan, Failure::Error(ProgramError::InvalidAccountData))
            }
        }),
{
    let refusal = Failure::Error(ProgramError::InvalidAccountData);
    states_are_read(program_id, accounts.anker, accounts.solido, solido, anker);
    st_sol_account_is_told(accounts.st_sol_reserve_account.contents, solido);
    b_sol_mint_is_told(anker, accounts.b_sol_mint.key, accounts.b_sol_mint.contents.owner);
    accounts_of_an_instance_are_told(
        anker,
        program_id,
        accounts.anker.key,
        accounts.st_sol_reserve_account.key,
    );
    mint_is_read(accounts.b_sol_mint.contents, refusal);
}

/// The plan stores, in `account`, the state that has the identity of `anker`, with this
/// destination, pool and bump seed, and succeeds.
pub open spec fn is_change(
    plan: PlanView,
    account: Address,
    anker: Anker,
    destination: Address,
    pool: Address,
    bump: u8,
) -> bool {
    &&& plan.actions.len() == 1
    &&& plan.end == End::Finish(Ok(()))
    &&& plan.actions[0] matches ActionView::SaveAnker { account: at, anker: stored }
    &&& at == account
    &&& stored.terra_rewards_destination == destination
    &&& stored.token_swap_pool == pool
    &&& stored.token_swap_bump_seed == bump
    &&& stored.b_sol_mint == anker.b_sol_mint
    &&& stored.solido_program_id == anker.solido_program_id
    &&& stored.solido == anker.solido
    &&& stored.self_bump_seed == anker.self_bump_seed
    &&& stored.mint_authority_bump_seed == anker.mint_authority_bump_seed
    &&& stored.reserve_authority_bump_seed == anker.reserve_authority_bump_seed
    &&& stored.st_sol_reserve_account_bump_seed == anker.st_sol_reserve_account_bump_seed
    &&& stored.ust_reserve_account_bump_seed == anker.ust_reserve_account_bump_seed
}

/// Where the states can be read, the manager of Solido can always change where rewards go
/// on Terra, to any address, and nobody else can.
pub proof fn terra_rewards_destination_is_changed(
    program_id: Address,
    accounts: ChangeTerraRewardsDestinationAccounts,
    solido: Solido,
    anker: Anker,
)
    ensures
        ({
            let plan = change_terra_rewards_destination_plan(program_id, accounts);
            let readable = is_instance(program_id, accounts.anker, anker) && is_solido(
                anker,
                accounts.solido,
                solido,
            );
            let is_manager = accounts.manager.key == solido.manager;
            &&& spec_deserialize_anker(program_id, accounts.anker, accounts.solido) matches Err(e)
                ==> is_refused(plan, e)
            &&& readable && !is_manager ==> is_refused(
                plan,
                Failure::Error(ProgramError::Lido(LidoError::InvalidManager)),
            )
            &&& readable && is_manager && !accounts.manager.is_signer ==> is_refused(
                plan,
                Failure::Error(ProgramError::MissingRequiredSignature),
            )
            &&& readable && is_manager && accounts.manager.is_signer ==> is_change(
                plan,
                accounts.anker.key,
                anker,
                accounts.terra_rewards_destination,
                anker.token_swap_pool,
                anker.token_swap_bump_seed,
            )
        }),
{
    states_are_read(program_id, accounts.anker, accounts.solido, solido, anker);
    manager_is_told(solido, accounts.manager);
}

/// Where the states can be read, the manager of Solido can always change the token swap
/// pool to a valid token swap instance whose authority has a bump seed, and nobody else
/// can. The bump seed is the highest one that is viable for the pool.
pub proof fn token_swap_pool_is_changed(
    program_id: Address,
    accounts: ChangeTokenSwapPoolAccounts,
    solido: Solido,
    anker: Anker,
    authority: Address,
    bump: u8,
)
    ensures
        ({
            let plan = change_token_swap_pool_plan(program_id, accounts);
            let readable = is_instance(program_id, accounts.anker, anker) && is_solido(
                anker,
                accounts.solido,
                solido,
            );
            let is_manager = accounts.manager.key == solido.manager;
            let allowed = readable && is_manager && accounts.manager.is_signer;
            let orca = Address { bytes: ORCA_TOKEN_SWAP_V2 };
            let seeds = seq![accounts.token_swap_pool.bytes@];
            &&& spec_deserialize_anker(program_id, accounts.anker, accounts.solido) matches Err(e)
                ==> is_refused(plan, e)
            &&& readable && !is_manager ==> is_refused(
                plan,
                Failure::Error(ProgramError::Lido(LidoError::InvalidManager)),
            )
            &&& readable && is_manager && !accounts.manager.is_signer ==> is_refused(
                plan,
                Failure::Error(ProgramError::MissingRequiredSignature),
            )
            &&& allowed ==> (accounts.token_swap_instance matches Err(e) ==> is_refused(
                plan,
                Failure::Error(e),
            ))
            &&& allowed && accounts.token_swap_instance is Ok && is_unviable(orca, seeds)
                ==> is_refused(plan, Failure::Abort(Abort::NoViableBumpSeed))
            &&& allowed && accounts.token_swap_instance is Ok && is_found(
                orca,
                seeds,
                authority,
                bump,
            ) ==> is_change(
                plan,
                accounts.anker.key,
                anker,
                anker.terra_rewards_destination,
                accounts.token_swap_pool,
                bump,
            )
        }),
{
    states_are_read(program_id, accounts.anker, accounts.solido, solido, anker);
    manager_is_told(solido, accounts.manager);
    let derivation = Derivation {
        purpose: Purpose::TokenSwapAuthority,
        base: accounts.token_swap_pool,
    };
    assert(derivation.spec_seeds() =~= seq![accounts.token_swap_pool.bytes@]);
    highest_viable_bump_seed_is_found(
        derivation,
        Address { bytes: ORCA_TOKEN_SWAP_V2 },
        authority,
        bump,
    );
}

/// Which instruction an input is, and what it works on: the first byte of the input names
/// the instruction, and with it the list that the accounts are read as; a deposit and a
/// withdrawal have their amount from the eight bytes that follow. Input that is no
/// instruction, and accounts that cannot be read as the list, are refused.
pub proof fn input_names_the_instruction(
    program_id: Address,
    accounts: AccountLists,
    input: Seq<u8>,
)
    ensures
        ({
            let plan = process_plan(program_id, accounts, input);
            let refused = |e: ProgramError| is_refused(plan, Failure::Error(e));
            let short = refused(ProgramError::Borsh(BorshError::UnexpectedLength));
            let long = refused(ProgramError::Borsh(BorshError::NotAllBytesRead));
            let amount = number(input.subrange(1, 9));
            &&& input.len() == 0 ==> short
            &&& input.len() > 0 && input[0] > 5 ==> refused(
                ProgramError::Borsh(BorshError::UnexpectedVariant(input[0])),
            )
            &&& 0 < input.len() < 9 && 1 <= input[0] <= 2 ==> short
            &&& input.len() > 9 && 1 <= input[0] <= 2 ==> long
            &&& input.len() > 1 && (input[0] == 0 || 3 <= input[0] <= 5) ==> long
            &&& input == seq![0u8] ==> match accounts.initialize {
                Ok(list) => plan == initialize_plan(program_id, list),
                Err(e) => refused(e),
            }
            &&& input.len() == 9 && input[0] == 1 ==> match accounts.deposit {
                Ok(list) => 0 <= amount <= u64::MAX && plan == deposit_plan(
                    program_id,
                    list,
                    StLamports(amount as u64),
                ),
                Err(e) => refused(e),
            }
            &&& input.len() == 9 && input[0] == 2 ==> match accounts.withdraw {
                Ok(list) => 0 <= amount <= u64::MAX && plan == withdraw_plan(
                    program_id,
                    list,
                    BLamports(amount as u64),
                ),
                Err(e) => refused(e),
            }
            &&& input == seq![3u8] ==> match accounts.sell_rewards {
                Ok(list) => plan == sell_rewards_plan(program_id, list),
                Err(e) => refused(e),
            }
            &&& input == seq![4u8] ==> match accounts.change_terra_rewards_destination {
                Ok(list) => plan == change_terra_rewards_destination_plan(program_id, list),
                Err(e) => refused(e),
            }
            &&& input == seq![5u8] ==> match accounts.change_token_swap_pool {
                Ok(list) => plan == change_token_swap_pool_plan(program_id, list),
                Err(e) => refused(e),
            }
        }),
{
    instruction_is_read(input);
    if input.len() == 9 {
        eight_bytes_are_summed(input.subrange(1, 9));
    }
}

/// What is laid down of an action is all of it, as it stands.
pub proof fn action_is_what_it_shows(action: Action)
    ensures
        match action {
            Action::CreateAccount { owner, account, sysvar_rent, space, seeds } => action@ == (
            ActionView::CreateAccount { owner, account, sysvar_rent, space, seeds }),
            Action::InitializeSplAccount { account, mint, seeds } => action@ == (
            ActionView::InitializeSplAccount { account, mint, seeds }),
            Action::Invoke { instruction, accounts, signer } => {
                &&& action@ matches ActionView::Invoke {
                    instruction: shown,
                    accounts: given,
                    signer: signed,
                }
                &&& shown.program == instruction.program
                &&& shown.accounts == instruction.accounts@
                &&& shown.data == instruction.data@
                &&& given == accounts@
                &&& signed == signer
            },
            Action::MintBSolTo { program_id, anker, amount } => action@ == (
            ActionView::MintBSolTo { program_id, anker, amount }),
            Action::BurnBSol { anker, spl_token, mint, from, authority, amount } => action@ == (
            ActionView::BurnBSol { anker, spl_token, mint, from, authority, amount }),
            Action::SwapRewards { program_id, anker, rewards } => action@ == (
            ActionView::SwapRewards { program_id, anker, rewards }),
            Action::SaveAnker { account, anker } => action@ == (ActionView::SaveAnker {
                account,
                anker,
            }),
        },
{
}

/// What is laid down of a plan is every one of its actions, in order, and its end.
pub proof fn plan_is_what_it_shows(plan: Plan)
    ensures
        plan@.end == plan.end,
        plan@.actions.len() == plan.actions@.len(),
        forall|i: int|
            0 <= i < plan.actions@.len() ==> #[trigger] plan@.actions[i] == plan.actions@[i]@,
{
}

/// How far an instruction is, is shown as it stands.
pub proof fn progress_is_what_it_shows(progress: Progress)
    ensures
        match progress {
            Progress::Perform { action, rest } => progress@ == (ProgressView::Perform {
                action: action@,
                rest: rest@,
            }),
            Progress::Inspect { check } => progress@ == (ProgressView::Inspect { check }),
            Progress::Finish { outcome } => progress@ == (ProgressView::Finish { outcome }),
        },
{
}

/// An action is performed, and nothing skipped: from a plan with actions the first is taken,
/// and the others stay, in order, with the same end. A plan without actions comes to its
/// end. After an action that succeeded it goes on the same way; after one that failed, the
/// instruction ends with that error.
pub proof fn plan_goes_on(plan: PlanView, failed: ProgramError)
    ensures
        plan.actions.len() > 0 ==> {
            &&& plan.spec_start() matches ProgressView::Perform { action, rest }
            &&& action == plan.actions[0]
            &&& rest.end == plan.end
            &&& rest.actions.len() == plan.actions.len() - 1
            &&& forall|i: int|
                0 <= i < rest.actions.len() ==> #[trigger] rest.actions[i] == plan.actions[i + 1]
        },
        plan.actions.len() == 0 ==> match plan.end {
            End::Finish(outcome) => plan.spec_start() == (ProgressView::Finish { outcome }),
            End::Inspect(check) => plan.spec_start() == (ProgressView::Inspect { check }),
        },
        plan.spec_resume(Ok(())) == plan.spec_start(),
        plan.spec_resume(Err(failed)) == (ProgressView::Finish {
            outcome: Err(Failure::Error(failed)),
        }),
{
}

} // verus!
