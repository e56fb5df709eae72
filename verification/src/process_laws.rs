//! Laws of the instructions: who may do what, and what is done when.

use crate::account::{
    reserve_authority_seeds, spec_deserialize_anker, st_sol_reserve_seeds, ust_reserve_seeds,
    Account, Contents,
};
use crate::action::{ActionView, End, PlanView, ProgressView};
use crate::address::Address;
use crate::derived::{
    lemma_highest_bump_is_viable, spec_check_derived, Derivation, Purpose, SignerSeeds,
};
use crate::encoding_laws::stored_state_is_read_back;
use crate::error::{lido_failure, Failure, LidoError, ProgramError};
use crate::instruction::{
    AccountLists, AnkerInstruction, ChangeTerraRewardsDestinationAccounts,
    ChangeTokenSwapPoolAccounts, DepositAccounts, InitializeAccounts, SellRewardsAccounts,
    WithdrawAccounts,
};
use crate::processor::{
    change_terra_rewards_destination_plan, change_token_swap_pool_plan, deposit_plan,
    initialize_plan, process_plan, save_plan, sell_rewards_checks, sell_rewards_plan,
    spec_check_mint_authority, spec_rewards, spec_token_swap_program, spec_withdraw_amount,
    swap_plan, token_swap_derivation, transfer_action, withdraw_checks, withdraw_plan,
    InitializeCheck,
};
use crate::solido::SolidoAccount;
use crate::state::{Anker, ANKER_LEN};
use crate::token::{BLamports, StLamports};
use vstd::prelude::*;

verus! {

/// The plan in the course of which the first `done` actions succeeded.
pub open spec fn after(plan: PlanView, done: nat) -> PlanView
    decreases done,
{
    if done == 0 {
        plan
    } else {
        match after(plan, (done - 1) as nat).spec_start() {
            ProgressView::Perform { action: _, rest } => rest,
            _ => plan,
        }
    }
}

/// The actions of a plan are performed in order, and each only after all those before it
/// succeeded; then comes what the plan ends with.
pub proof fn actions_are_performed_in_order(plan: PlanView, done: nat)
    requires
        done <= plan.actions.len(),
    ensures
        after(plan, done) == (PlanView { actions: plan.actions.skip(done as int), end: plan.end }),
        done < plan.actions.len() ==> (after(plan, done).spec_start() matches ProgressView::Perform {
            action,
            rest,
        } && action == plan.actions[done as int] && rest == after(plan, done + 1)),
        done == plan.actions.len() ==> after(plan, done).spec_start() == (match plan.end {
            End::Finish(outcome) => ProgressView::Finish { outcome },
            End::Inspect(check) => ProgressView::Inspect { check },
        }),
    decreases done,
{
    if done == 0 {
        assert(plan.actions.skip(0) =~= plan.actions);
    } else {
        actions_are_performed_in_order(plan, (done - 1) as nat);
        assert(plan.actions.skip(done - 1).drop_first() =~= plan.actions.skip(done as int));
    }
}

/// An action that fails ends the instruction with its error, whatever was still to be
/// done.
pub proof fn failed_action_ends_the_instruction(rest: PlanView, error: ProgramError)
    ensures
        rest.spec_resume(Err(error)) == (ProgressView::Finish {
            outcome: Err(Failure::Error(error)),
        }),
{
}

/// An instruction that fails by its own checks does nothing. The one exception is a
/// deposit whose bSOL cannot be calculated: it fails after its transfer.
pub proof fn failing_instruction_does_nothing(
    program_id: Address,
    accounts: AccountLists,
    input: Seq<u8>,
)
    ensures
        ({
            let plan = process_plan(program_id, accounts, input);
            plan.end matches End::Finish(Err(e)) ==> {
                ||| plan.actions.len() == 0
                ||| {
                    &&& AnkerInstruction::spec_try_from_slice(input) matches Ok(
                        AnkerInstruction::Deposit { amount: _ },
                    )
                    &&& e == lido_failure(LidoError::CalculationFailure)
                    &&& plan.actions.len() == 1
                    &&& plan.actions[0] is Invoke
                }
            }
        }),
{
}

/// Of the lists that the accounts can be read as, only that of the instruction counts, and
/// none where the input encodes no instruction.
pub proof fn only_the_list_of_the_instruction_counts(
    program_id: Address,
    accounts: AccountLists,
    others: AccountLists,
    input: Seq<u8>,
)
    requires
        match AnkerInstruction::spec_try_from_slice(input) {
            Err(_) => true,
            Ok(AnkerInstruction::Initialize) => accounts.initialize == others.initialize,
            Ok(AnkerInstruction::Deposit { .. }) => accounts.deposit == others.deposit,
            Ok(AnkerInstruction::Withdraw { .. }) => accounts.withdraw == others.withdraw,
            Ok(AnkerInstruction::SellRewards) => accounts.sell_rewards == others.sell_rewards,
            Ok(AnkerInstruction::ChangeTerraRewardsDestination) => {
                accounts.change_terra_rewards_destination
                    == others.change_terra_rewards_destination
            },
            Ok(AnkerInstruction::ChangeTokenSwapPool) => {
                accounts.change_token_swap_pool == others.change_token_swap_pool
            },
        },
    ensures
        process_plan(program_id, accounts, input) == process_plan(program_id, others, input),
{
}

/// A deposit of nothing is refused as an invalid argument, and nothing is done.
pub proof fn empty_deposit_is_refused(program_id: Address, accounts: DepositAccounts)
    ensures
        deposit_plan(program_id, accounts, StLamports(0)) == PlanView::refuse(
            Failure::Error(ProgramError::InvalidArgument),
        ),
{
}

/// bSOL is minted by deposits only, and only after the stSOL was transferred to the stSOL
/// reserve of the instance.
pub proof fn b_sol_is_minted_after_the_transfer_to_the_reserve(
    program_id: Address,
    accounts: AccountLists,
    input: Seq<u8>,
    i: int,
)
    requires
        0 <= i < process_plan(program_id, accounts, input).actions.len(),
        process_plan(program_id, accounts, input).actions[i] is MintBSolTo,
    ensures
        ({
            let plan = process_plan(program_id, accounts, input);
            &&& AnkerInstruction::spec_try_from_slice(input) matches Ok(
                AnkerInstruction::Deposit { amount },
            )
            &&& accounts.deposit matches Ok(list)
            &&& i == 1
            &&& amount.0 > 0
            &&& plan.actions[0] == transfer_action(
                list.from_account,
                list.to_reserve_account.key,
                list.user_authority,
                list.spl_token,
                amount,
                None,
            )
            &&& st_sol_reserve_seeds(
                plan.actions[i]->MintBSolTo_anker,
                list.anker.key,
            ).spec_derive(program_id, list.to_reserve_account.key)
        }),
{
}

/// A withdrawal that is accepted pays the lower of the pegged worth and the share, out of
/// the reserve account, under the signature of the reserve authority, and then burns
/// exactly the bSOL that was returned, out of the account of the withdrawer, under the
/// signature of the authority over it. It stores no state.
pub proof fn withdrawal_pays_and_burns(
    program_id: Address,
    accounts: WithdrawAccounts,
    amount: BLamports,
)
    requires
        withdraw_plan(program_id, accounts, amount).actions.len() > 0,
    ensures
        ({
            let plan = withdraw_plan(program_id, accounts, amount);
            let seeds = |anker: Anker| reserve_authority_seeds(anker, accounts.anker.key);
            &&& withdraw_checks(program_id, accounts) matches Ok((solido, anker, supply, balance))
            &&& spec_withdraw_amount(solido, supply, balance, amount) matches Ok(paid)
            &&& plan.end == End::Finish(Ok(()))
            &&& plan.actions == seq![
                transfer_action(
                    accounts.reserve_account.key,
                    accounts.to_st_sol_account,
                    accounts.reserve_authority,
                    accounts.spl_token,
                    paid,
                    Some(seeds(anker)),
                ),
                ActionView::BurnBSol {
                    anker,
                    spl_token: accounts.spl_token,
                    mint: accounts.b_sol_mint.key,
                    from: accounts.from_b_sol_account,
                    authority: accounts.from_b_sol_authority,
                    amount,
                },
            ]
            &&& seeds(anker).spec_derive(program_id, accounts.reserve_authority)
        }),
{
}

/// Nothing but the rewards is swapped, and all of them: what the stSOL reserve of the
/// instance holds beyond the worth of all bSOL.
pub proof fn only_the_rewards_are_swapped(program_id: Address, accounts: SellRewardsAccounts)
    requires
        sell_rewards_plan(program_id, accounts).actions.len() > 0,
    ensures
        sell_rewards_checks(program_id, accounts) matches Ok((solido, anker, supply, balance)) && (
        spec_rewards(solido, supply, balance) matches Ok(rewards) && sell_rewards_plan(
            program_id,
            accounts,
        ) == swap_plan(program_id, anker, rewards)) && st_sol_reserve_seeds(
            anker,
            accounts.anker.key,
        ).spec_derive(program_id, accounts.st_sol_reserve_account.key),
{
}

/// Where rewards go on Terra is changed only under the signature of the manager of Solido,
/// and nothing else of the state changes with it.
pub proof fn manager_changes_the_terra_rewards_destination(
    program_id: Address,
    accounts: ChangeTerraRewardsDestinationAccounts,
)
    ensures
        ({
            let plan = change_terra_rewards_destination_plan(program_id, accounts);
            plan.actions.len() > 0 ==> {
                &&& spec_deserialize_anker(program_id, accounts.anker, accounts.solido) matches Ok(
                    (solido, anker),
                )
                &&& accounts.manager.is_signer
                &&& accounts.manager.key == solido.manager
                &&& plan == save_plan(
                    accounts.anker.key,
                    Anker {
                        terra_rewards_destination: accounts.terra_rewards_destination,
                        ..anker
                    },
                )
            }
        }),
{
}

/// The token swap pool is changed only under the signature of the manager of Solido, to a
/// valid token swap instance, together with the bump seed of its authority, and nothing
/// else of the state changes with it.
pub proof fn manager_changes_the_token_swap_pool(
    program_id: Address,
    accounts: ChangeTokenSwapPoolAccounts,
)
    ensures
        ({
            let plan = change_token_swap_pool_plan(program_id, accounts);
            plan.actions.len() > 0 ==> {
                &&& spec_deserialize_anker(program_id, accounts.anker, accounts.solido) matches Ok(
                    (solido, anker),
                )
                &&& accounts.manager.is_signer
                &&& accounts.manager.key == solido.manager
                &&& accounts.token_swap_instance is Ok
                &&& token_swap_derivation(accounts.token_swap_pool).spec_find(
                    spec_token_swap_program(),
                ) matches Some((_, bump))
                &&& plan == save_plan(
                    accounts.anker.key,
                    Anker {
                        token_swap_pool: accounts.token_swap_pool,
                        token_swap_bump_seed: bump,
                        ..anker
                    },
                )
            }
        }),
{
}

/// An address that was found is derived by its seeds and bump seed.
proof fn lemma_found_address_is_derived(derivation: Derivation, program: Address)
    ensures
        derivation.spec_find(program) matches Some((address, bump)) ==> (SignerSeeds {
            derivation,
            bump,
        }).spec_derive(program, address),
{
    lemma_highest_bump_is_viable(derivation.spec_seeds(), program, 255);
}

/// The check that an initialization ends in comes from accounts that passed its first
/// checks.
pub open spec fn comes_from(
    check: InitializeCheck,
    program_id: Address,
    accounts: InitializeAccounts,
) -> bool {
    initialize_plan(program_id, accounts).end == End::Inspect(check)
}

/// An instance is stored only where the accounts that were given are the derived ones, and
/// the derived mint authority controls the bSOL mint.
pub proof fn initialized_accounts_are_the_derived_ones(
    program_id: Address,
    accounts: InitializeAccounts,
    check: InitializeCheck,
    b_sol_mint: Contents,
    st_sol_reserve: Contents,
)
    requires
        comes_from(check, program_id, accounts),
        check.spec_finish(b_sol_mint, st_sol_reserve).actions.len() > 0,
    ensures
        accounts.anker == check.found.instance.0,
        accounts.st_sol_reserve_account == check.found.st_sol_reserve.0,
        accounts.ust_reserve_account == check.found.ust_reserve.0,
        accounts.reserve_authority == check.found.reserve_authority.0,
        (SignerSeeds {
            derivation: Derivation { purpose: Purpose::MintAuthority, base: accounts.anker },
            bump: check.found.mint_authority.1,
        }).spec_derive(program_id, check.found.mint_authority.0),
        spec_check_mint_authority(b_sol_mint, check.found.mint_authority.0) is Ok,
{
    let base = check.found.instance.0;
    lemma_found_address_is_derived(
        Derivation { purpose: Purpose::MintAuthority, base },
        program_id,
    );
    lemma_found_address_is_derived(
        Derivation { purpose: Purpose::ReserveAuthority, base },
        program_id,
    );
    lemma_found_address_is_derived(Derivation { purpose: Purpose::StSolReserve, base }, program_id);
    lemma_found_address_is_derived(Derivation { purpose: Purpose::UstReserve, base }, program_id);
}

/// Every account that an initialization creates is created, and initialized, under the
/// signature of its own address, if the instance is stored in the end.
pub proof fn created_accounts_are_signed_for(
    program_id: Address,
    accounts: InitializeAccounts,
    check: InitializeCheck,
    b_sol_mint: Contents,
    st_sol_reserve: Contents,
    i: int,
)
    requires
        comes_from(check, program_id, accounts),
        check.spec_finish(b_sol_mint, st_sol_reserve).actions.len() > 0,
        0 <= i < initialize_plan(program_id, accounts).actions.len(),
    ensures
        match initialize_plan(program_id, accounts).actions[i] {
            ActionView::CreateAccount { owner: _, account, sysvar_rent: _, space: _, seeds } => {
                seeds.spec_derive(program_id, account)
            },
            ActionView::InitializeSplAccount { account, mint: _, seeds } => seeds.spec_derive(
                program_id,
                account,
            ),
            _ => false,
        },
{
    initialized_accounts_are_the_derived_ones(
        program_id,
        accounts,
        check,
        b_sol_mint,
        st_sol_reserve,
    );
    let base = check.found.instance.0;
    lemma_found_address_is_derived(
        Derivation { purpose: Purpose::Instance, base: accounts.solido.key },
        program_id,
    );
    lemma_found_address_is_derived(Derivation { purpose: Purpose::StSolReserve, base }, program_id);
    lemma_found_address_is_derived(Derivation { purpose: Purpose::UstReserve, base }, program_id);
}

/// An account in which the state of an instance was stored: it is owned by the program, and
/// starts with that state.
pub open spec fn stores(account: Account, key: Address, program_id: Address, anker: Anker) -> bool {
    &&& account.key == key
    &&& account.contents.owner == program_id
    &&& exists|before: Seq<u8>|
        before.len() >= ANKER_LEN && #[trigger] (anker.spec_encode() + before.skip(
            ANKER_LEN as int,
        )) == account.contents.data@
}

/// An instance that an initialization stored is the one that later instructions read, with
/// the state of its Solido instance as it is by then, and it passes the checks of its
/// reserve accounts and their authority.
pub proof fn initialized_instance_is_read_back(
    program_id: Address,
    accounts: InitializeAccounts,
    check: InitializeCheck,
    b_sol_mint: Contents,
    st_sol_reserve: Contents,
    anker: Anker,
    stored: Account,
    solido_account: SolidoAccount,
)
    requires
        comes_from(check, program_id, accounts),
        check.spec_finish(b_sol_mint, st_sol_reserve) == save_plan(accounts.anker, anker),
        stores(stored, accounts.anker, program_id, anker),
        solido_account.key == accounts.solido.key,
        solido_account.owner == accounts.solido_program,
        solido_account.state is Ok,
    ensures
        spec_deserialize_anker(program_id, stored, solido_account) == Ok::<_, Failure>(
            (solido_account.state->Ok_0, anker),
        ),
        spec_check_derived(
            st_sol_reserve_seeds(anker, stored.key),
            program_id,
            accounts.st_sol_reserve_account,
        ) is Ok,
        spec_check_derived(
            ust_reserve_seeds(anker, stored.key),
            program_id,
            accounts.ust_reserve_account,
        ) is Ok,
        spec_check_derived(
            reserve_authority_seeds(anker, stored.key),
            program_id,
            accounts.reserve_authority,
        ) is Ok,
{
    assert(save_plan(accounts.anker, anker).actions[0] == (ActionView::SaveAnker {
        account: accounts.anker,
        anker,
    }));
    let before = choose|before: Seq<u8>|
        before.len() >= ANKER_LEN && #[trigger] (anker.spec_encode() + before.skip(
            ANKER_LEN as int,
        )) == stored.contents.data@;
    stored_state_is_read_back(anker, before);
    lemma_found_address_is_derived(
        Derivation { purpose: Purpose::Instance, base: accounts.solido.key },
        program_id,
    );
    assert(check.spec_finish(b_sol_mint, st_sol_reserve).actions[0] == (ActionView::SaveAnker {
        account: accounts.anker,
        anker,
    }));
}

/// A change that the manager stored is what later instructions read, at the same address
/// and for the same Solido instance.
pub proof fn changed_instance_is_read_back(
    program_id: Address,
    account: Account,
    solido_account: SolidoAccount,
    anker: Anker,
    changed: Anker,
    stored: Account,
)
    requires
        spec_deserialize_anker(program_id, account, solido_account) matches Ok((_, read)) && read
            == anker,
        changed == (Anker {
            terra_rewards_destination: changed.terra_rewards_destination,
            token_swap_pool: changed.token_swap_pool,
            token_swap_bump_seed: changed.token_swap_bump_seed,
            ..anker
        }),
        stores(stored, account.key, program_id, changed),
    ensures
        spec_deserialize_anker(program_id, stored, solido_account) == Ok::<_, Failure>(
            (solido_account.state->Ok_0, changed),
        ),
{
    let before = choose|before: Seq<u8>|
        before.len() >= ANKER_LEN && #[trigger] (changed.spec_encode() + before.skip(
            ANKER_LEN as int,
        )) == stored.contents.data@;
    stored_state_is_read_back(changed, before);
}

} // verus!
