//! Laws of the calls that follow each other: what becomes of a stored instance.

use crate::account::{Account, Contents};
use crate::action::{ActionView, End, PlanView};
use crate::address::Address;
use crate::derived::{Derivation, Purpose};
use crate::encoding_laws::stored_state_is_read_back;
use crate::error::Failure;
use crate::instruction::{AccountLists, AnkerInstruction};
use crate::process_laws::{initialized_accounts_are_the_derived_ones, stores};
use crate::processor::process_plan;
use crate::state::{Anker, ANKER_LEN};
use vstd::prelude::*;

verus! {

/// A call of the program, and how far it got.
pub struct Call {
    pub accounts: AccountLists,
    pub input: Seq<u8>,
    /// How many actions of the plan succeeded.
    pub done: nat,
    /// What an initialization reads again after its actions.
    pub b_sol_mint: Contents,
    pub st_sol_reserve: Contents,
    /// How many of the actions succeeded that come after that.
    pub done_after: nat,
}

impl Call {
    /// What the call is to do.
    pub open spec fn plan(self, program_id: Address) -> PlanView {
        process_plan(program_id, self.accounts, self.input)
    }

    /// What the call is to do after the actions of its plan, if they all succeed.
    pub open spec fn plan_after(self, program_id: Address) -> PlanView {
        match self.plan(program_id).end {
            End::Inspect(check) => check.spec_finish(self.b_sol_mint, self.st_sol_reserve),
            end => PlanView { actions: Seq::empty(), end },
        }
    }

    /// The call gets no further than its plan, and past the actions of the plan only if
    /// they all succeeded.
    pub open spec fn follows_its_plan(self, program_id: Address) -> bool {
        &&& self.done <= self.plan(program_id).actions.len()
        &&& self.done_after <= self.plan_after(program_id).actions.len()
        &&& self.done_after > 0 ==> self.done == self.plan(program_id).actions.len()
    }

    /// The actions that succeeded, in order.
    pub open spec fn performed(self, program_id: Address) -> Seq<ActionView> {
        self.plan(program_id).actions.take(self.done as int) + self.plan_after(
            program_id,
        ).actions.take(self.done_after as int)
    }

    /// The call succeeds: all its actions do, and it ends well.
    pub open spec fn succeeds(self, program_id: Address) -> bool {
        &&& self.done == self.plan(program_id).actions.len()
        &&& self.done_after == self.plan_after(program_id).actions.len()
        &&& self.plan_after(program_id).end == End::Finish(Ok(()))
    }

    /// The call succeeds, and it is this instruction.
    pub open spec fn succeeds_as(self, program_id: Address, instruction: AnkerInstruction) -> bool {
        &&& self.succeeds(program_id)
        &&& AnkerInstruction::spec_try_from_slice(self.input) matches Ok(decoded)
        &&& decoded == instruction
    }
}

/// The state at `key` after these actions, where it was `before`.
pub open spec fn stored_after(before: Anker, key: Address, actions: Seq<ActionView>) -> Anker
    decreases actions.len(),
{
    if actions.len() == 0 {
        before
    } else {
        match actions.last() {
            ActionView::SaveAnker { account, anker } if account == key => anker,
            _ => stored_after(before, key, actions.drop_last()),
        }
    }
}

/// The account is one at another address, or the state `anker` is stored in it.
pub open spec fn agrees(account: Account, key: Address, program_id: Address, anker: Anker) -> bool {
    account.key == key ==> stores(account, key, program_id, anker)
}

/// A call that comes to an instance at `key` in the state `anker`: its accounts hold that
/// state, and it cannot create the account at `key`, which exists.
pub open spec fn comes_to(call: Call, key: Address, program_id: Address, anker: Anker) -> bool {
    &&& call.follows_its_plan(program_id)
    &&& call.accounts.change_terra_rewards_destination matches Ok(list) ==> agrees(
        list.anker,
        key,
        program_id,
        anker,
    )
    &&& call.accounts.change_token_swap_pool matches Ok(list) ==> agrees(
        list.anker,
        key,
        program_id,
        anker,
    )
    &&& forall|i: int|
        0 <= i < call.performed(program_id).len() ==> !(#[trigger] call.performed(program_id)[i]
            matches ActionView::CreateAccount { account, .. } && account == key)
}

/// The two states differ at most in where rewards go on Terra, and in the token swap pool
/// and the bump seed of its authority.
pub open spec fn same_instance(a: Anker, b: Anker) -> bool {
    &&& a.b_sol_mint == b.b_sol_mint
    &&& a.solido_program_id == b.solido_program_id
    &&& a.solido == b.solido
    &&& a.self_bump_seed == b.self_bump_seed
    &&& a.mint_authority_bump_seed == b.mint_authority_bump_seed
    &&& a.reserve_authority_bump_seed == b.reserve_authority_bump_seed
    &&& a.st_sol_reserve_account_bump_seed == b.st_sol_reserve_account_bump_seed
    &&& a.ust_reserve_account_bump_seed == b.ust_reserve_account_bump_seed
}

/// Actions none of which stores a state at `key` leave the state there as it was.
proof fn lemma_nothing_stored(before: Anker, key: Address, actions: Seq<ActionView>)
    requires
        forall|i: int|
            0 <= i < actions.len() ==> !(#[trigger] actions[i] matches ActionView::SaveAnker {
                account,
                ..
            } && account == key),
    ensures
        stored_after(before, key, actions) == before,
    decreases actions.len(),
{
    if actions.len() > 0 {
        assert(actions.last() == actions[actions.len() - 1]);
        assert forall|i: int| 0 <= i < actions.drop_last().len() implies !(
        #[trigger] actions.drop_last()[i] matches ActionView::SaveAnker { account, .. } && account
            == key) by {
            assert(actions.drop_last()[i] == actions[i]);
        }
        lemma_nothing_stored(before, key, actions.drop_last());
    }
}

/// A state that is stored in an account is the one that is read from it.
proof fn lemma_stored_state_is_decoded(
    account: Account,
    key: Address,
    program_id: Address,
    anker: Anker,
)
    requires
        stores(account, key, program_id, anker),
    ensures
        Anker::spec_decode(account.contents.data@) == Ok::<Anker, Failure>(anker),
{
    let before = choose|before: Seq<u8>|
        before.len() >= ANKER_LEN && #[trigger] (anker.spec_encode() + before.skip(
            ANKER_LEN as int,
        )) == account.contents.data@;
    stored_state_is_read_back(anker, before);
}

/// A call that comes to a stored instance leaves it the same instance. Where rewards go on
/// Terra is changed by a successful change of that only, and the token swap pool and the
/// bump seed of its authority by a successful change of the pool only.
pub proof fn call_keeps_the_instance(call: Call, program_id: Address, key: Address, before: Anker)
    requires
        comes_to(call, key, program_id, before),
    ensures
        ({
            let after = stored_after(before, key, call.performed(program_id));
            &&& same_instance(before, after)
            &&& after.terra_rewards_destination != before.terra_rewards_destination
                ==> call.succeeds_as(program_id, AnkerInstruction::ChangeTerraRewardsDestination)
            &&& after.token_swap_pool != before.token_swap_pool || after.token_swap_bump_seed
                != before.token_swap_bump_seed ==> call.succeeds_as(
                program_id,
                AnkerInstruction::ChangeTokenSwapPool,
            )
        }),
{
    let actions = call.performed(program_id);
    let plan = call.plan(program_id);
    match AnkerInstruction::spec_try_from_slice(call.input) {
        Ok(AnkerInstruction::ChangeTerraRewardsDestination) => {
            if actions.len() > 0 && plan.actions[0]->SaveAnker_account == key {
                assert(actions =~= plan.actions);
                lemma_stored_state_is_decoded(
                    call.accounts.change_terra_rewards_destination->Ok_0.anker,
                    key,
                    program_id,
                    before,
                );
            } else {
                lemma_nothing_stored(before, key, actions);
            }
        },
        Ok(AnkerInstruction::ChangeTokenSwapPool) => {
            if actions.len() > 0 && plan.actions[0]->SaveAnker_account == key {
                assert(actions =~= plan.actions);
                lemma_stored_state_is_decoded(
                    call.accounts.change_token_swap_pool->Ok_0.anker,
                    key,
                    program_id,
                    before,
                );
            } else {
                lemma_nothing_stored(before, key, actions);
            }
        },
        Ok(AnkerInstruction::Initialize) => {
            if call.done > 0 {
                assert(actions[0] == plan.actions[0]);
            }
            lemma_nothing_stored(before, key, actions);
        },
        _ => {
            lemma_nothing_stored(before, key, actions);
        },
    }
}

/// The states of an instance at `key` in the course of `calls`: each call comes to the state
/// that the calls before it left.
pub open spec fn history(
    calls: Seq<Call>,
    states: Seq<Anker>,
    program_id: Address,
    key: Address,
) -> bool {
    &&& states.len() == calls.len() + 1
    &&& forall|i: int|
        0 <= i < calls.len() ==> {
            &&& comes_to(#[trigger] calls[i], key, program_id, states[i])
            &&& states[i + 1] == stored_after(states[i], key, calls[i].performed(program_id))
        }
}

/// Whatever calls follow the one that stored an instance, it stays the same instance: the
/// bSOL mint, the Solido instance, its program, and every bump seed but that of the token
/// swap authority are those that it was stored with.
pub proof fn instance_stays_the_same(
    calls: Seq<Call>,
    states: Seq<Anker>,
    program_id: Address,
    key: Address,
    n: int,
)
    requires
        history(calls, states, program_id, key),
        0 <= n <= calls.len(),
    ensures
        same_instance(states[0], states[n]),
    decreases n,
{
    if n > 0 {
        instance_stays_the_same(calls, states, program_id, key, n - 1);
        call_keeps_the_instance(calls[n - 1], program_id, key, states[n - 1]);
    }
}

/// An instance is for good what its initialization made it. Whatever calls follow a
/// successful initialization at `key`, the bSOL mint, the Solido instance and its program
/// are those that it was given, and the bump seeds are those that it found, but for that of
/// the token swap authority, which may change. What stood at `key` before does not count.
pub proof fn initialized_instance_stays_the_same(
    first: Call,
    calls: Seq<Call>,
    states: Seq<Anker>,
    program_id: Address,
    key: Address,
    before: Anker,
    n: int,
)
    requires
        first.succeeds_as(program_id, AnkerInstruction::Initialize),
        first.accounts.initialize matches Ok(list) && list.anker == key,
        states[0] == stored_after(before, key, first.performed(program_id)),
        history(calls, states, program_id, key),
        0 <= n <= calls.len(),
    ensures
        ({
            let list = first.accounts.initialize->Ok_0;
            let found = |purpose: Purpose|
                (Derivation { purpose, base: key }).spec_find(program_id);
            &&& states[n].b_sol_mint == list.b_sol_mint
            &&& states[n].solido == list.solido.key
            &&& states[n].solido_program_id == list.solido_program
            &&& (Derivation { purpose: Purpose::Instance, base: list.solido.key }).spec_find(
                program_id,
            ) == Some((key, states[n].self_bump_seed))
            &&& found(Purpose::MintAuthority) matches Some((_, bump)) && bump
                == states[n].mint_authority_bump_seed
            &&& found(Purpose::ReserveAuthority) == Some(
                (list.reserve_authority, states[n].reserve_authority_bump_seed),
            )
            &&& found(Purpose::StSolReserve) == Some(
                (list.st_sol_reserve_account, states[n].st_sol_reserve_account_bump_seed),
            )
            &&& found(Purpose::UstReserve) == Some(
                (list.ust_reserve_account, states[n].ust_reserve_account_bump_seed),
            )
        }),
{
    let list = first.accounts.initialize->Ok_0;
    let check = first.plan(program_id).end->Inspect_0;
    let after = first.plan_after(program_id);
    assert(first.performed(program_id).last() == after.actions[0]);
    initialized_accounts_are_the_derived_ones(
        program_id,
        list,
        check,
        first.b_sol_mint,
        first.st_sol_reserve,
    );
    instance_stays_the_same(calls, states, program_id, key, n);
}

/// While no call from the `m`-th up to the `n`-th is a successful change of where rewards
/// go on Terra, that stays as it was; while none is a successful change of the token swap
/// pool, the pool and the bump seed of its authority stay as they were.
pub proof fn only_changes_change_an_instance(
    calls: Seq<Call>,
    states: Seq<Anker>,
    program_id: Address,
    key: Address,
    m: int,
    n: int,
)
    requires
        history(calls, states, program_id, key),
        0 <= m <= n <= calls.len(),
    ensures
        (forall|i: int|
            m <= i < n ==> !(#[trigger] calls[i]).succeeds_as(
                program_id,
                AnkerInstruction::ChangeTerraRewardsDestination,
            )) ==> states[n].terra_rewards_destination == states[m].terra_rewards_destination,
        (forall|i: int|
            m <= i < n ==> !(#[trigger] calls[i]).succeeds_as(
                program_id,
                AnkerInstruction::ChangeTokenSwapPool,
            )) ==> {
            &&& states[n].token_swap_pool == states[m].token_swap_pool
            &&& states[n].token_swap_bump_seed == states[m].token_swap_bump_seed
        },
    decreases n - m,
{
    if m < n {
        only_changes_change_an_instance(calls, states, program_id, key, m, n - 1);
        call_keeps_the_instance(calls[n - 1], program_id, key, states[n - 1]);
    }
}

} // verus!
