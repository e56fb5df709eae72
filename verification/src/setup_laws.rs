//! Laws of how an instance is set up, stated over the bytes of its accounts.

use crate::account::{Account, Contents};
use crate::action::{ActionView, End, PlanView};
use crate::address::Address;
use crate::derived::{
    Derivation, Purpose, SignerSeeds, ANKER_MINT_AUTHORITY, ANKER_RESERVE_AUTHORITY,
    ANKER_STSOL_RESERVE_ACCOUNT, ANKER_UST_RESERVE_ACCOUNT, ORCA_TOKEN_SWAP_V2,
};
use crate::error::{Abort, AnkerError, Failure, LidoError, ProgramError};
use crate::instruction::InitializeAccounts;
use crate::outcome_laws::is_refused;
use crate::process_laws::initialized_accounts_are_the_derived_ones;
use crate::processor::{
    initialize_plan, is_rent_sysvar, spec_check_mint_authority, started_initialize, Found,
    InitializeCheck, RENT_SYSVAR,
};
use crate::reading_laws::{
    accounts_of_an_instance_are_told, addresses_are_told_apart_by_their_bytes, belongs,
    b_sol_mint_is_told, highest_viable_bump_seed_is_found, is_found, is_mint, is_st_sol_account,
    is_unviable, mint_is_read, solido_is_read, st_sol_account_is_told,
};
use crate::solido::Solido;
use crate::spl::TOKEN_PROGRAM;
use crate::state::Anker;
use vstd::prelude::*;

verus! {

/// Whether an account is the rent sysvar, and long enough to hold it.
pub open spec fn is_rent(key: Address, data: Seq<u8>) -> bool {
    key.bytes == RENT_SYSVAR && data.len() >= 17
}

/// Whether `found` is what is found for an instance of the program: its own address, from
/// the Solido instance at `solido`, and from its own address those of its authorities and
/// reserve accounts, each with the highest viable bump seed.
pub open spec fn is_found_for(program: Address, solido: Address, found: Found) -> bool {
    let base = found.instance.0.bytes@;
    &&& is_found(program, seq![solido.bytes@], found.instance.0, found.instance.1)
    &&& is_found(
        program,
        seq![base, ANKER_MINT_AUTHORITY@],
        found.mint_authority.0,
        found.mint_authority.1,
    )
    &&& is_found(
        program,
        seq![base, ANKER_RESERVE_AUTHORITY@],
        found.reserve_authority.0,
        found.reserve_authority.1,
    )
    &&& is_found(
        program,
        seq![base, ANKER_STSOL_RESERVE_ACCOUNT@],
        found.st_sol_reserve.0,
        found.st_sol_reserve.1,
    )
    &&& is_found(
        program,
        seq![base, ANKER_UST_RESERVE_ACCOUNT@],
        found.ust_reserve.0,
        found.ust_reserve.1,
    )
}

/// Whether one of the addresses that an instance needs has no viable bump seed.
pub open spec fn lacks_an_address(program: Address, instance: Address) -> bool {
    let base = instance.bytes@;
    ||| is_unviable(program, seq![base, ANKER_MINT_AUTHORITY@])
    ||| is_unviable(program, seq![base, ANKER_RESERVE_AUTHORITY@])
    ||| is_unviable(program, seq![base, ANKER_STSOL_RESERVE_ACCOUNT@])
    ||| is_unviable(program, seq![base, ANKER_UST_RESERVE_ACCOUNT@])
}

/// The action creates `account`, and pays the rent that `rent` says.
pub open spec fn creates(
    action: ActionView,
    owner: [u8; 32],
    account: Address,
    rent: Address,
    space: int,
    seeds: SignerSeeds,
) -> bool {
    &&& action matches ActionView::CreateAccount {
        owner: o,
        account: a,
        sysvar_rent: r,
        space: s,
        seeds: k,
    }
    &&& o.bytes == owner
    &&& a == account
    &&& r == rent
    &&& s == space
    &&& k == seeds
}

/// The plan creates the account of the instance, and creates and initializes one token
/// account for stSOL and one for UST, each under the signature of its own address; and
/// what it checks afterwards are the accounts that were given.
pub open spec fn sets_up(
    plan: PlanView,
    program_id: Address,
    accounts: InitializeAccounts,
    solido: Solido,
    found: Found,
) -> bool {
    let rent = accounts.sysvar_rent.key;
    let signer = |purpose: Purpose, base: Address, bump: u8|
        SignerSeeds { derivation: Derivation { purpose, base }, bump };
    let own = signer(Purpose::Instance, accounts.solido.key, found.instance.1);
    let st_sol = signer(Purpose::StSolReserve, found.instance.0, found.st_sol_reserve.1);
    let ust = signer(Purpose::UstReserve, found.instance.0, found.ust_reserve.1);
    &&& plan.actions.len() == 5
    &&& creates(plan.actions[0], program_id.bytes, accounts.anker, rent, 166, own)
    &&& creates(
        plan.actions[1],
        TOKEN_PROGRAM,
        accounts.st_sol_reserve_account,
        rent,
        165,
        st_sol,
    )
    &&& plan.actions[2] == (ActionView::InitializeSplAccount {
        account: accounts.st_sol_reserve_account,
        mint: accounts.st_sol_mint,
        seeds: st_sol,
    })
    &&& creates(plan.actions[3], TOKEN_PROGRAM, accounts.ust_reserve_account, rent, 165, ust)
    &&& plan.actions[4] == (ActionView::InitializeSplAccount {
        account: accounts.ust_reserve_account,
        mint: accounts.ust_mint,
        seeds: ust,
    })
    &&& plan.end matches End::Inspect(check)
    &&& check.program_id == program_id
    &&& check.solido_state == solido
    &&& check.found == found
    &&& check.solido == accounts.solido.key
    &&& check.solido_program == accounts.solido_program
    &&& check.b_sol_mint == accounts.b_sol_mint
    &&& check.token_swap_pool == accounts.token_swap_pool
    &&& check.terra_rewards_destination == accounts.terra_rewards_destination
    &&& check.reserve_authority == accounts.reserve_authority
    &&& check.st_sol_reserve_account == accounts.st_sol_reserve_account
    &&& check.ust_reserve_account == accounts.ust_reserve_account
}

/// The rent sysvar is told by its address and its length.
pub proof fn rent_sysvar_is_told(account: Account)
    ensures
        is_rent_sysvar(account) <==> is_rent(account.key, account.contents.data@),
{
    if account.key@ == RENT_SYSVAR@ {
        assert forall|i: int| 0 <= i < 32 implies account.key.bytes[i] == RENT_SYSVAR[i] by {
            assert(account.key@[i] == RENT_SYSVAR@[i]);
        }
        assert(account.key.bytes =~= RENT_SYSVAR);
    }
}

/// What an initialization sets up once its addresses are found.
pub proof fn started_initialization_sets_up(
    program_id: Address,
    accounts: InitializeAccounts,
    solido: Solido,
    found: Found,
)
    ensures
        sets_up(
            started_initialize(program_id, accounts, solido, found),
            program_id,
            accounts,
            solido,
            found,
        ),
{
}

/// What an initialization finds.
proof fn lemma_finds(program: Address, solido: Address, found: Found)
    ensures
        ({
            let find = |purpose: Purpose|
                (Derivation { purpose, base: found.instance.0 }).spec_find(program);
            let own = (Derivation { purpose: Purpose::Instance, base: solido }).spec_find(program);
            &&& is_found_for(program, solido, found) <==> {
                &&& own == Some(found.instance)
                &&& find(Purpose::MintAuthority) == Some(found.mint_authority)
                &&& find(Purpose::ReserveAuthority) == Some(found.reserve_authority)
                &&& find(Purpose::StSolReserve) == Some(found.st_sol_reserve)
                &&& find(Purpose::UstReserve) == Some(found.ust_reserve)
            }
            &&& is_found(program, seq![solido.bytes@], found.instance.0, found.instance.1)
                <==> own == Some(found.instance)
            &&& is_unviable(program, seq![solido.bytes@]) <==> own is None
            &&& lacks_an_address(program, found.instance.0) <==> {
                ||| find(Purpose::MintAuthority) is None
                ||| find(Purpose::ReserveAuthority) is None
                ||| find(Purpose::StSolReserve) is None
                ||| find(Purpose::UstReserve) is None
            }
        }),
{
    let base = found.instance.0;
    highest_viable_bump_seed_is_found(
        Derivation { purpose: Purpose::Instance, base: solido },
        program,
        found.instance.0,
        found.instance.1,
    );
    highest_viable_bump_seed_is_found(
        Derivation { purpose: Purpose::MintAuthority, base },
        program,
        found.mint_authority.0,
        found.mint_authority.1,
    );
    highest_viable_bump_seed_is_found(
        Derivation { purpose: Purpose::ReserveAuthority, base },
        program,
        found.reserve_authority.0,
        found.reserve_authority.1,
    );
    highest_viable_bump_seed_is_found(
        Derivation { purpose: Purpose::StSolReserve, base },
        program,
        found.st_sol_reserve.0,
        found.st_sol_reserve.1,
    );
    highest_viable_bump_seed_is_found(
        Derivation { purpose: Purpose::UstReserve, base },
        program,
        found.ust_reserve.0,
        found.ust_reserve.1,
    );
}

/// An initialization sets up an instance wherever the rent sysvar and the Solido state can
/// be read, the given account is at the address that is found for the instance, and the
/// addresses that belong to it are found.
pub proof fn initialization_sets_up(
    program_id: Address,
    accounts: InitializeAccounts,
    solido: Solido,
    found: Found,
)
    requires
        is_rent(accounts.sysvar_rent.key, accounts.sysvar_rent.contents.data@),
        is_found_for(program_id, accounts.solido.key, found),
        found.instance.0 == accounts.anker,
        accounts.solido.owner == accounts.solido_program,
        accounts.solido.state == Ok::<Solido, ProgramError>(solido),
    ensures
        sets_up(initialize_plan(program_id, accounts), program_id, accounts, solido, found),
{
    rent_sysvar_is_told(accounts.sysvar_rent);
    lemma_finds(program_id, accounts.solido.key, found);
    solido_is_read(accounts.solido, accounts.solido_program, solido);
}

/// An initialization is refused, and does nothing, for a rent sysvar that cannot be read,
/// for an account that is not at the address of the instance, for a Solido state that
/// cannot be read, and for an address that cannot be found, in this order.
pub proof fn initialization_is_refused(
    program_id: Address,
    accounts: InitializeAccounts,
    found: Found,
)
    ensures
        ({
            let plan = initialize_plan(program_id, accounts);
            let rent = is_rent(accounts.sysvar_rent.key, accounts.sysvar_rent.contents.data@);
            let own = seq![accounts.solido.key.bytes@];
            let located = rent && is_found(
                program_id,
                own,
                found.instance.0,
                found.instance.1,
            );
            let owned = accounts.solido.owner == accounts.solido_program;
            &&& !rent ==> is_refused(plan, Failure::Error(ProgramError::InvalidArgument))
            &&& rent && is_unviable(program_id, own) ==> is_refused(
                plan,
                Failure::Abort(Abort::NoViableBumpSeed),
            )
            &&& located && found.instance.0 != accounts.anker ==> is_refused(
                plan,
                Failure::Error(ProgramError::Anker(AnkerError::InvalidDerivedAccount)),
            )
            &&& located && found.instance.0 == accounts.anker ==> {
                &&& !owned ==> is_refused(
                    plan,
                    Failure::Error(ProgramError::Lido(LidoError::InvalidOwner)),
                )
                &&& owned ==> (accounts.solido.state matches Err(e) ==> is_refused(
                    plan,
                    Failure::Error(e),
                ))
                &&& owned && accounts.solido.state is Ok && lacks_an_address(
                    program_id,
                    found.instance.0,
                ) ==> is_refused(plan, Failure::Abort(Abort::NoViableBumpSeed))
            }
        }),
{
    rent_sysvar_is_told(accounts.sysvar_rent);
    lemma_finds(program_id, accounts.solido.key, found);
    solido_is_read(accounts.solido, accounts.solido_program, accounts.solido.state->Ok_0);
}

/// The program controls a mint exactly where the mint authority in its bytes is the given
/// one.
pub proof fn mint_authority_is_told(mint: Contents, authority: Address)
    ensures
        ({
            let result = spec_check_mint_authority(mint, authority);
            let data = mint.data@;
            let controlled = is_mint(data) && data[0] == 1 && data.subrange(4, 36)
                == authority.bytes@;
            &&& data.len() < 82 ==> result == Err::<(), Failure>(
                Failure::Abort(Abort::AccountDataTooShort),
            )
            &&& data.len() >= 82 && controlled ==> result == Ok::<(), Failure>(())
            &&& data.len() >= 82 && !controlled ==> result == Err::<(), Failure>(
                Failure::Error(ProgramError::Anker(AnkerError::InvalidTokenMint)),
            )
        }),
{
    let refusal = Failure::Error(ProgramError::Anker(AnkerError::InvalidTokenMint));
    mint_is_read(mint, refusal);
    let read = mint.spec_read_mint(refusal);
    if read is Ok && read->Ok_0.mint_authority is Some {
        addresses_are_told_apart_by_their_bytes(read->Ok_0.mint_authority->0, authority);
    }
}

/// The state of a new instance: the addresses that were given, and the bump seeds that were
/// found.
pub open spec fn is_new(check: InitializeCheck, anker: Anker, token_swap_bump_seed: u8) -> bool {
    &&& anker.b_sol_mint == check.b_sol_mint
    &&& anker.solido_program_id == check.solido_program
    &&& anker.solido == check.solido
    &&& anker.token_swap_pool == check.token_swap_pool
    &&& anker.terra_rewards_destination == check.terra_rewards_destination
    &&& anker.self_bump_seed == check.found.instance.1
    &&& anker.mint_authority_bump_seed == check.found.mint_authority.1
    &&& anker.reserve_authority_bump_seed == check.found.reserve_authority.1
    &&& anker.st_sol_reserve_account_bump_seed == check.found.st_sol_reserve.1
    &&& anker.ust_reserve_account_bump_seed == check.found.ust_reserve.1
    &&& anker.token_swap_bump_seed == token_swap_bump_seed
}

/// The state of a new instance is put together from what was given and found.
pub proof fn new_state_is_what_was_given(check: InitializeCheck, token_swap_bump_seed: u8)
    ensures
        is_new(check, check.spec_anker(token_swap_bump_seed), token_swap_bump_seed),
{
}

/// How an initialization ends: the new state is stored where all checks pass; else it is
/// refused for the pool, for the owner of the bSOL mint, for a reserve account or the
/// reserve authority at another address, for a reserve account that holds no stSOL, or for
/// a bSOL mint that the program does not control, in this order.
pub proof fn initialization_ends(
    check: InitializeCheck,
    b_sol_mint: Contents,
    st_sol_reserve: Contents,
    authority: Address,
    bump: u8,
)
    ensures
        ({
            let plan = check.spec_finish(b_sol_mint, st_sol_reserve);
            let orca = Address { bytes: ORCA_TOKEN_SWAP_V2 };
            let pool = seq![check.token_swap_pool.bytes@];
            let instance = check.found.instance.0;
            let placed = {
                &&& belongs(
                    check.program_id,
                    instance,
                    ANKER_STSOL_RESERVE_ACCOUNT@,
                    check.found.st_sol_reserve.1,
                    check.st_sol_reserve_account,
                )
                &&& belongs(
                    check.program_id,
                    instance,
                    ANKER_UST_RESERVE_ACCOUNT@,
                    check.found.ust_reserve.1,
                    check.ust_reserve_account,
                )
                &&& belongs(
                    check.program_id,
                    instance,
                    ANKER_RESERVE_AUTHORITY@,
                    check.found.reserve_authority.1,
                    check.reserve_authority,
                )
            };
            let mint = b_sol_mint.data@;
            let controlled = is_mint(mint) && mint[0] == 1 && mint.subrange(4, 36)
                == check.found.mint_authority.0.bytes@;
            let wrong = |e: AnkerError| is_refused(plan, Failure::Error(ProgramError::Anker(e)));
            &&& is_unviable(orca, pool) ==> is_refused(
                plan,
                Failure::Abort(Abort::NoViableBumpSeed),
            )
            &&& is_found(orca, pool, authority, bump) ==> {
                &&& b_sol_mint.owner.bytes != TOKEN_PROGRAM ==> wrong(AnkerError::InvalidTokenMint)
                &&& b_sol_mint.owner.bytes == TOKEN_PROGRAM ==> {
                    &&& !placed ==> wrong(AnkerError::InvalidDerivedAccount)
                    &&& placed ==> (st_sol_reserve.spec_check_is_st_sol_account(check.solido_state)
                        matches Err(e) ==> is_refused(plan, e))
                    &&& placed && is_st_sol_account(st_sol_reserve, check.solido_state) ==> {
                        &&& mint.len() < 82 ==> is_refused(
                            plan,
                            Failure::Abort(Abort::AccountDataTooShort),
                        )
                        &&& mint.len() >= 82 && !controlled ==> wrong(AnkerError::InvalidTokenMint)
                        &&& mint.len() >= 82 && controlled ==> {
                            &&& plan.actions.len() == 1
                            &&& plan.end == End::Finish(Ok(()))
                            &&& plan.actions[0] matches ActionView::SaveAnker { account, anker }
                            &&& account == instance
                            &&& is_new(check, anker, bump)
                        }
                    }
                }
            }
        }),
{
    let anker = check.spec_anker(bump);
    let instance = check.found.instance.0;
    let derivation = Derivation {
        purpose: Purpose::TokenSwapAuthority,
        base: check.token_swap_pool,
    };
    assert(derivation.spec_seeds() =~= seq![check.token_swap_pool.bytes@]);
    highest_viable_bump_seed_is_found(
        derivation,
        Address { bytes: ORCA_TOKEN_SWAP_V2 },
        authority,
        bump,
    );
    b_sol_mint_is_told(anker, check.b_sol_mint, b_sol_mint.owner);
    accounts_of_an_instance_are_told(
        anker,
        check.program_id,
        instance,
        check.st_sol_reserve_account,
    );
    accounts_of_an_instance_are_told(anker, check.program_id, instance, check.ust_reserve_account);
    accounts_of_an_instance_are_told(anker, check.program_id, instance, check.reserve_authority);
    st_sol_account_is_told(st_sol_reserve, check.solido_state);
    mint_authority_is_told(b_sol_mint, check.found.mint_authority.0);
}

/// The state that an initialization stores, in the account that was given for it, is what
/// its accounts say: the bSOL mint, the Solido instance and its program, the token swap
/// pool and the destination on Terra are those that were given, and each bump seed is the
/// highest viable one for its address.
pub proof fn stored_instance_is_what_was_given(
    program_id: Address,
    accounts: InitializeAccounts,
    check: InitializeCheck,
    b_sol_mint: Contents,
    st_sol_reserve: Contents,
)
    requires
        initialize_plan(program_id, accounts).end == End::Inspect(check),
        check.spec_finish(b_sol_mint, st_sol_reserve).actions.len() > 0,
    ensures
        ({
            let plan = check.spec_finish(b_sol_mint, st_sol_reserve);
            let orca = Address { bytes: ORCA_TOKEN_SWAP_V2 };
            let base = accounts.anker.bytes@;
            &&& plan.actions.len() == 1
            &&& plan.end == End::Finish(Ok(()))
            &&& plan.actions[0] matches ActionView::SaveAnker { account, anker }
            &&& account == accounts.anker
            &&& anker.b_sol_mint == accounts.b_sol_mint
            &&& anker.solido_program_id == accounts.solido_program
            &&& anker.solido == accounts.solido.key
            &&& anker.token_swap_pool == accounts.token_swap_pool
            &&& anker.terra_rewards_destination == accounts.terra_rewards_destination
            &&& is_found(
                program_id,
                seq![accounts.solido.key.bytes@],
                accounts.anker,
                anker.self_bump_seed,
            )
            &&& is_found(
                program_id,
                seq![base, ANKER_MINT_AUTHORITY@],
                check.found.mint_authority.0,
                anker.mint_authority_bump_seed,
            )
            &&& is_found(
                program_id,
                seq![base, ANKER_RESERVE_AUTHORITY@],
                accounts.reserve_authority,
                anker.reserve_authority_bump_seed,
            )
            &&& is_found(
                program_id,
                seq![base, ANKER_STSOL_RESERVE_ACCOUNT@],
                accounts.st_sol_reserve_account,
                anker.st_sol_reserve_account_bump_seed,
            )
            &&& is_found(
                program_id,
                seq![base, ANKER_UST_RESERVE_ACCOUNT@],
                accounts.ust_reserve_account,
                anker.ust_reserve_account_bump_seed,
            )
            &&& exists|authority: Address| #[trigger]
                is_found(
                    orca,
                    seq![accounts.token_swap_pool.bytes@],
                    authority,
                    anker.token_swap_bump_seed,
                )
        }),
{
    lemma_finds(program_id, accounts.solido.key, check.found);
    let derivation = Derivation {
        purpose: Purpose::TokenSwapAuthority,
        base: check.token_swap_pool,
    };
    let orca = Address { bytes: ORCA_TOKEN_SWAP_V2 };
    let (authority, bump) = derivation.spec_find(orca)->0;
    assert(derivation.spec_seeds() =~= seq![accounts.token_swap_pool.bytes@]);
    highest_viable_bump_seed_is_found(derivation, orca, authority, bump);
    initialization_ends(check, b_sol_mint, st_sol_reserve, authority, bump);
    let stored = check.spec_finish(b_sol_mint, st_sol_reserve).actions[0]->SaveAnker_anker;
    assert(stored.token_swap_bump_seed == bump);
    assert(is_found(
        orca,
        seq![accounts.token_swap_pool.bytes@],
        authority,
        stored.token_swap_bump_seed,
    ));
    assert(is_found_for(program_id, accounts.solido.key, check.found));
    initialized_accounts_are_the_derived_ones(
        program_id,
        accounts,
        check,
        b_sol_mint,
        st_sol_reserve,
    );
}

} // verus!
