//! Laws of what is read from accounts and addresses, stated byte by byte.

use crate::account::{
    instance_seeds, reserve_authority_seeds, spec_deserialize_anker, st_sol_reserve_seeds,
    ust_reserve_seeds, Account, Contents,
};
use crate::address::{address_of, lemma_address_is_its_bytes, Address};
use crate::derived::{
    derived_address, found_address, highest_bump, program_address, seed_bytes, spec_check_derived,
    Derivation, Purpose, SignerSeeds, ANKER_MINT_AUTHORITY, ANKER_RESERVE_AUTHORITY,
    ANKER_STSOL_RESERVE_ACCOUNT, ANKER_UST_RESERVE_ACCOUNT,
};
use crate::encoding_laws::number_is_read_back;
use crate::error::{
    anker_failure, lido_failure, Abort, AnkerError, BorshError, Failure, LidoError, ProgramError,
};
use crate::instruction::AnkerInstruction;
use crate::solido::{Signer, Solido, SolidoAccount};
use crate::spl::{
    tagged_none, tagged_some, transfer_instruction, AccountMeta, Mint, TokenAccount, TOKEN_PROGRAM,
};
use crate::state::Anker;
use crate::token::{little_endian, little_endian_bytes};
use vstd::prelude::*;
use vstd::std_specs::cmp::PartialEqSpec;

verus! {

/// The number in eight bytes, the least significant first.
pub open spec fn number(b: Seq<u8>) -> int {
    b[0] + 0x100 * b[1] + 0x1_0000 * b[2] + 0x100_0000 * b[3] + 0x1_0000_0000 * b[4]
        + 0x100_0000_0000 * b[5] + 0x1_0000_0000_0000 * b[6] + 0x100_0000_0000_0000 * b[7]
}

/// Whether the four bytes from `at` on say that an optional value is present or absent.
pub open spec fn is_tag(data: Seq<u8>, at: int) -> bool {
    data[at] <= 1 && data[at + 1] == 0 && data[at + 2] == 0 && data[at + 3] == 0
}

/// Whether the data of an account is a mint, given that it is long enough.
pub open spec fn is_mint(data: Seq<u8>) -> bool {
    is_tag(data, 0) && data[45] <= 1 && is_tag(data, 46)
}

/// Whether the data of an account is a token account, given that it is long enough.
pub open spec fn is_token_account(data: Seq<u8>) -> bool {
    is_tag(data, 72) && data[108] <= 2 && is_tag(data, 109) && is_tag(data, 129)
}

/// Whether `data` starts with the state `anker`.
pub open spec fn holds(data: Seq<u8>, anker: Anker) -> bool {
    &&& data.len() >= 166
    &&& anker.b_sol_mint.bytes@ == data.subrange(0, 32)
    &&& anker.solido_program_id.bytes@ == data.subrange(32, 64)
    &&& anker.solido.bytes@ == data.subrange(64, 96)
    &&& anker.token_swap_pool.bytes@ == data.subrange(96, 128)
    &&& anker.terra_rewards_destination.bytes@ == data.subrange(128, 160)
    &&& anker.self_bump_seed == data[160]
    &&& anker.mint_authority_bump_seed == data[161]
    &&& anker.reserve_authority_bump_seed == data[162]
    &&& anker.st_sol_reserve_account_bump_seed == data[163]
    &&& anker.ust_reserve_account_bump_seed == data[164]
    &&& anker.token_swap_bump_seed == data[165]
}

/// Whether `account` is an Anker instance of the program in the state `anker`.
pub open spec fn is_instance(program: Address, account: Account, anker: Anker) -> bool {
    &&& account.contents.owner == program
    &&& holds(account.contents.data@, anker)
    &&& program_address(seq![anker.solido.bytes@, seq![anker.self_bump_seed]], program.bytes@)
        == Some(account.key.bytes)
}

/// Whether `account` is the Solido instance of `anker`, in the state `solido`.
pub open spec fn is_solido(anker: Anker, account: SolidoAccount, solido: Solido) -> bool {
    &&& account.key == anker.solido
    &&& account.owner == anker.solido_program_id
    &&& account.state == Ok::<Solido, ProgramError>(solido)
}

/// Whether an account holds stSOL: a token account of the SPL token program, for the mint
/// that Solido names.
pub open spec fn is_st_sol_account(contents: Contents, solido: Solido) -> bool {
    &&& contents.owner.bytes == TOKEN_PROGRAM
    &&& contents.data@.len() >= 165
    &&& is_token_account(contents.data@)
    &&& contents.data@.subrange(0, 32) == solido.st_sol_mint.bytes@
}

/// Whether `address` is what the instance at `instance` derives for the seed `name` with
/// the bump seed `bump`.
pub open spec fn belongs(
    program: Address,
    instance: Address,
    name: Seq<u8>,
    bump: u8,
    address: Address,
) -> bool {
    program_address(seq![instance.bytes@, name, seq![bump]], program.bytes@) == Some(address.bytes)
}

/// Whether `address` is what `seeds` derive with the bump seed `bump`, and no higher bump
/// seed derives any address.
pub open spec fn is_found(
    program: Address,
    seeds: Seq<Seq<u8>>,
    address: Address,
    bump: u8,
) -> bool {
    &&& bump >= 1
    &&& program_address(seeds.push(seq![bump]), program.bytes@) == Some(address.bytes)
    &&& forall|b: u8|
        b > bump ==> #[trigger] program_address(seeds.push(seq![b]), program.bytes@) is None
}

/// Whether no bump seed derives an address from `seeds`.
pub open spec fn is_unviable(program: Address, seeds: Seq<Seq<u8>>) -> bool {
    forall|b: u8|
        b >= 1 ==> #[trigger] program_address(seeds.push(seq![b]), program.bytes@) is None
}

/// Any 32 bytes are an address, and it consists of them.
pub proof fn any_bytes_are_an_address(bytes: Seq<u8>)
    requires
        bytes.len() == 32,
    ensures
        address_of(bytes).bytes@ == bytes,
{
    let s = bytes;
    let array: [u8; 32] = [
        s[0], s[1], s[2], s[3], s[4], s[5], s[6], s[7], s[8], s[9], s[10], s[11], s[12], s[13],
        s[14], s[15], s[16], s[17], s[18], s[19], s[20], s[21], s[22], s[23], s[24], s[25], s[26],
        s[27], s[28], s[29], s[30], s[31],
    ];
    let address = Address { bytes: array };
    assert(array@ =~= s);
    lemma_address_is_its_bytes(address, address);
}

/// Addresses are told apart by every one of their bytes, and consist of nothing else.
pub proof fn addresses_are_told_apart_by_their_bytes(a: Address, b: Address)
    ensures
        a@ == a.bytes@,
        a@.len() == 32,
        Address::obeys_eq_spec(),
        a.eq_spec(&b) <==> (forall|i: int| 0 <= i < 32 ==> a.bytes[i] == b.bytes[i]),
        a == b <==> a.bytes@ == b.bytes@,
        a == b <==> a.bytes == b.bytes,
{
    lemma_address_is_its_bytes(a, b);
    if forall|i: int| 0 <= i < 32 ==> a.bytes[i] == b.bytes[i] {
        assert(a.bytes =~= b.bytes);
    }
}

/// Eight bytes have the value of their sum, each at its place.
pub proof fn eight_bytes_are_summed(bytes: Seq<u8>)
    requires
        bytes.len() == 8,
    ensures
        little_endian(bytes) == number(bytes),
        0 <= number(bytes) <= u64::MAX,
{
    reveal_with_fuel(little_endian, 9);
    let b1 = bytes.drop_first();
    let b2 = b1.drop_first();
    let b3 = b2.drop_first();
    let b4 = b3.drop_first();
    let b5 = b4.drop_first();
    let b6 = b5.drop_first();
    let b7 = b6.drop_first();
    assert(b7.drop_first().len() == 0);
}

/// The eight bytes of a number sum up to it.
pub proof fn number_is_spelled_out(value: u64)
    ensures
        little_endian_bytes(value as nat, 8).len() == 8,
        number(little_endian_bytes(value as nat, 8)) == value,
{
    number_is_read_back(value);
    eight_bytes_are_summed(little_endian_bytes(value as nat, 8));
}

/// Tags are read as the two forms that they have.
proof fn lemma_tag(data: Seq<u8>, at: int)
    requires
        0 <= at,
        at + 4 <= data.len(),
    ensures
        is_tag(data, at) <==> (tagged_some(data, at) || tagged_none(
            data,
            at,
        )),
        tagged_some(data, at) ==> data[at] == 1,
        tagged_none(data, at) ==> data[at] == 0,
{
    let four = data.subrange(at, at + 4);
    assert(four[0] == data[at] && four[1] == data[at + 1] && four[2] == data[at + 2] && four[3]
        == data[at + 3]);
    if is_tag(data, at) {
        if data[at] == 1 {
            assert(four =~= seq![1u8, 0, 0, 0]);
        } else {
            assert(four =~= seq![0u8, 0, 0, 0]);
        }
    }
    if four == seq![1u8, 0, 0, 0] {
        assert(four[0] == 1 && four[1] == 0 && four[2] == 0 && four[3] == 0);
    }
    if four == seq![0u8, 0, 0, 0] {
        assert(four[0] == 0 && four[1] == 0 && four[2] == 0 && four[3] == 0);
    }
}

/// What is read of a mint: its supply is the whole number in the bytes 36 to 43, and its
/// authority the address in the bytes 4 to 35, if the first byte says that there is one.
/// Data that is too short makes the program abort, and data that is no mint is refused.
pub proof fn mint_is_read(contents: Contents, refusal: Failure)
    ensures
        contents.data@.len() < 82 ==> contents.spec_read_mint(refusal) == Err::<Mint, Failure>(
            Failure::Abort(Abort::AccountDataTooShort),
        ),
        contents.data@.len() >= 82 && !is_mint(contents.data@) ==> contents.spec_read_mint(refusal)
            == Err::<Mint, Failure>(refusal),
        contents.data@.len() >= 82 && is_mint(contents.data@) ==> {
            &&& contents.spec_read_mint(refusal) matches Ok(mint)
            &&& mint.supply == number(contents.data@.subrange(36, 44))
            &&& contents.data@[0] == 0 ==> mint.mint_authority is None
            &&& contents.data@[0] == 1 ==> (mint.mint_authority matches Some(authority)
                && authority.bytes@ == contents.data@.subrange(4, 36))
        },
{
    let data = contents.data@;
    if data.len() >= 82 {
        lemma_tag(data, 0);
        lemma_tag(data, 46);
        eight_bytes_are_summed(data.subrange(36, 44));
        any_bytes_are_an_address(data.subrange(4, 36));
    }
}

/// What is read of a token account: its mint is the address in the first 32 bytes, and its
/// amount the whole number in the bytes 64 to 71. Data that is too short makes the program
/// abort, and data that is no token account is refused.
pub proof fn token_account_is_read(contents: Contents, refusal: Failure)
    ensures
        contents.data@.len() < 165 ==> contents.spec_read_token_account(refusal) == Err::<
            TokenAccount,
            Failure,
        >(Failure::Abort(Abort::AccountDataTooShort)),
        contents.data@.len() >= 165 && !is_token_account(contents.data@)
            ==> contents.spec_read_token_account(refusal) == Err::<TokenAccount, Failure>(refusal),
        contents.data@.len() >= 165 && is_token_account(contents.data@) ==> {
            &&& contents.spec_read_token_account(refusal) matches Ok(account)
            &&& account.mint.bytes@ == contents.data@.subrange(0, 32)
            &&& account.amount == number(contents.data@.subrange(64, 72))
        },
{
    let data = contents.data@;
    if data.len() >= 165 {
        lemma_tag(data, 72);
        lemma_tag(data, 109);
        lemma_tag(data, 129);
        eight_bytes_are_summed(data.subrange(64, 72));
        any_bytes_are_an_address(data.subrange(0, 32));
    }
}

/// An account passes as an stSOL account exactly where it is one; else it is refused for
/// its owner, for its length, or for what it holds, in this order.
pub proof fn st_sol_account_is_told(contents: Contents, solido: Solido)
    ensures
        contents.spec_check_is_st_sol_account(solido) is Ok <==> is_st_sol_account(
            contents,
            solido,
        ),
        contents.owner.bytes != TOKEN_PROGRAM ==> contents.spec_check_is_st_sol_account(solido)
            == Err::<(), Failure>(
            Failure::Error(ProgramError::Anker(AnkerError::InvalidTokenAccountOwner)),
        ),
        contents.owner.bytes == TOKEN_PROGRAM && contents.data@.len() < 165
            ==> contents.spec_check_is_st_sol_account(solido) == Err::<(), Failure>(
            Failure::Abort(Abort::AccountDataTooShort),
        ),
        contents.owner.bytes == TOKEN_PROGRAM && contents.data@.len() >= 165 && !is_st_sol_account(
            contents,
            solido,
        ) ==> contents.spec_check_is_st_sol_account(solido) == Err::<(), Failure>(
            Failure::Error(ProgramError::Anker(AnkerError::InvalidTokenAccount)),
        ),
{
    let refusal = Failure::Error(ProgramError::Anker(AnkerError::InvalidTokenAccount));
    token_account_is_read(contents, refusal);
    if contents.spec_read_token_account(refusal) is Ok {
        let held = contents.spec_read_token_account(refusal)->Ok_0.mint;
        addresses_are_told_apart_by_their_bytes(held, solido.st_sol_mint);
    }
}

/// The stored form of a state, byte by byte.
pub proof fn state_is_laid_out(anker: Anker)
    ensures
        anker.spec_encode().len() == 166,
        holds(anker.spec_encode(), anker),
{
    let data = anker.spec_encode();
    assert(data.subrange(0, 32) =~= anker.b_sol_mint@);
    assert(data.subrange(32, 64) =~= anker.solido_program_id@);
    assert(data.subrange(64, 96) =~= anker.solido@);
    assert(data.subrange(96, 128) =~= anker.token_swap_pool@);
    assert(data.subrange(128, 160) =~= anker.terra_rewards_destination@);
}

/// The state that is read from data is the one that the data holds, and one is read
/// wherever there is enough data.
pub proof fn state_is_read(data: Seq<u8>, anker: Anker)
    ensures
        Anker::spec_decode(data) == Ok::<Anker, Failure>(anker) <==> holds(data, anker),
        Anker::spec_decode(data) is Ok <==> data.len() >= 166,
        data.len() < 166 ==> Anker::spec_decode(data) == Err::<Anker, Failure>(
            Failure::Error(ProgramError::Borsh(BorshError::UnexpectedLength)),
        ),
{
    if data.len() >= 166 {
        let held = Anker {
            b_sol_mint: address_of(data.subrange(0, 32)),
            solido_program_id: address_of(data.subrange(32, 64)),
            solido: address_of(data.subrange(64, 96)),
            token_swap_pool: address_of(data.subrange(96, 128)),
            terra_rewards_destination: address_of(data.subrange(128, 160)),
            self_bump_seed: data[160],
            mint_authority_bump_seed: data[161],
            reserve_authority_bump_seed: data[162],
            st_sol_reserve_account_bump_seed: data[163],
            ust_reserve_account_bump_seed: data[164],
            token_swap_bump_seed: data[165],
        };
        any_bytes_are_an_address(data.subrange(0, 32));
        any_bytes_are_an_address(data.subrange(32, 64));
        any_bytes_are_an_address(data.subrange(64, 96));
        any_bytes_are_an_address(data.subrange(96, 128));
        any_bytes_are_an_address(data.subrange(128, 160));
        assert(holds(data, held));
        lemma_held_state_is_decoded(data, held);
        if holds(data, anker) {
            lemma_held_state_is_decoded(data, anker);
        }
    }
}

/// The state that data holds is decoded.
proof fn lemma_held_state_is_decoded(data: Seq<u8>, anker: Anker)
    requires
        holds(data, anker),
    ensures
        Anker::spec_decode(data) == Ok::<Anker, Failure>(anker),
{
    let head = data.take(166);
    assert forall|i: int| 0 <= i < 166 implies anker.spec_encode()[i] == head[i] by {
        assert(0 <= i < 32 ==> anker.b_sol_mint.bytes@[i] == data.subrange(0, 32)[i]);
        assert(32 <= i < 64 ==> anker.solido_program_id.bytes@[i - 32] == data.subrange(32, 64)[i
            - 32]);
        assert(64 <= i < 96 ==> anker.solido.bytes@[i - 64] == data.subrange(64, 96)[i - 64]);
        assert(96 <= i < 128 ==> anker.token_swap_pool.bytes@[i - 96] == data.subrange(96, 128)[i
            - 96]);
        assert(128 <= i < 160 ==> anker.terra_rewards_destination.bytes@[i - 128]
            == data.subrange(128, 160)[i - 128]);
    }
    assert(anker.spec_encode() =~= head);
    let chosen = choose|a: Anker| a.spec_encode() == head;
    Anker::lemma_encode_is_injective(anker, chosen);
}

/// The instruction in an input: the first byte says which one it is, the amount of a
/// deposit or withdrawal follows in eight bytes, and nothing else does.
pub proof fn instruction_is_read(input: Seq<u8>)
    ensures
        ({
            let read = AnkerInstruction::spec_try_from_slice(input);
            let short = Err::<AnkerInstruction, BorshError>(BorshError::UnexpectedLength);
            let long = Err::<AnkerInstruction, BorshError>(BorshError::NotAllBytesRead);
            &&& input.len() == 0 ==> read == short
            &&& input.len() > 0 && input[0] > 5 ==> read == Err::<AnkerInstruction, BorshError>(
                BorshError::UnexpectedVariant(input[0]),
            )
            &&& input.len() > 0 && (input[0] == 1 || input[0] == 2) ==> {
                &&& input.len() < 9 ==> read == short
                &&& input.len() > 9 ==> read == long
            }
            &&& input.len() > 1 && (input[0] == 0 || 3 <= input[0] <= 5) ==> read == long
            &&& input.len() == 1 && input[0] == 0 ==> read == Ok::<_, BorshError>(
                AnkerInstruction::Initialize,
            )
            &&& input.len() == 9 && input[0] == 1 ==> (read matches Ok(
                AnkerInstruction::Deposit { amount },
            ) && amount.0 == number(input.subrange(1, 9)))
            &&& input.len() == 9 && input[0] == 2 ==> (read matches Ok(
                AnkerInstruction::Withdraw { amount },
            ) && amount.0 == number(input.subrange(1, 9)))
            &&& input.len() == 1 && input[0] == 3 ==> read == Ok::<_, BorshError>(
                AnkerInstruction::SellRewards,
            )
            &&& input.len() == 1 && input[0] == 4 ==> read == Ok::<_, BorshError>(
                AnkerInstruction::ChangeTerraRewardsDestination,
            )
            &&& input.len() == 1 && input[0] == 5 ==> read == Ok::<_, BorshError>(
                AnkerInstruction::ChangeTokenSwapPool,
            )
        }),
{
    if input.len() >= 9 {
        eight_bytes_are_summed(input.subrange(1, 9));
    }
}

/// The state of Solido is handed out exactly where the account belongs to the program of
/// Solido and can be read.
pub proof fn solido_is_read(account: SolidoAccount, program: Address, solido: Solido)
    ensures
        account.spec_deserialize_lido(program) == Ok::<Solido, Failure>(solido) <==> {
            &&& account.owner == program
            &&& account.state == Ok::<Solido, ProgramError>(solido)
        },
        account.owner != program ==> account.spec_deserialize_lido(program) == Err::<
            Solido,
            Failure,
        >(Failure::Error(ProgramError::Lido(LidoError::InvalidOwner))),
        account.owner == program ==> (account.state matches Err(e)
            ==> account.spec_deserialize_lido(program) == Err::<Solido, Failure>(
            Failure::Error(e),
        )),
{
}

/// The Solido instance of an Anker instance is the one at the address in its state.
pub proof fn solido_of_an_instance_is_read(anker: Anker, account: SolidoAccount, solido: Solido)
    ensures
        anker.spec_read_solido(account) == Ok::<Solido, Failure>(solido) <==> is_solido(
            anker,
            account,
            solido,
        ),
        account.key != anker.solido ==> anker.spec_read_solido(account) == Err::<Solido, Failure>(
            Failure::Error(ProgramError::Anker(AnkerError::InvalidSolidoInstance)),
        ),
        account.key == anker.solido && account.owner != anker.solido_program_id
            ==> anker.spec_read_solido(account) == Err::<Solido, Failure>(
            Failure::Error(ProgramError::Lido(LidoError::InvalidOwner)),
        ),
        account.key == anker.solido && account.owner == anker.solido_program_id ==> (
        account.state matches Err(e) ==> anker.spec_read_solido(account) == Err::<Solido, Failure>(
            Failure::Error(e),
        )),
{
}

/// The bSOL mint is the account at the address in the state, of the SPL token program.
pub proof fn b_sol_mint_is_told(anker: Anker, key: Address, owner: Address)
    ensures
        anker.spec_check_mint(key, owner) is Ok <==> (key == anker.b_sol_mint && owner.bytes
            == TOKEN_PROGRAM),
        anker.spec_check_mint(key, owner) matches Err(e) ==> e == Failure::Error(
            ProgramError::Anker(AnkerError::InvalidTokenMint),
        ),
{
}

/// The manager passes exactly where it is the one of Solido, and signs.
pub proof fn manager_is_told(solido: Solido, manager: Signer)
    ensures
        solido.spec_check_manager(manager) is Ok <==> (manager.key == solido.manager
            && manager.is_signer),
        manager.key != solido.manager ==> solido.spec_check_manager(manager) == Err::<(), Failure>(
            Failure::Error(ProgramError::Lido(LidoError::InvalidManager)),
        ),
        manager.key == solido.manager && !manager.is_signer ==> solido.spec_check_manager(manager)
            == Err::<(), Failure>(Failure::Error(ProgramError::MissingRequiredSignature)),
{
}

/// Failures are the errors that they name.
pub proof fn failures_are_what_they_name(anker: AnkerError, lido: LidoError)
    ensures
        anker_failure(anker) == Failure::Error(ProgramError::Anker(anker)),
        lido_failure(lido) == Failure::Error(ProgramError::Lido(lido)),
{
}

/// Seeds are handed over one by one, each with all its bytes.
pub proof fn seeds_are_handed_over_whole(seeds: Seq<Vec<u8>>)
    ensures
        seed_bytes(seeds).len() == seeds.len(),
        forall|i: int| 0 <= i < seeds.len() ==> #[trigger] seed_bytes(seeds)[i] == seeds[i]@,
{
}

/// The seeds of each derived address: the address of what it belongs to, its own name, if
/// it has one, and last the bump seed.
pub proof fn seeds_are_spelled_out(base: Address, bump: u8)
    ensures
        ({
            let seeds = |purpose: Purpose|
                (SignerSeeds { derivation: Derivation { purpose, base }, bump }).spec_seeds();
            let named = |name: Seq<u8>| seq![base.bytes@, name, seq![bump]];
            &&& seeds(Purpose::Instance) == seq![base.bytes@, seq![bump]]
            &&& seeds(Purpose::MintAuthority) == named(ANKER_MINT_AUTHORITY@)
            &&& seeds(Purpose::ReserveAuthority) == named(ANKER_RESERVE_AUTHORITY@)
            &&& seeds(Purpose::StSolReserve) == named(ANKER_STSOL_RESERVE_ACCOUNT@)
            &&& seeds(Purpose::UstReserve) == named(ANKER_UST_RESERVE_ACCOUNT@)
            &&& seeds(Purpose::TokenSwapAuthority) == seq![base.bytes@, seq![bump]]
        }),
{
    let seeds = |purpose: Purpose|
        (SignerSeeds { derivation: Derivation { purpose, base }, bump }).spec_seeds();
    let named = |name: Seq<u8>| seq![base.bytes@, name, seq![bump]];
    assert(seeds(Purpose::Instance) =~= seq![base.bytes@, seq![bump]]);
    assert(seeds(Purpose::MintAuthority) =~= named(ANKER_MINT_AUTHORITY@));
    assert(seeds(Purpose::ReserveAuthority) =~= named(ANKER_RESERVE_AUTHORITY@));
    assert(seeds(Purpose::StSolReserve) =~= named(ANKER_STSOL_RESERVE_ACCOUNT@));
    assert(seeds(Purpose::UstReserve) =~= named(ANKER_UST_RESERVE_ACCOUNT@));
    assert(seeds(Purpose::TokenSwapAuthority) =~= seq![base.bytes@, seq![bump]]);
}

/// The seeds that a bump seed is searched for are the same, without the bump seed.
pub proof fn searched_seeds_lack_the_bump_seed(derivation: Derivation, bump: u8)
    ensures
        (SignerSeeds { derivation, bump }).spec_seeds() == derivation.spec_seeds().push(seq![bump]),
        derivation.spec_seeds().len() == match derivation.purpose {
            Purpose::Instance => 1nat,
            Purpose::TokenSwapAuthority => 1nat,
            _ => 2nat,
        },
        derivation.spec_seeds()[0] == derivation.base.bytes@,
        match derivation.purpose {
            Purpose::Instance => true,
            Purpose::MintAuthority => derivation.spec_seeds()[1] == ANKER_MINT_AUTHORITY@,
            Purpose::ReserveAuthority => derivation.spec_seeds()[1] == ANKER_RESERVE_AUTHORITY@,
            Purpose::StSolReserve => derivation.spec_seeds()[1] == ANKER_STSOL_RESERVE_ACCOUNT@,
            Purpose::UstReserve => derivation.spec_seeds()[1] == ANKER_UST_RESERVE_ACCOUNT@,
            Purpose::TokenSwapAuthority => true,
        },
{
}

/// An account passes as a derived one exactly at the address that its seeds derive.
pub proof fn derived_account_is_told(seeds: SignerSeeds, program: Address, address: Address)
    ensures
        spec_check_derived(seeds, program, address) is Ok <==> program_address(
            seeds.spec_seeds(),
            program.bytes@,
        ) == Some(address.bytes),
        spec_check_derived(seeds, program, address) matches Err(e) ==> e == Failure::Error(
            ProgramError::Anker(AnkerError::InvalidDerivedAccount),
        ),
{
}

/// What the accounts of an instance are checked against: the addresses that its own address
/// derives with the bump seeds in its state.
pub proof fn accounts_of_an_instance_are_told(
    anker: Anker,
    program: Address,
    instance: Address,
    address: Address,
)
    ensures
        spec_check_derived(instance_seeds(anker), program, address) is Ok <==> program_address(
            seq![anker.solido.bytes@, seq![anker.self_bump_seed]],
            program.bytes@,
        ) == Some(address.bytes),
        spec_check_derived(reserve_authority_seeds(anker, instance), program, address) is Ok
            <==> belongs(
            program,
            instance,
            ANKER_RESERVE_AUTHORITY@,
            anker.reserve_authority_bump_seed,
            address,
        ),
        spec_check_derived(st_sol_reserve_seeds(anker, instance), program, address) is Ok
            <==> belongs(
            program,
            instance,
            ANKER_STSOL_RESERVE_ACCOUNT@,
            anker.st_sol_reserve_account_bump_seed,
            address,
        ),
        spec_check_derived(ust_reserve_seeds(anker, instance), program, address) is Ok <==> belongs(
            program,
            instance,
            ANKER_UST_RESERVE_ACCOUNT@,
            anker.ust_reserve_account_bump_seed,
            address,
        ),
{
    seeds_are_spelled_out(anker.solido, anker.self_bump_seed);
    seeds_are_spelled_out(instance, anker.reserve_authority_bump_seed);
    seeds_are_spelled_out(instance, anker.st_sol_reserve_account_bump_seed);
    seeds_are_spelled_out(instance, anker.ust_reserve_account_bump_seed);
}

/// Of the bump seeds up to `n`, the highest viable one is found.
proof fn lemma_highest_bump(seeds: Seq<Seq<u8>>, program: Address, n: nat)
    requires
        n <= 255,
    ensures
        match highest_bump(seeds, program, n) {
            Some(bump) => {
                &&& 1 <= bump <= n
                &&& program_address(seeds.push(seq![bump]), program.bytes@) is Some
                &&& forall|b: u8|
                    bump < b <= n ==> #[trigger] program_address(
                        seeds.push(seq![b]),
                        program.bytes@,
                    ) is None
            },
            None => forall|b: u8|
                1 <= b <= n ==> #[trigger] program_address(
                    seeds.push(seq![b]),
                    program.bytes@,
                ) is None,
        },
    decreases n,
{
    if n > 0 {
        lemma_highest_bump(seeds, program, (n - 1) as nat);
        assert(derived_address(seeds.push(seq![n as u8]), program) is Some <==> program_address(
            seeds.push(seq![n as u8]),
            program.bytes@,
        ) is Some);
        assert forall|b: u8| b == n implies #[trigger] seeds.push(seq![b]) == seeds.push(
            seq![n as u8],
        ) by {}
    }
}

/// What a search for a bump seed finds: the address of the highest viable one, or nothing
/// where none is viable.
pub proof fn highest_viable_bump_seed_is_found(
    derivation: Derivation,
    program: Address,
    address: Address,
    bump: u8,
)
    ensures
        derivation.spec_find(program) == Some((address, bump)) <==> is_found(
            program,
            derivation.spec_seeds(),
            address,
            bump,
        ),
        derivation.spec_find(program) is None <==> is_unviable(program, derivation.spec_seeds()),
{
    let seeds = derivation.spec_seeds();
    lemma_highest_bump(seeds, program, 255);
    let found = highest_bump(seeds, program, 255);
    if is_found(program, seeds, address, bump) {
        assert(program_address(seeds.push(seq![bump]), program.bytes@) is Some);
        assert(found is Some);
        let other = found->0;
        assert(program_address(seeds.push(seq![other]), program.bytes@) is Some);
        assert(other == bump);
    }
    if found is Some {
        assert(program_address(seeds.push(seq![found->0]), program.bytes@) is Some);
    }
    assert(derivation.spec_find(program) == found_address(seeds, program));
}

/// The states of an instance and of its Solido instance are read exactly where both
/// accounts are what they should be, and they are those that the accounts hold.
pub proof fn states_are_read(
    program: Address,
    account: Account,
    solido_account: SolidoAccount,
    solido: Solido,
    anker: Anker,
)
    ensures
        spec_deserialize_anker(program, account, solido_account) == Ok::<_, Failure>(
            (solido, anker),
        ) <==> (is_instance(program, account, anker) && is_solido(anker, solido_account, solido)),
{
    let data = account.contents.data@;
    state_is_read(data, anker);
    if Anker::spec_decode(data) is Ok {
        let held = Anker::spec_decode(data)->Ok_0;
        accounts_of_an_instance_are_told(held, program, account.key, account.key);
    }
}

/// Why the states of an instance and of its Solido instance are not read: the owner of the
/// Anker account, its length, its address, then the address, the owner and the state of
/// the Solido account, in this order.
pub proof fn unreadable_states_are_refused(
    program: Address,
    account: Account,
    solido_account: SolidoAccount,
)
    ensures
        ({
            let read = spec_deserialize_anker(program, account, solido_account);
            let data = account.contents.data@;
            let derived = program_address(
                seq![data.subrange(64, 96), seq![data[160]]],
                program.bytes@,
            );
            let refused = |e: ProgramError| Err::<(Solido, Anker), Failure>(Failure::Error(e));
            &&& account.contents.owner != program ==> read == refused(
                ProgramError::Anker(AnkerError::InvalidOwner),
            )
            &&& account.contents.owner == program ==> {
                &&& data.len() < 166 ==> read == refused(
                    ProgramError::Borsh(BorshError::UnexpectedLength),
                )
                &&& data.len() >= 166 && derived != Some(account.key.bytes) ==> read == refused(
                    ProgramError::Anker(AnkerError::InvalidDerivedAccount),
                )
                &&& data.len() >= 166 && derived == Some(account.key.bytes) ==> {
                    let same = data.subrange(64, 96) == solido_account.key.bytes@;
                    let owned = data.subrange(32, 64) == solido_account.owner.bytes@;
                    &&& !same ==> read == refused(
                        ProgramError::Anker(AnkerError::InvalidSolidoInstance),
                    )
                    &&& same && !owned ==> read == refused(
                        ProgramError::Lido(LidoError::InvalidOwner),
                    )
                    &&& same && owned ==> (solido_account.state matches Err(e) ==> read == refused(
                        e,
                    ))
                    &&& same && owned && solido_account.state is Ok ==> read is Ok
                }
            }
        }),
{
    let data = account.contents.data@;
    if data.len() >= 166 {
        let held = Anker::spec_decode(data)->Ok_0;
        state_is_read(data, held);
        accounts_of_an_instance_are_told(held, program, account.key, account.key);
        addresses_are_told_apart_by_their_bytes(held.solido, solido_account.key);
        addresses_are_told_apart_by_their_bytes(held.solido_program_id, solido_account.owner);
    } else {
        state_is_read(data, Anker::spec_decode(data)->Ok_0);
    }
}

/// What a transfer of tokens is made of: the SPL token program is asked, the source and the
/// destination can be written to, the authority signs, and the data is the tag 3 and the
/// whole amount.
pub proof fn transfer_is_spelled_out(
    source: Address,
    destination: Address,
    authority: Address,
    amount: u64,
)
    ensures
        ({
            let made = transfer_instruction(source, destination, authority, amount);
            &&& made.program.bytes == TOKEN_PROGRAM
            &&& made.accounts == seq![
                AccountMeta { address: source, is_signer: false, is_writable: true },
                AccountMeta { address: destination, is_signer: false, is_writable: true },
                AccountMeta { address: authority, is_signer: true, is_writable: false },
            ]
            &&& made.data.len() == 9
            &&& made.data[0] == 3
            &&& number(made.data.subrange(1, 9)) == amount
        }),
{
    number_is_spelled_out(amount);
    let made = transfer_instruction(source, destination, authority, amount);
    assert(made.data.subrange(1, 9) =~= little_endian_bytes(amount as nat, 8));
}

} // verus!
