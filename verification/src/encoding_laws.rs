//! Laws of the encodings: what was written is what is read.

use crate::error::{BorshError, Failure};
use crate::instruction::AnkerInstruction;
use crate::state::{Anker, ANKER_LEN};
use crate::token::{little_endian, little_endian_bytes};
use vstd::prelude::*;

verus! {

/// Numbers below `256 ^ len`.
spec fn fits(value: nat, len: nat) -> bool
    decreases len,
{
    if len == 0 {
        value == 0
    } else {
        fits(value / 256, (len - 1) as nat)
    }
}

/// The bytes of a number have the value of that number.
proof fn lemma_value_of_bytes(value: nat, len: nat)
    requires
        fits(value, len),
    ensures
        little_endian_bytes(value, len).len() == len,
        little_endian(little_endian_bytes(value, len)) == value,
    decreases len,
{
    if len > 0 {
        lemma_value_of_bytes(value / 256, (len - 1) as nat);
        let bytes = little_endian_bytes(value, len);
        assert(bytes.drop_first() =~= little_endian_bytes(value / 256, (len - 1) as nat));
    }
}

/// The bytes of the value of bytes are those bytes.
proof fn lemma_bytes_of_value(bytes: Seq<u8>)
    ensures
        little_endian_bytes(little_endian(bytes), bytes.len()) == bytes,
        fits(little_endian(bytes), bytes.len()),
    decreases bytes.len(),
{
    if bytes.len() > 0 {
        let rest = bytes.drop_first();
        lemma_bytes_of_value(rest);
        let value = little_endian(bytes);
        assert(value == bytes[0] as nat + 256 * little_endian(rest));
        assert(value / 256 == little_endian(rest));
        assert(value % 256 == bytes[0] as nat);
        assert(little_endian_bytes(value, bytes.len()) =~= seq![bytes[0]] + rest);
        assert(seq![bytes[0]] + rest =~= bytes);
    } else {
        assert(little_endian_bytes(0, 0) =~= bytes);
    }
}

/// Eight bytes hold exactly the `u64` numbers.
proof fn lemma_fits_in_eight(value: nat)
    ensures
        fits(value, 8) <==> value <= u64::MAX,
{
    reveal_with_fuel(fits, 9);
}

/// A `u64` is the value of its eight bytes.
pub proof fn number_is_read_back(value: u64)
    ensures
        little_endian_bytes(value as nat, 8).len() == 8,
        little_endian(little_endian_bytes(value as nat, 8)) == value,
{
    lemma_fits_in_eight(value as nat);
    lemma_value_of_bytes(value as nat, 8);
}

/// Eight bytes are those of their value, which is a `u64`.
pub proof fn eight_bytes_are_a_number(bytes: Seq<u8>)
    requires
        bytes.len() == 8,
    ensures
        little_endian(bytes) <= u64::MAX,
        little_endian_bytes(little_endian(bytes), 8) == bytes,
{
    lemma_bytes_of_value(bytes);
    lemma_fits_in_eight(little_endian(bytes));
}

/// Every instruction is decoded from its encoding.
pub proof fn instruction_is_read_back(instruction: AnkerInstruction)
    ensures
        AnkerInstruction::spec_try_from_slice(instruction.spec_encode()) == Ok::<
            AnkerInstruction,
            BorshError,
        >(instruction),
{
    let input = instruction.spec_encode();
    match instruction {
        AnkerInstruction::Deposit { amount } => {
            number_is_read_back(amount.0);
            assert(input.subrange(1, 9) =~= little_endian_bytes(amount.0 as nat, 8));
        },
        AnkerInstruction::Withdraw { amount } => {
            number_is_read_back(amount.0);
            assert(input.subrange(1, 9) =~= little_endian_bytes(amount.0 as nat, 8));
        },
        _ => {},
    }
}

/// No instruction is decoded from anything but its encoding.
pub proof fn instruction_has_one_encoding(input: Seq<u8>, instruction: AnkerInstruction)
    requires
        AnkerInstruction::spec_try_from_slice(input) == Ok::<
            AnkerInstruction,
            BorshError,
        >(instruction),
    ensures
        input == instruction.spec_encode(),
{
    if input.len() == 9 {
        eight_bytes_are_a_number(input.subrange(1, 9));
        assert(input =~= seq![input[0]] + input.subrange(1, 9));
    }
    assert(input =~= instruction.spec_encode());
}

/// A state that was stored in an account is the one that is read from it, whatever the
/// account held before.
pub proof fn stored_state_is_read_back(anker: Anker, before: Seq<u8>)
    requires
        before.len() >= ANKER_LEN,
    ensures
        Anker::spec_decode(anker.spec_encode() + before.skip(ANKER_LEN as int)) == Ok::<
            Anker,
            Failure,
        >(anker),
{
    let data = anker.spec_encode() + before.skip(ANKER_LEN as int);
    Anker::lemma_encode_is_injective(anker, anker);
    assert(data.take(ANKER_LEN as int) =~= anker.spec_encode());
    let chosen = choose|a: Anker| a.spec_encode() == data.take(ANKER_LEN as int);
    Anker::lemma_encode_is_injective(anker, chosen);
}

} // verus!
