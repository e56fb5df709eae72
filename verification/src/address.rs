//! The addresses of accounts and programs.

use vstd::prelude::*;

verus! {

/// The address of an account or of a program.
#[derive(Clone, Copy, Debug)]
pub struct Address {
    pub bytes: [u8; 32],
}

impl View for Address {
    type V = Seq<u8>;

    open spec fn view(&self) -> Seq<u8> {
        self.bytes@
    }
}

/// The address that consists of `bytes`.
pub open spec fn address_of(bytes: Seq<u8>) -> Address {
    choose|address: Address| address@ == bytes
}

/// Addresses are equal where their bytes are.
pub proof fn lemma_address_is_its_bytes(a: Address, b: Address)
    ensures
        a@ == b@ <==> a == b,
        address_of(a@) == a,
{
    assert forall|c: Address| #[trigger] c@ == a@ implies c == a by {
        assert forall|i: int| 0 <= i < 32 implies c.bytes[i] == a.bytes[i] by {
            assert(c@[i] == a@[i]);
        }
        assert(c.bytes =~= a.bytes);
    }
    assert(a@ == a@);
}

impl PartialEq for Address {
    fn eq(&self, other: &Self) -> (r: bool) {
        let mut i: usize = 0;
        while i < 32
            invariant
                i <= 32,
                forall|j: int| 0 <= j < i ==> self.bytes[j] == other.bytes[j],
            decreases 32 - i,
        {
            if self.bytes[i] != other.bytes[i] {
                return false;
            }
            i = i + 1;
        }
        assert(self.bytes =~= other.bytes);
        true
    }
}

impl vstd::std_specs::cmp::PartialEqSpecImpl for Address {
    open spec fn obeys_eq_spec() -> bool {
        true
    }

    open spec fn eq_spec(&self, other: &Self) -> bool {
        *self == *other
    }
}

impl Eq for Address {
}

impl Address {
    /// The 32 bytes of `data` from `at` on, as an address.
    pub fn read(data: &[u8], at: usize) -> (r: Address)
        requires
            at + 32 <= data.len(),
        ensures
            r@ == data@.subrange(at as int, at + 32),
            r == address_of(data@.subrange(at as int, at + 32)),
    {
        let mut bytes: [u8; 32] = [0u8; 32];
        let mut i: usize = 0;
        while i < 32
            invariant
                i <= 32,
                at + 32 <= data.len(),
                forall|j: int| 0 <= j < i ==> bytes[j] == data@[at + j],
            decreases 32 - i,
        {
            bytes[i] = data[at + i];
            i = i + 1;
        }
        let r = Address { bytes };
        proof {
            assert(r@ =~= data@.subrange(at as int, at + 32));
            lemma_address_is_its_bytes(r, r);
        }
        r
    }
}

} // verus!
