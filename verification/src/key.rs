//! Account addresses.

use vstd::prelude::*;

verus! {

/// The address of an account: 32 bytes.
#[derive(Clone, Copy, Debug)]
pub struct Pubkey {
    pub bytes: [u8; 32],
}

impl View for Pubkey {
    type V = Seq<u8>;

    open spec fn view(&self) -> Seq<u8> {
        self.bytes@
    }
}

/// Two addresses with the same bytes are the same address.
pub broadcast proof fn lemma_same_bytes(a: Pubkey, b: Pubkey)
    requires
        #[trigger] a.view() == #[trigger] b.view(),
    ensures
        a == b,
{
    assert forall|i: int| 0 <= i < 32 implies a.bytes[i] == b.bytes[i] by {
        assert(a@[i] == b@[i]);
    }
    assert(a.bytes =~= b.bytes);
}

impl Pubkey {
    /// The bytes of the address in a vector of their own.
    pub fn to_vec(&self) -> (bytes: Vec<u8>)
        ensures
            bytes@ == self@,
    {
        let mut bytes: Vec<u8> = Vec::new();
        let mut i: usize = 0;
        while i < 32
            invariant
                i <= 32,
                bytes@ == self@.take(i as int),
            decreases 32 - i,
        {
            bytes.push(self.bytes[i]);
            i = i + 1;
        }
        bytes
    }
}

impl PartialEq for Pubkey {
    fn eq(&self, other: &Self) -> (same: bool) {
        let mut i: usize = 0;
        while i < 32
            invariant
                i <= 32,
                forall|j: int| 0 <= j < i ==> self.bytes[j] == other.bytes[j],
            decreases 32 - i,
        {
            if self.bytes[i] != other.bytes[i] {
                return false;
            }
            i = i + 1;
        }
        proof {
            assert(self@ =~= other@);
            lemma_same_bytes(*self, *other);
        }
        true
    }
}

impl vstd::std_specs::cmp::PartialEqSpecImpl for Pubkey {
    open spec fn obeys_eq_spec() -> bool {
        true
    }

    open spec fn eq_spec(&self, other: &Self) -> bool {
        *self == *other
    }
}

impl Eq for Pubkey {

}

impl Default for Pubkey {
    /// The address made of zero bytes.
    fn default() -> (key: Pubkey)
        ensures
            key@ == Seq::new(32, |i: int| 0u8),
    {
        let key = Pubkey { bytes: [0u8; 32] };
        assert(key@ =~= Seq::new(32, |i: int| 0u8));
        key
    }
}

} // verus!
