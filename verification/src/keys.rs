//! Identity keys: 32-byte values that name wallets, agents and escrows.

use vstd::prelude::*;

verus! {

/// A 32-byte identity key.
#[derive(Clone, Copy, Debug, PartialEq, Eq)]
pub struct Pubkey {
    /// The key's bytes.
    pub bytes: [u8; 32],
}

impl View for Pubkey {
    type V = Seq<u8>;

    open spec fn view(&self) -> Seq<u8> {
        self.bytes@
    }
}

/// Two keys with the same bytes are the same key.
pub proof fn lemma_pubkey_ext(a: Pubkey, b: Pubkey)
    requires
        a@ == b@,
    ensures
        a == b,
{
    assert(a.bytes =~= b.bytes);
}

impl Pubkey {
    /// The key made of the given bytes.
    pub fn new_from_array(bytes: [u8; 32]) -> (key: Pubkey)
        ensures
            key.bytes == bytes,
    {
        Pubkey { bytes }
    }

    /// The bytes of the key.
    pub fn to_bytes(&self) -> (bytes: [u8; 32])
        ensures
            bytes == self.bytes,
    {
        self.bytes
    }

    /// Whether this is the empty identity.
    pub open spec fn is_default(&self) -> bool {
        forall|i: int| 0 <= i < 32 ==> self@[i] == 0
    }

    /// Whether two keys hold the same bytes.
    pub fn same(&self, other: &Pubkey) -> (r: bool)
        ensures
            r == (*self == *other),
            r == (self@ == other@),
    {
        let mut i: usize = 0;
        while i < 32
            invariant
                i <= 32,
                forall|j: int| 0 <= j < i ==> self.bytes@[j] == other.bytes@[j],
            decreases 32 - i,
        {
            if self.bytes[i] != other.bytes[i] {
                return false;
            }
            i += 1;
        }
        proof {
            assert(self@ =~= other@);
            lemma_pubkey_ext(*self, *other);
        }
        true
    }
}

impl Default for Pubkey {
    fn default() -> (key: Pubkey)
        ensures
            key.is_default(),
    {
        Pubkey { bytes: [0u8; 32] }
    }
}

} // verus!
