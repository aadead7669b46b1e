//! Addresses and hashes.
use vstd::prelude::*;

verus! {

/// The address of an account.
#[derive(Clone, Copy, Debug, PartialEq, Eq)]
pub struct Address {
    /// The bytes, first byte first.
    pub bytes: [u8; 20],
}

impl View for Address {
    type V = Seq<u8>;

    open spec fn view(&self) -> Seq<u8> {
        self.bytes@
    }
}

impl Address {
    /// Whether this is the same address as `other`.
    pub fn same(&self, other: &Address) -> (r: bool)
        ensures
            r == (*self == *other),
    {
        let mut i: usize = 0;
        while i < 20
            invariant
                i <= 20,
                forall|j: int| 0 <= j < i ==> self.bytes[j] == other.bytes[j],
            decreases 20 - i,
        {
            if self.bytes[i] != other.bytes[i] {
                return false;
            }
            i = i + 1;
        }
        assert(self.bytes =~= other.bytes);
        true
    }
}

/// A 256-bit hash.
#[derive(Clone, Copy, Debug, PartialEq, Eq)]
pub struct H256 {
    /// The bytes, first byte first.
    pub bytes: [u8; 32],
}

impl View for H256 {
    type V = Seq<u8>;

    open spec fn view(&self) -> Seq<u8> {
        self.bytes@
    }
}

/// The address that consists of the bytes `s`.
pub open spec fn address(s: Seq<u8>) -> Address {
    choose|a: Address| a@ == s
}

/// An address is the address of its bytes.
pub broadcast proof fn lemma_address_of_bytes(a: Address)
    ensures
        address(#[trigger] a@) == a,
{
    let b = address(a@);
    assert(b@ == a@);
    assert forall|i: int| 0 <= i < 20 implies b.bytes[i] == a.bytes[i] by {
        assert(b.bytes@[i] == a.bytes@[i]);
    }
    assert(b.bytes =~= a.bytes);
}

/// The hash that consists of the bytes `s`.
pub open spec fn h256(s: Seq<u8>) -> H256 {
    choose|h: H256| h@ == s
}

/// A hash is the hash of its bytes.
pub broadcast proof fn lemma_h256_of_bytes(h: H256)
    ensures
        h256(#[trigger] h@) == h,
{
    let g = h256(h@);
    assert(g@ == h@);
    assert forall|i: int| 0 <= i < 32 implies g.bytes[i] == h.bytes[i] by {
        assert(g.bytes@[i] == h.bytes@[i]);
    }
    assert(g.bytes =~= h.bytes);
}

pub broadcast group group_hashes {
    lemma_address_of_bytes,
    lemma_h256_of_bytes,
}

/// The Keccak-256 hash of `data`.
pub uninterp spec fn keccak256(data: Seq<u8>) -> Seq<u8>;

/// `keccak` of `keccak-hash`: the Keccak-256 hash of the bytes, under the name `keccak256`.
#[verifier::external_body]
pub(crate) fn keccak(data: &[u8]) -> (r: H256)
    ensures
        r@ == keccak256(data@),
{
    H256 { bytes: keccak_hash::keccak(data).0 }
}

} // verus!
