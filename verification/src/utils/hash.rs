//! Keccak-256, as computed by the hashing crate of the ledger.

use vstd::prelude::*;

verus! {

/// The Keccak-256 digest of a byte string.
pub uninterp spec fn keccak256(data: Seq<u8>) -> Seq<u8>;

/// Hashes `data` with `solana_keccak_hasher::hashv`, called on the single slice `data`,
/// and returns the 32 bytes of the digest. Trusted: the result is the Keccak-256 digest
/// of `data`, the same for the same bytes on every call.
#[verifier::external_body]
pub(crate) fn keccak_hashv(data: &[u8]) -> (digest: [u8; 32])
    ensures
        digest@ == keccak256(data@),
{
    solana_keccak_hasher::hashv(&[data]).to_bytes()
}

/// Compares two 32-byte values.
pub fn bytes32_eq(a: &[u8; 32], b: &[u8; 32]) -> (same: bool)
    ensures
        same == (*a == *b),
        same == (a@ == b@),
{
    let mut i: usize = 0;
    while i < 32
        invariant
            i <= 32,
            forall|j: int| 0 <= j < i ==> a[j] == b[j],
        decreases 32 - i,
    {
        if a[i] != b[i] {
            return false;
        }
        i += 1;
    }
    assert(*a =~= *b);
    true
}

/// The 32-byte value whose bytes are all `byte`.
pub open spec fn filled32(byte: u8) -> [u8; 32] {
    vstd::array::spec_array_fill_for_copy_type::<u8, 32>(byte)
}

} // verus!
