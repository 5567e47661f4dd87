use vstd::bytes::{spec_u64_to_le_bytes, u64_to_le_bytes};
use vstd::prelude::*;

use crate::bytes::{append_bytes, bytes_le, lex_le, Key};

verus! {

/// The SHA-256 digest of a byte string.
pub uninterp spec fn sha256_of(data: Seq<u8>) -> Seq<u8>;

/// Relies on `solana_program::hash::hashv`: the SHA-256 digest of the
/// concatenation of the slices it is given, here a single one.
#[verifier::external_body]
pub(crate) fn sha256(data: &[u8]) -> (r: [u8; 32])
    ensures
        r@ == sha256_of(data@),
{
    anchor_lang::solana_program::hash::hashv(&[data]).to_bytes()
}

/// The leaf that commits to one entitlement: the digest of the index, the
/// user's key and the amount, the integers in little-endian order.
pub open spec fn leaf_of(index: u64, user: Seq<u8>, amount: u64) -> Seq<u8> {
    sha256_of(spec_u64_to_le_bytes(index) + user + spec_u64_to_le_bytes(amount))
}

/// One step up the tree: the digest of the two nodes, smaller one first.
pub open spec fn pair_of(a: Seq<u8>, b: Seq<u8>) -> Seq<u8> {
    if lex_le(a, b) {
        sha256_of(a + b)
    } else {
        sha256_of(b + a)
    }
}

/// The root reached from `leaf` by folding in the proof's nodes in order.
pub open spec fn root_of(leaf: Seq<u8>, proof: Seq<[u8; 32]>) -> Seq<u8>
    decreases proof.len(),
{
    if proof.len() == 0 {
        leaf
    } else {
        pair_of(root_of(leaf, proof.drop_last()), proof.last()@)
    }
}

/// Hashes one entitlement `(index, user, amount)` into its leaf.
pub fn leaf_hash(index: u64, user: Key, amount: u64) -> (r: [u8; 32])
    ensures
        r@ == leaf_of(index, user@, amount),
{
    let mut data = u64_to_le_bytes(index);
    append_bytes(&mut data, user.as_slice());
    let amt = u64_to_le_bytes(amount);
    append_bytes(&mut data, amt.as_slice());
    sha256(data.as_slice())
}

/// Hashes two nodes after ordering them by their bytes.
pub fn hash_pair_sorted(a: [u8; 32], b: [u8; 32]) -> (r: [u8; 32])
    ensures
        r@ == pair_of(a@, b@),
{
    let mut data: Vec<u8> = Vec::new();
    if bytes_le(&a, &b) {
        append_bytes(&mut data, a.as_slice());
        append_bytes(&mut data, b.as_slice());
    } else {
        append_bytes(&mut data, b.as_slice());
        append_bytes(&mut data, a.as_slice());
    }
    sha256(data.as_slice())
}

/// Recomputes the root from a leaf and its proof path.
pub fn compute_merkle_root_sorted(leaf: [u8; 32], proof: &Vec<[u8; 32]>) -> (r: [u8; 32])
    ensures
        r@ == root_of(leaf@, proof@),
{
    let mut acc = leaf;
    let mut i: usize = 0;
    while i < proof.len()
        invariant
            0 <= i <= proof@.len(),
            acc@ == root_of(leaf@, proof@.subrange(0, i as int)),
        decreases proof@.len() - i,
    {
        let p = proof[i];
        acc = hash_pair_sorted(acc, p);
        let ghost next = proof@.subrange(0, i + 1);
        assert(next.drop_last() =~= proof@.subrange(0, i as int));
        i = i + 1;
    }
    assert(proof@.subrange(0, proof@.len() as int) =~= proof@);
    acc
}

} // verus!
