//! Binary Merkle-proof verification over a commutative combine rule: each
//! pair is ordered byte-lexicographically before hashing, so a proof needs
//! no position bits.  Pure computation, no state.

use vstd::prelude::*;

use crate::errors::CoffeeError;

verus! {

/// The Keccak-256 digest of a byte string, as the hosting chain computes it.
pub uninterp spec fn keccak256(data: Seq<u8>) -> Seq<u8>;

/// Relies on `solana_program::keccak::hash`: the Keccak-256 digest of the
/// input, 32 bytes, a function of the input bytes alone.
#[verifier::external_body]
fn keccak_hash(data: &Vec<u8>) -> (r: [u8; 32])
    ensures
        r@ == keccak256(data@),
        r@.len() == 32,
{
    solana_program::keccak::hash(data.as_slice()).0
}

/// Byte-lexicographic order on byte strings.
pub open spec fn lex_le(a: Seq<u8>, b: Seq<u8>) -> bool
    decreases a.len(),
{
    if a.len() == 0 {
        true
    } else if b.len() == 0 {
        false
    } else if a[0] < b[0] {
        true
    } else if a[0] > b[0] {
        false
    } else {
        lex_le(a.skip(1), b.skip(1))
    }
}

/// The two hashes in byte-lexicographic order, concatenated.
pub open spec fn sorted_pair(a: Seq<u8>, b: Seq<u8>) -> Seq<u8> {
    if lex_le(a, b) {
        a + b
    } else {
        b + a
    }
}

/// One combine step: hash the sorted pair.
pub open spec fn merkle_combine(a: Seq<u8>, b: Seq<u8>) -> Seq<u8> {
    keccak256(sorted_pair(a, b))
}

/// The value a leaf folds to under a proof: each proof element is combined
/// in turn with the running hash.
pub open spec fn merkle_fold(leaf: Seq<u8>, proof: Seq<Seq<u8>>) -> Seq<u8>
    decreases proof.len(),
{
    if proof.len() == 0 {
        leaf
    } else {
        merkle_fold(merkle_combine(leaf, proof[0]), proof.skip(1))
    }
}

/// Byte-lexicographic comparison of two 32-byte hashes.
fn lex_le_32(a: &[u8; 32], b: &[u8; 32]) -> (r: bool)
    ensures
        r == lex_le(a@, b@),
{
    let mut i: usize = 0;
    proof {
        assert(a@.skip(0) =~= a@);
        assert(b@.skip(0) =~= b@);
    }
    while i < 32
        invariant
            0 <= i <= 32,
            lex_le(a@, b@) == lex_le(a@.skip(i as int), b@.skip(i as int)),
        decreases 32 - i,
    {
        if a[i] < b[i] {
            proof {
                assert(a@.skip(i as int)[0] == a@[i as int]);
            }
            return true;
        }
        if a[i] > b[i] {
            proof {
                assert(a@.skip(i as int)[0] == a@[i as int]);
            }
            return false;
        }
        proof {
            let s = a@.skip(i as int);
            let t = b@.skip(i as int);
            assert(s[0] == a@[i as int]);
            assert(t[0] == b@[i as int]);
            assert(s.skip(1) =~= a@.skip(i as int + 1));
            assert(t.skip(1) =~= b@.skip(i as int + 1));
        }
        i += 1;
    }
    proof {
        assert(a@.skip(32).len() == 0);
    }
    true
}

/// Appends the 32 bytes of `src` to `dst`.
fn push_bytes_32(dst: &mut Vec<u8>, src: &[u8; 32])
    requires
        old(dst)@.len() <= 32,
    ensures
        final(dst)@ == old(dst)@ + src@,
{
    let mut j: usize = 0;
    while j < 32
        invariant
            0 <= j <= 32,
            dst@ == old(dst)@ + src@.take(j as int),
        decreases 32 - j,
    {
        let b: u8 = src[j];
        dst.push(b);
        proof {
            assert(old(dst)@ + src@.take(j + 1) =~= (old(dst)@ + src@.take(j as int)).push(b));
        }
        j += 1;
    }
    proof {
        assert(src@.take(32) =~= src@);
    }
}

/// Whether two 32-byte hashes hold the same bytes.
pub(crate) fn eq_32(a: &[u8; 32], b: &[u8; 32]) -> (r: bool)
    ensures
        r == (a@ == b@),
{
    let mut i: usize = 0;
    while i < 32
        invariant
            0 <= i <= 32,
            forall|j: int| 0 <= j < i ==> a@[j] == b@[j],
        decreases 32 - i,
    {
        if a[i] != b[i] {
            return false;
        }
        i += 1;
    }
    proof {
        assert(a@ =~= b@);
    }
    true
}

/// Folds `leaf` through `proof` with the sorted-pair combine and compares
/// the result to `root`: true exactly when the pair hashes to the root.
pub fn verify_merkle_proof(leaf: [u8; 32], proof: &Vec<[u8; 32]>, root: [u8; 32]) -> (r: Result<
    bool,
    CoffeeError,
>)
    ensures
        r == Ok::<bool, CoffeeError>(
            merkle_fold(leaf@, proof@.map_values(|h: [u8; 32]| h@)) == root@,
        ),
{
    let ghost phs: Seq<Seq<u8>> = proof@.map_values(|h: [u8; 32]| h@);
    let mut cur: [u8; 32] = leaf;
    let mut i: usize = 0;
    proof {
        assert(phs.skip(0) =~= phs);
    }
    while i < proof.len()
        invariant
            0 <= i <= proof@.len(),
            phs == proof@.map_values(|h: [u8; 32]| h@),
            phs.len() == proof@.len(),
            merkle_fold(leaf@, phs) == merkle_fold(cur@, phs.skip(i as int)),
        decreases proof@.len() - i,
    {
        let p: [u8; 32] = proof[i];
        let mut combined: Vec<u8> = Vec::new();
        if lex_le_32(&cur, &p) {
            push_bytes_32(&mut combined, &cur);
            push_bytes_32(&mut combined, &p);
            proof {
                assert(combined@ =~= cur@ + p@);
            }
        } else {
            push_bytes_32(&mut combined, &p);
            push_bytes_32(&mut combined, &cur);
            proof {
                assert(combined@ =~= p@ + cur@);
            }
        }
        let next: [u8; 32] = keccak_hash(&combined);
        proof {
            assert(combined@ == sorted_pair(cur@, p@));
            assert(next@ == merkle_combine(cur@, phs[i as int]));
            let rest = phs.skip(i as int);
            assert(rest[0] == phs[i as int]);
            assert(rest.skip(1) =~= phs.skip(i as int + 1));
        }
        cur = next;
        i += 1;
    }
    proof {
        assert(phs.skip(i as int).len() == 0);
    }
    Ok(eq_32(&cur, &root))
}

} // verus!
