//! Membership proofs against a Merkle root built with sorted pairs.
use vstd::prelude::*;

verus! {

/// The Keccak-256 digest of a byte string.
pub uninterp spec fn keccak256(data: Seq<u8>) -> Seq<u8>;

/// Relies on `solana_program::keccak::hashv`, which feeds each part to one
/// Keccak-256 hasher in order: the digest of the concatenation `a ++ b`.
#[verifier::external_body]
fn keccak_hashv(a: &[u8], b: &[u8]) -> (r: [u8; 32])
    ensures
        r@ == keccak256(a@ + b@),
{
    solana_program::keccak::hashv(&[a, b]).0
}

/// `a` comes no later than `b` in big-endian (lexicographic) byte order.
pub open spec fn lex_le(a: Seq<u8>, b: Seq<u8>) -> bool {
    a == b || exists|i: int|
        0 <= i < a.len() && i < b.len() && a.take(i) == b.take(i) && a[i] < b[i]
}

/// The parent of two nodes: the digest of the smaller one followed by the larger.
pub open spec fn hash_pair(a: Seq<u8>, b: Seq<u8>) -> Seq<u8> {
    if lex_le(a, b) {
        keccak256(a + b)
    } else {
        keccak256(b + a)
    }
}

/// The root reached from `leaf` by combining it with each sibling of `proof` in turn.
pub open spec fn proof_root(proof: Seq<Seq<u8>>, leaf: Seq<u8>) -> Seq<u8>
    decreases proof.len(),
{
    if proof.len() == 0 {
        leaf
    } else {
        hash_pair(proof_root(proof.drop_last(), leaf), proof.last())
    }
}

/// The byte strings of a sequence of 32-byte hashes.
pub open spec fn hashes_view(hashes: Seq<[u8; 32]>) -> Seq<Seq<u8>> {
    hashes.map_values(|h: [u8; 32]| h@)
}

/// The leaf committed for an asset: the digest of the domain separator followed by its identifier.
pub open spec fn leaf_spec(domain: Seq<u8>, asset: Seq<u8>) -> Seq<u8> {
    keccak256(domain + asset)
}

/// `s` with bit `bit` of its byte `k` inverted.
pub open spec fn flip_bit(s: Seq<u8>, k: int, bit: u8) -> Seq<u8> {
    s.update(k, s[k] ^ (1u8 << bit))
}

/// Big-endian comparison of two hashes.
fn hash_le(a: &[u8; 32], b: &[u8; 32]) -> (r: bool)
    ensures
        r == lex_le(a@, b@),
{
    let mut i: usize = 0;
    while i < 32
        invariant
            0 <= i <= 32,
            a@.len() == 32,
            b@.len() == 32,
            a@.take(i as int) == b@.take(i as int),
        decreases 32 - i,
    {
        if a[i] != b[i] {
            let r = a[i] < b[i];
            proof {
                if !r {
                    assert(a@[i as int] != b@[i as int]);
                    assert(a@ != b@);
                    assert forall|j: int|
                        0 <= j < 32 && a@.take(j) == b@.take(j) implies !(a@[j] < b@[j]) by {
                        if j > i {
                            assert(a@.take(j)[i as int] == b@.take(j)[i as int]);
                        } else if j < i {
                            assert(a@.take(i as int)[j] == b@.take(i as int)[j]);
                        }
                    }
                }
            }
            return r;
        }
        proof {
            assert(a@.take(i + 1) =~= a@.take(i as int).push(a@[i as int]));
            assert(b@.take(i + 1) =~= b@.take(i as int).push(b@[i as int]));
        }
        i += 1;
    }
    proof {
        assert(a@ =~= a@.take(32));
        assert(b@ =~= b@.take(32));
    }
    true
}

/// Equality of two hashes.
pub(crate) fn hash_eq(a: &[u8; 32], b: &[u8; 32]) -> (r: bool)
    ensures
        r == (a@ == b@),
{
    let mut i: usize = 0;
    while i < 32
        invariant
            0 <= i <= 32,
            a@.len() == 32,
            b@.len() == 32,
            forall|j: int| 0 <= j < i ==> a@[j] == b@[j],
        decreases 32 - i,
    {
        if a[i] != b[i] {
            return false;
        }
        i += 1;
    }
    proof {
        assert(a@ =~= b@);
    }
    true
}

/// The leaf under which `asset` is committed in an allowlist whose leaves carry
/// the domain separator `domain`.
pub fn leaf_for(domain: &[u8], asset: &[u8; 32]) -> (r: [u8; 32])
    ensures
        r@ == leaf_spec(domain@, asset@),
{
    keccak_hashv(domain, asset.as_slice())
}

/// The parent node of two sibling hashes, combined in sorted order.
pub fn combine(a: &[u8; 32], b: &[u8; 32]) -> (r: [u8; 32])
    ensures
        r@ == hash_pair(a@, b@),
{
    if hash_le(a, b) {
        keccak_hashv(a.as_slice(), b.as_slice())
    } else {
        keccak_hashv(b.as_slice(), a.as_slice())
    }
}

/// Whether `proof` leads from `leaf` to `root`.
pub fn verify(proof: Vec<[u8; 32]>, root: [u8; 32], leaf: [u8; 32]) -> (r: bool)
    ensures
        r == (proof_root(hashes_view(proof@), leaf@) == root@),
{
    let mut computed: [u8; 32] = leaf;
    let mut i: usize = 0;
    while i < proof.len()
        invariant
            0 <= i <= proof@.len(),
            computed@ == proof_root(hashes_view(proof@.take(i as int)), leaf@),
        decreases proof@.len() - i,
    {
        let sibling = proof[i];
        proof {
            let prev = hashes_view(proof@.take(i as int));
            let next = hashes_view(proof@.take(i + 1));
            assert(next.drop_last() =~= prev);
            assert(next.last() == sibling@);
        }
        computed = combine(&computed, &sibling);
        i += 1;
    }
    proof {
        assert(proof@.take(proof@.len() as int) =~= proof@);
    }
    hash_eq(&computed, &root)
}

/// Two distinct byte strings of one length differ at a first position.
proof fn lemma_first_difference(a: Seq<u8>, b: Seq<u8>, n: int)
    requires
        a.len() == b.len(),
        0 <= n <= a.len(),
    ensures
        a.take(n) == b.take(n) || exists|i: int|
            0 <= i < n && a.take(i) == b.take(i) && a[i] != b[i],
    decreases n,
{
    if n > 0 {
        lemma_first_difference(a, b, n - 1);
        if a.take(n - 1) == b.take(n - 1) {
            if a[n - 1] == b[n - 1] {
                assert(a.take(n) =~= a.take(n - 1).push(a[n - 1]));
                assert(b.take(n) =~= b.take(n - 1).push(b[n - 1]));
            }
        } else {
            let i = choose|i: int| 0 <= i < n - 1 && a.take(i) == b.take(i) && a[i] != b[i];
            assert(0 <= i < n && a.take(i) == b.take(i) && a[i] != b[i]);
        }
    }
}

/// Big-endian order on byte strings of one length is total and antisymmetric.
proof fn lemma_lex_total(a: Seq<u8>, b: Seq<u8>)
    requires
        a.len() == b.len(),
    ensures
        lex_le(a, b) || lex_le(b, a),
        lex_le(a, b) && lex_le(b, a) ==> a == b,
{
    lemma_first_difference(a, b, a.len() as int);
    if a != b {
        assert(a.take(a.len() as int) =~= a);
        assert(b.take(b.len() as int) =~= b);
        let i = choose|i: int| 0 <= i < a.len() && a.take(i) == b.take(i) && a[i] != b[i];
        if a[i] < b[i] {
            assert(lex_le(a, b));
        } else {
            assert(b.take(i) == a.take(i) && b[i] < a[i]);
            assert(lex_le(b, a));
        }
        if lex_le(a, b) && lex_le(b, a) {
            let j = choose|j: int| 0 <= j < a.len() && j < b.len() && a.take(j) == b.take(j) && a[j] < b[j];
            let k = choose|k: int| 0 <= k < b.len() && k < a.len() && b.take(k) == a.take(k) && b[k] < a[k];
            if j < k {
                assert(a.take(k)[j] == b.take(k)[j]);
            } else if k < j {
                assert(a.take(j)[k] == b.take(j)[k]);
            }
        }
    }
}

/// The parent of two 32-byte nodes does not depend on which of them is the
/// proof's sibling: sorting the pair makes the combination order-free, so a
/// tree builder needs to record no left or right position.
pub proof fn lemma_pair_order_free(a: Seq<u8>, b: Seq<u8>)
    requires
        a.len() == 32,
        b.len() == 32,
    ensures
        hash_pair(a, b) == hash_pair(b, a),
{
    lemma_lex_total(a, b);
}

/// A proof that leads to `root` is rejected against any root that differs
/// from it in a single bit.
pub proof fn lemma_flipped_root_rejected(proof: Seq<Seq<u8>>, root: Seq<u8>, leaf: Seq<u8>, k: int, bit: u8)
    requires
        root.len() == 32,
        0 <= k < 32,
        bit < 8,
        proof_root(proof, leaf) == root,
    ensures
        proof_root(proof, leaf) != flip_bit(root, k, bit),
{
    let x = root[k];
    assert(x ^ (1u8 << bit) != x) by (bit_vector)
        requires
            bit < 8,
    ;
    assert(flip_bit(root, k, bit)[k] != root[k]);
}

} // verus!
