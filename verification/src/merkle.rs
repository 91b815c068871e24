use crate::hashing::bytes_eq;
use crate::hashing::bytes_le;
use crate::hashing::keccak_concat;
use crate::hashing::keccak_of;
use crate::hashing::lex_le;
use vstd::prelude::*;

verus! {

/// One level of bottom-up Merkle reconstruction: the current node is combined
/// with a sibling, smaller operand first in byte-wise order, so the result
/// does not depend on which side of the pair the node stood on.
pub open spec fn merkle_step(node: Seq<u8>, sibling: Seq<u8>) -> Seq<u8> {
    if lex_le(node, sibling) {
        keccak_of(node + sibling)
    } else {
        keccak_of(sibling + node)
    }
}

/// The root reconstructed from a leaf by folding the proof's sibling hashes
/// bottom-up, one `merkle_step` per level.
pub open spec fn merkle_fold(leaf: Seq<u8>, siblings: Seq<Seq<u8>>) -> Seq<u8>
    decreases siblings.len(),
{
    if siblings.len() == 0 {
        leaf
    } else {
        merkle_fold(merkle_step(leaf, siblings[0]), siblings.drop_first())
    }
}

/// The byte sequences held by a vector of hash vectors.
pub open spec fn hash_views(siblings: Seq<Vec<u8>>) -> Seq<Seq<u8>> {
    Seq::new(siblings.len(), |i: int| siblings[i]@)
}

/// Verifies a Merkle membership proof: reconstructs the root from `leaf` and
/// the sibling hashes in `siblings`, ordering each pair byte-wise before
/// hashing, and compares the result with `root`. Returns true exactly when
/// the reconstruction meets the given root.
pub fn verify_merkle_proof(siblings: &Vec<Vec<u8>>, root: &Vec<u8>, leaf: Vec<u8>) -> (r: bool)
    ensures
        r == (merkle_fold(leaf@, hash_views(siblings@)) == root@),
{
    let ghost leaf0 = leaf@;
    let n = siblings.len();
    let mut node = leaf;
    let mut i: usize = 0;
    proof {
        assert(hash_views(siblings@).skip(0) =~= hash_views(siblings@));
    }
    while i < n
        invariant
            i <= n,
            n == siblings@.len(),
            merkle_fold(leaf0, hash_views(siblings@)) == merkle_fold(
                node@,
                hash_views(siblings@).skip(i as int),
            ),
        decreases n - i,
    {
        let sibling = &siblings[i];
        let combined = if bytes_le(&node, sibling) {
            keccak_concat(&node, sibling)
        } else {
            keccak_concat(sibling, &node)
        };
        proof {
            assert(combined@ == merkle_step(node@, siblings@[i as int]@));
            assert(hash_views(siblings@).skip(i as int).drop_first() =~= hash_views(
                siblings@,
            ).skip(i + 1));
        }
        node = combined;
        i = i + 1;
    }
    bytes_eq(&node, root)
}

/// Byte-wise lexicographic order is total: of any two byte sequences, at
/// least one is less than or equal to the other.
proof fn lemma_lex_le_total(a: Seq<u8>, b: Seq<u8>)
    ensures
        lex_le(a, b) || lex_le(b, a),
    decreases a.len(),
{
    if a.len() != 0 && b.len() != 0 && a[0] == b[0] {
        lemma_lex_le_total(a.drop_first(), b.drop_first());
    }
}

/// Byte-wise lexicographic order is antisymmetric: two sequences each less
/// than or equal to the other are equal.
proof fn lemma_lex_le_antisymmetric(a: Seq<u8>, b: Seq<u8>)
    requires
        lex_le(a, b),
        lex_le(b, a),
    ensures
        a == b,
    decreases a.len(),
{
    if a.len() == 0 {
        assert(b.len() == 0);
        assert(a =~= b);
    } else {
        lemma_lex_le_antisymmetric(a.drop_first(), b.drop_first());
        assert forall|i: int| 0 <= i < a.len() implies a[i] == b[i] by {
            if i > 0 {
                assert(a.drop_first()[i - 1] == a[i]);
                assert(b.drop_first()[i - 1] == b[i]);
            }
        }
        assert(a =~= b);
    }
}

/// Reconstruction is order-independent: combining a node with a sibling
/// gives the same parent whichever side of the pair each stood on, because
/// the pair is ordered byte-wise before hashing.
pub proof fn lemma_merkle_step_symmetric(a: Seq<u8>, b: Seq<u8>)
    ensures
        merkle_step(a, b) == merkle_step(b, a),
{
    if lex_le(a, b) && lex_le(b, a) {
        lemma_lex_le_antisymmetric(a, b);
    } else if !lex_le(a, b) && !lex_le(b, a) {
        lemma_lex_le_total(a, b);
    }
}

} // verus!
