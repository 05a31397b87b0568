use vstd::prelude::*;

use crate::errors::PlanningError;

verus! {

/// Digest of a byte string under the home chain's hash function. The digest
/// depends on the bytes alone; its definition lives in the hashing crate and
/// is not restated here.
pub uninterp spec fn hash_of(bytes: Seq<u8>) -> Seq<u8>;

/// Relies on tmelcrypt::hash_single for the 32-byte digest of a byte string:
/// a pure function of the input bytes.
#[verifier::external_body]
fn hash_bytes(bytes: &[u8]) -> (r: [u8; 32])
    ensures
        r@ == hash_of(bytes@),
{
    tmelcrypt::hash_single(bytes).0
}

/// A parent node in the tree holds the digest of the concatenation of its
/// two children.
pub open spec fn node_hash(left: Seq<u8>, right: Seq<u8>) -> Seq<u8> {
    hash_of(left + right)
}

/// The byte-sequence views of a level of 32-byte nodes.
pub open spec fn level_view(level: Seq<[u8; 32]>) -> Seq<Seq<u8>> {
    level.map_values(|node: [u8; 32]| node@)
}

/// One level up the binary Merkle tree: pairwise hashing, left to right,
/// duplicating the last node when the level holds an odd count.
pub open spec fn spec_parent_level(level: Seq<Seq<u8>>) -> Seq<Seq<u8>> {
    Seq::new(
        ((level.len() + 1) / 2) as nat,
        |j: int|
            if 2 * j + 1 < level.len() {
                node_hash(level[2 * j], level[2 * j + 1])
            } else {
                node_hash(level[2 * j], level[2 * j])
            },
    )
}

/// The root of the binary Merkle tree over a non-empty level of nodes.
pub open spec fn spec_merkle_root(level: Seq<Seq<u8>>) -> Seq<u8>
    recommends
        level.len() >= 1,
    decreases level.len(),
{
    if level.len() <= 1 {
        level[0]
    } else {
        spec_merkle_root(spec_parent_level(level))
    }
}

/// Folding an inclusion proof: each sibling is combined with the running
/// node value, on the side its index dictates, while the index halves on the
/// way up towards the root.
pub open spec fn spec_fold_proof(siblings: Seq<Seq<u8>>, node: Seq<u8>, index: int) -> Seq<u8>
    decreases siblings.len(),
{
    if siblings.len() == 0 {
        node
    } else if index % 2 == 0 {
        spec_fold_proof(siblings.drop_first(), node_hash(node, siblings.first()), index / 2)
    } else {
        spec_fold_proof(siblings.drop_first(), node_hash(siblings.first(), node), index / 2)
    }
}

/// How many sibling hashes an inclusion proof holds for a block of `count`
/// transactions: the number of levels above the leaves.
pub open spec fn spec_proof_len(count: int) -> int
    decreases count,
{
    if count <= 1 {
        0
    } else {
        1 + spec_proof_len((count + 1) / 2)
    }
}

/// A leaf's position within the level that lies `levels_up` levels above the
/// leaves: the leaf index halved once per level.
pub open spec fn idx_at(index: int, levels_up: nat) -> int
    decreases levels_up,
{
    if levels_up == 0 {
        index
    } else {
        idx_at(index / 2, (levels_up - 1) as nat)
    }
}

proof fn lemma_idx_at_step(index: int, levels_up: nat)
    ensures
        idx_at(index, levels_up + 1) == idx_at(index, levels_up) / 2,
    decreases levels_up,
{
    if levels_up == 0 {
        assert(idx_at(index, 1) == idx_at(index / 2, 0));
        assert(idx_at(index / 2, 0) == index / 2);
    } else {
        lemma_idx_at_step(index / 2, (levels_up - 1) as nat);
    }
}

/// Appending one more sibling to a proof combines it with the folded value
/// so far, on the side given by the node's position at that level.
proof fn lemma_fold_push(siblings: Seq<Seq<u8>>, extra: Seq<u8>, node: Seq<u8>, index: int)
    ensures
        spec_fold_proof(siblings.push(extra), node, index) == ({
            let value = spec_fold_proof(siblings, node, index);
            if idx_at(index, siblings.len()) % 2 == 0 {
                node_hash(value, extra)
            } else {
                node_hash(extra, value)
            }
        }),
    decreases siblings.len(),
{
    if siblings.len() == 0 {
        let pushed = siblings.push(extra);
        assert(pushed.first() == extra);
        assert(pushed.drop_first() =~= Seq::<Seq<u8>>::empty());
        if index % 2 == 0 {
            assert(spec_fold_proof(pushed, node, index) == spec_fold_proof(
                pushed.drop_first(),
                node_hash(node, extra),
                index / 2,
            ));
            assert(spec_fold_proof(pushed.drop_first(), node_hash(node, extra), index / 2)
                == node_hash(node, extra));
        } else {
            assert(spec_fold_proof(pushed, node, index) == spec_fold_proof(
                pushed.drop_first(),
                node_hash(extra, node),
                index / 2,
            ));
            assert(spec_fold_proof(pushed.drop_first(), node_hash(extra, node), index / 2)
                == node_hash(extra, node));
        }
    } else {
        assert(siblings.push(extra).first() == siblings.first());
        assert(siblings.push(extra).drop_first() =~= siblings.drop_first().push(extra));
        if index % 2 == 0 {
            lemma_fold_push(
                siblings.drop_first(),
                extra,
                node_hash(node, siblings.first()),
                index / 2,
            );
        } else {
            lemma_fold_push(
                siblings.drop_first(),
                extra,
                node_hash(siblings.first(), node),
                index / 2,
            );
        }
    }
}

/// A Merkle inclusion proof: the ordered sibling hashes on the path from the
/// transaction's leaf to the root, and the transaction's zero-based position
/// within the block's transaction list.
#[derive(Clone, Debug)]
pub struct MerkleProof {
    pub bytes: Vec<[u8; 32]>,
    pub tx_index: u32,
}

/// Whether `digest` occurs among the leaf views of `leaves`.
pub open spec fn leaf_present(leaves: Seq<[u8; 32]>, digest: Seq<u8>) -> bool {
    exists|i: int| 0 <= i < leaves.len() && level_view(leaves)[i] == digest
}

pub(crate) fn hashes_equal(a: &[u8; 32], b: &[u8; 32]) -> (r: bool)
    ensures
        r <==> a@ == b@,
{
    let mut i: usize = 0;
    while i < 32
        invariant
            i <= 32,
            forall|k: int| 0 <= k < i ==> a@[k] == b@[k],
        decreases 32 - i,
    {
        if a[i] != b[i] {
            return false;
        }
        i = i + 1;
    }
    assert(a@ =~= b@);
    true
}

/// Digest of an encoded value, as the home chain's hash function gives it:
/// the leaf an inclusion proof starts from is the digest of the encoded
/// transaction.
pub(crate) fn digest_bytes(bytes: &Vec<u8>) -> (r: [u8; 32])
    ensures
        r@ == hash_of(bytes@),
{
    hash_bytes(bytes.as_slice())
}

/// Combines two 32-byte nodes into their parent node's digest.
fn hash_pair(left: &[u8; 32], right: &[u8; 32]) -> (r: [u8; 32])
    ensures
        r@ == node_hash(left@, right@),
{
    let mut buf: Vec<u8> = Vec::new();
    let mut i: usize = 0;
    while i < 32
        invariant
            i <= 32,
            buf@ =~= left@.subrange(0, i as int),
        decreases 32 - i,
    {
        buf.push(left[i]);
        i = i + 1;
    }
    let mut j: usize = 0;
    while j < 32
        invariant
            j <= 32,
            buf@ =~= left@ + right@.subrange(0, j as int),
        decreases 32 - j,
    {
        buf.push(right[j]);
        j = j + 1;
    }
    assert(buf@ =~= left@ + right@);
    hash_bytes(buf.as_slice())
}

/// The level above `level`, hashing neighbouring pairs left to right and
/// duplicating the last node of a level with an odd count.
fn parent_level(level: &Vec<[u8; 32]>) -> (r: Vec<[u8; 32]>)
    requires
        2 <= level@.len(),
    ensures
        r@.len() == (level@.len() + 1) / 2,
        level_view(r@) == spec_parent_level(level_view(level@)),
{
    let count = level.len();
    let pairs = count / 2;
    let mut parents: Vec<[u8; 32]> = Vec::new();
    let mut j: usize = 0;
    while j < pairs
        invariant
            count == level@.len(),
            pairs == count / 2,
            j <= pairs,
            parents@.len() == j,
            forall|k: int|
                0 <= k < parents@.len() ==> #[trigger] parents@[k]@ == spec_parent_level(
                    level_view(level@),
                )[k],
        decreases pairs - j,
    {
        let parent = hash_pair(&level[2 * j], &level[2 * j + 1]);
        parents.push(parent);
        j = j + 1;
    }
    if count % 2 == 1 {
        let parent = hash_pair(&level[count - 1], &level[count - 1]);
        parents.push(parent);
    }
    assert(level_view(parents@) =~= spec_parent_level(level_view(level@)));
    parents
}

/// Recomputes the root that `proof` binds `leaf_digest` to: folding each
/// sibling hash into the running node value on the path up the tree.
pub fn fold_proof(proof: &MerkleProof, leaf_digest: &[u8; 32]) -> (r: [u8; 32])
    ensures
        r@ == spec_fold_proof(level_view(proof.bytes@), leaf_digest@, proof.tx_index as int),
{
    let ghost siblings = level_view(proof.bytes@);
    let ghost start_index = proof.tx_index as int;
    let mut node: [u8; 32] = *leaf_digest;
    let mut position: u32 = proof.tx_index;
    let count = proof.bytes.len();
    assert(siblings.skip(0) =~= siblings);
    let mut k: usize = 0;
    while k < count
        invariant
            count == proof.bytes@.len(),
            k <= count,
            siblings == level_view(proof.bytes@),
            position == idx_at(start_index, k as nat),
            spec_fold_proof(siblings, leaf_digest@, start_index) == spec_fold_proof(
                siblings.skip(k as int),
                node@,
                position as int,
            ),
        decreases count - k,
    {
        assert(siblings.skip(k as int).first() == siblings[k as int]);
        assert(siblings.skip(k as int).drop_first() =~= siblings.skip(k + 1));
        let next: [u8; 32] = if position % 2 == 0 {
            hash_pair(&node, &proof.bytes[k])
        } else {
            hash_pair(&proof.bytes[k], &node)
        };
        proof {
            lemma_idx_at_step(start_index, k as nat);
        }
        node = next;
        position = position / 2;
        k = k + 1;
    }
    assert(siblings.skip(count as int) =~= Seq::<Seq<u8>>::empty());
    node
}

/// Builds the inclusion proof binding `tx_hash` to the block whose ordered
/// transaction hashes are `leaves`: locates the hash by exact match,
/// records its zero-based position, and collects the sibling hash at each
/// tree level on the path from that leaf to the root. Fails precisely when
/// the hash occurs nowhere in the block.
pub fn build_proof(leaves: &Vec<[u8; 32]>, tx_hash: &[u8; 32]) -> (r: Result<
    MerkleProof,
    PlanningError,
>)
    requires
        leaves@.len() <= u32::MAX,
    ensures
        match r {
            Ok(p) => {
                &&& leaf_present(leaves@, tx_hash@)
                &&& p.tx_index < leaves@.len()
                &&& level_view(leaves@)[p.tx_index as int] == tx_hash@
                &&& forall|i: int| 0 <= i < p.tx_index ==> level_view(leaves@)[i] != tx_hash@
                &&& p.bytes@.len() == spec_proof_len(leaves@.len() as int)
                &&& spec_fold_proof(level_view(p.bytes@), tx_hash@, p.tx_index as int)
                    == spec_merkle_root(level_view(leaves@))
            },
            Err(e) => {
                &&& e == PlanningError::TxNotInBlock
                &&& !leaf_present(leaves@, tx_hash@)
            },
        },
{
    let ghost leaf_views = level_view(leaves@);
    let total = leaves.len();
    let mut index: usize = 0;
    let mut found: bool = false;
    while index < total && !found
        invariant
            total == leaves@.len(),
            index <= total,
            !found ==> forall|i: int| 0 <= i < index ==> level_view(leaves@)[i] != tx_hash@,
            found ==> index < total && level_view(leaves@)[index as int] == tx_hash@ && forall|
                i: int,
            |
                0 <= i < index ==> level_view(leaves@)[i] != tx_hash@,
        decreases total - index + (if found { 0int } else { 1int }),
    {
        if hashes_equal(&leaves[index], tx_hash) {
            found = true;
        } else {
            index = index + 1;
        }
    }
    if !found {
        assert(!leaf_present(leaves@, tx_hash@));
        return Err(PlanningError::TxNotInBlock);
    }
    let mut level: Vec<[u8; 32]> = Vec::new();
    let mut i: usize = 0;
    while i < total
        invariant
            total == leaves@.len(),
            i <= total,
            level@ =~= leaves@.subrange(0, i as int),
        decreases total - i,
    {
        level.push(leaves[i]);
        i = i + 1;
    }
    assert(level@ =~= leaves@);
    let mut path: Vec<[u8; 32]> = Vec::new();
    let mut position: usize = index;
    while level.len() > 1
        invariant
            leaf_views == level_view(leaves@),
            1 <= level@.len() <= leaves@.len(),
            position < level@.len(),
            index < leaves@.len(),
            leaf_views[index as int] == tx_hash@,
            position == idx_at(index as int, path@.len() as nat),
            spec_fold_proof(level_view(path@), tx_hash@, index as int) == level_view(level@)[
                position as int],
            spec_merkle_root(level_view(level@)) == spec_merkle_root(leaf_views),
            path@.len() + spec_proof_len(level@.len() as int) == spec_proof_len(
                leaves@.len() as int,
            ),
        decreases level@.len(),
    {
        let sibling: [u8; 32] = if position % 2 == 0 {
            if position + 1 < level.len() {
                level[position + 1]
            } else {
                level[position]
            }
        } else {
            level[position - 1]
        };
        proof {
            lemma_fold_push(level_view(path@), sibling@, tx_hash@, index as int);
            lemma_idx_at_step(index as int, path@.len() as nat);
            assert(level_view(path@.push(sibling)) =~= level_view(path@).push(sibling@));
        }
        path.push(sibling);
        let parents = parent_level(&level);
        level = parents;
        position = position / 2;
    }
    assert(spec_merkle_root(level_view(level@)) == level_view(level@)[0]);
    Ok(MerkleProof { bytes: path, tx_index: index as u32 })
}

} // verus!
