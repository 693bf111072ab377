use crate::bytes32::Bytes32;
use crate::hash::{atom_hash, pair_hash, sha256, tree_hash_atom, tree_hash_pair, views};
use vstd::prelude::*;

verus! {

/// The level above `level`: each two neighbours are combined into their pair
/// hash, in order, and a last one without a neighbour moves up unchanged.
pub open spec fn next_level(level: Seq<Seq<u8>>) -> Seq<Seq<u8>> {
    Seq::new(
        ((level.len() + 1) / 2) as nat,
        |i: int|
            if 2 * i + 1 < level.len() {
                pair_hash(level[2 * i], level[2 * i + 1])
            } else {
                level[2 * i]
            },
    )
}

/// The root above `level`: the one hash that is left when levels are built until
/// a single node remains. Above no node at all stands the hash of the empty atom.
pub open spec fn root_above(level: Seq<Seq<u8>>) -> Seq<u8>
    decreases level.len(),
{
    if level.len() == 0 {
        atom_hash(Seq::empty())
    } else if level.len() == 1 {
        level[0]
    } else {
        root_above(next_level(level))
    }
}

/// The hashes of the leaves, each hashed as an atom.
pub open spec fn leaf_level(leaves: Seq<Seq<u8>>) -> Seq<Seq<u8>> {
    leaves.map_values(|leaf: Seq<u8>| atom_hash(leaf))
}

/// The merkle root of an ordered sequence of leaves.
pub open spec fn merkle_root(leaves: Seq<Seq<u8>>) -> Seq<u8> {
    root_above(leaf_level(leaves))
}

/// A merkle tree over an ordered list of 32-byte leaves, known by its root.
#[derive(Clone, Copy, Debug, PartialEq, Eq)]
pub struct MerkleTree {
    pub root: Bytes32,
}

/// Builds the level above `level`.
fn build_next_level(level: &Vec<Bytes32>) -> (next: Vec<Bytes32>)
    ensures
        views(next@) == next_level(views(level@)),
        next@.len() == (level@.len() + 1) / 2,
{
    let mut next: Vec<Bytes32> = Vec::new();
    let n = level.len();
    let m = n / 2 + n % 2;
    let mut k: usize = 0;
    while k < m
        invariant
            n == level@.len(),
            m == (n + 1) / 2,
            k <= m,
            next@.len() == k,
            forall|j: int| 0 <= j < k ==> (#[trigger] next@[j])@ == next_level(views(level@))[j],
        decreases m - k,
    {
        if n - 2 * k >= 2 {
            let h = tree_hash_pair(&level[2 * k], &level[2 * k + 1]);
            next.push(h);
        } else {
            next.push(level[2 * k]);
        }
        k = k + 1;
    }
    assert(views(next@) =~= next_level(views(level@)));
    next
}

impl MerkleTree {
    /// Builds the tree over `leaves`, taken in the order given.
    pub fn new(leaves: &Vec<Bytes32>) -> (t: Self)
        ensures
            t.root@ == merkle_root(views(leaves@)),
    {
        let mut level: Vec<Bytes32> = Vec::new();
        let mut i: usize = 0;
        while i < leaves.len()
            invariant
                i <= leaves@.len(),
                level@.len() == i,
                forall|j: int| 0 <= j < i ==> (#[trigger] level@[j])@ == atom_hash(leaves@[j]@),
            decreases leaves@.len() - i,
        {
            let h = tree_hash_atom(leaves[i].bytes.as_slice());
            level.push(h);
            i = i + 1;
        }
        assert(views(level@) =~= leaf_level(views(leaves@)));
        while level.len() > 1
            invariant
                root_above(views(level@)) == merkle_root(views(leaves@)),
            decreases level@.len(),
        {
            level = build_next_level(&level);
        }
        if level.len() == 0 {
            let empty: [u8; 0] = [];
            let root = tree_hash_atom(empty.as_slice());
            assert(empty@ =~= Seq::empty());
            MerkleTree { root }
        } else {
            MerkleTree { root: level[0] }
        }
    }

    /// The root of the tree.
    pub fn get_root(&self) -> (r: Bytes32)
        ensures
            r == self.root,
    {
        self.root
    }
}

/// The root is a function of the ordered leaves alone: two lists with the same
/// leaves in the same order have the same root.
pub proof fn lemma_merkle_root_deterministic(first: Seq<Bytes32>, second: Seq<Bytes32>)
    requires
        views(first) == views(second),
    ensures
        merkle_root(views(first)) == merkle_root(views(second)),
{
}

/// Two different byte strings with the same SHA-256 digest.
pub open spec fn is_collision(x: Seq<u8>, y: Seq<u8>) -> bool {
    x != y && sha256(x) == sha256(y)
}

/// Every SHA-256 digest has 32 bytes.
pub open spec fn digests_have_32_bytes() -> bool {
    forall|x: Seq<u8>| (#[trigger] sha256(x)).len() == 32
}

/// Every hash of a level has 32 bytes.
pub open spec fn level_of_hashes(level: Seq<Seq<u8>>) -> bool {
    forall|i: int| 0 <= i < level.len() ==> (#[trigger] level[i]).len() == 32
}

/// Two different levels of the same length under the same root show a collision
/// of SHA-256.
pub proof fn lemma_levels_with_same_root(first: Seq<Seq<u8>>, second: Seq<Seq<u8>>)
    requires
        digests_have_32_bytes(),
        first.len() == second.len(),
        level_of_hashes(first),
        level_of_hashes(second),
        first != second,
        root_above(first) == root_above(second),
    ensures
        exists|x: Seq<u8>, y: Seq<u8>| is_collision(x, y),
    decreases first.len(),
{
    let n = first.len() as int;
    if n <= 1 {
        assert(first =~= second);
    } else {
        let up1 = next_level(first);
        let up2 = next_level(second);
        if up1 == up2 {
            if forall|i: int| 0 <= i < n ==> first[i] == second[i] {
                assert(first =~= second);
            }
            let i = choose|i: int| 0 <= i < n && first[i] != second[i];
            let k = i / 2;
            assert(up1[k] == up2[k]);
            if 2 * k + 1 < n {
                let x = seq![2u8] + first[2 * k] + first[2 * k + 1];
                let y = seq![2u8] + second[2 * k] + second[2 * k + 1];
                assert(first[2 * k].len() == 32 && first[2 * k + 1].len() == 32);
                assert(second[2 * k].len() == 32 && second[2 * k + 1].len() == 32);
                assert(x.subrange(1, 33) =~= first[2 * k]);
                assert(x.subrange(33, 65) =~= first[2 * k + 1]);
                assert(y.subrange(1, 33) =~= second[2 * k]);
                assert(y.subrange(33, 65) =~= second[2 * k + 1]);
                assert(up1[k] == sha256(x));
                assert(up2[k] == sha256(y));
                assert(is_collision(x, y));
            } else {
                assert(up1[k] == first[2 * k]);
                assert(up2[k] == second[2 * k]);
            }
        } else {
            assert(level_of_hashes(up1)) by {
                assert forall|j: int| 0 <= j < up1.len() implies (#[trigger] up1[j]).len() == 32 by {
                    assert(first[2 * j].len() == 32);
                }
            }
            assert(level_of_hashes(up2)) by {
                assert forall|j: int| 0 <= j < up2.len() implies (#[trigger] up2[j]).len() == 32 by {
                    assert(second[2 * j].len() == 32);
                }
            }
            lemma_levels_with_same_root(up1, up2);
        }
    }
}

/// The root depends on the leaves and on their order, as far as SHA-256 goes:
/// two different lists of as many leaves that have the same root show two
/// different byte strings with the same digest.
pub proof fn lemma_merkle_root_order_sensitive(first: Seq<Seq<u8>>, second: Seq<Seq<u8>>)
    requires
        digests_have_32_bytes(),
        first.len() == second.len(),
        first != second,
        merkle_root(first) == merkle_root(second),
    ensures
        exists|x: Seq<u8>, y: Seq<u8>| is_collision(x, y),
{
    let level1 = leaf_level(first);
    let level2 = leaf_level(second);
    if level1 == level2 {
        if forall|i: int| 0 <= i < first.len() ==> first[i] == second[i] {
            assert(first =~= second);
        }
        let i = choose|i: int| 0 <= i < first.len() && first[i] != second[i];
        let x = seq![1u8] + first[i];
        let y = seq![1u8] + second[i];
        assert(x.subrange(1, x.len() as int) =~= first[i]);
        assert(y.subrange(1, y.len() as int) =~= second[i]);
        assert(level1[i] == sha256(x));
        assert(level2[i] == sha256(y));
        assert(is_collision(x, y));
    } else {
        lemma_levels_with_same_root(level1, level2);
    }
}

} // verus!
