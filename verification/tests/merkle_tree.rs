use clvm_utils::{tree_hash_atom, tree_hash_pair};
use datalayer_driver::bytes32::Bytes32;
use datalayer_driver::merkle_tree::MerkleTree;

fn leaf(b: u8) -> Bytes32 {
    Bytes32::new([b; 32])
}

#[test]
fn merkle_root_of_nothing_is_the_hash_of_the_empty_atom() {
    let tree = MerkleTree::new(&vec![]);
    assert_eq!(
        hex::encode(tree.get_root().bytes),
        "4bf5122f344554c53bde2ebb8cd2b7e3d1600ad631c385a5d7cce23c7785459a"
    );
}

#[test]
fn merkle_root_of_one_leaf_is_its_leaf_hash() {
    let tree = MerkleTree::new(&vec![leaf(1)]);
    assert_eq!(tree.get_root().bytes, tree_hash_atom(&[1; 32]).to_bytes());
    assert_ne!(tree.get_root().bytes, [1; 32]);
}

#[test]
fn merkle_root_pairs_neighbours_and_promotes_the_odd_one() {
    let h = |b: u8| tree_hash_atom(&[b; 32]);
    let two = MerkleTree::new(&vec![leaf(1), leaf(2)]);
    assert_eq!(two.root.bytes, tree_hash_pair(h(1), h(2)).to_bytes());
    let three = MerkleTree::new(&vec![leaf(1), leaf(2), leaf(3)]);
    assert_eq!(three.root.bytes, tree_hash_pair(tree_hash_pair(h(1), h(2)), h(3)).to_bytes());
    let five = MerkleTree::new(&vec![leaf(1), leaf(2), leaf(3), leaf(4), leaf(5)]);
    let left = tree_hash_pair(tree_hash_pair(h(1), h(2)), tree_hash_pair(h(3), h(4)));
    assert_eq!(five.root.bytes, tree_hash_pair(left, h(5)).to_bytes());
}

#[test]
fn merkle_root_is_the_same_for_the_same_leaves() {
    let leaves = vec![leaf(7), leaf(8), leaf(9), leaf(7)];
    assert_eq!(MerkleTree::new(&leaves), MerkleTree::new(&leaves.clone()));
}

#[test]
fn merkle_root_depends_on_the_order() {
    let forward = MerkleTree::new(&vec![leaf(1), leaf(2), leaf(3)]);
    let swapped = MerkleTree::new(&vec![leaf(2), leaf(1), leaf(3)]);
    let rotated = MerkleTree::new(&vec![leaf(3), leaf(1), leaf(2)]);
    assert_ne!(forward.get_root(), swapped.get_root());
    assert_ne!(forward.get_root(), rotated.get_root());
    assert_ne!(swapped.get_root(), rotated.get_root());
}
