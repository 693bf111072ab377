use crate::bytes32::Bytes32;
use crate::clvm::{has, tree, Tree};
use crate::number::int_atom;
use chia_protocol::Coin;
use clvm_utils::TreeHash;
use clvmr::{Allocator, NodePtr};
use vstd::prelude::*;

verus! {

/// The SHA-256 digest of a byte string.
pub uninterp spec fn sha256(data: Seq<u8>) -> Seq<u8>;

/// The tree hash of an atom: the digest of the tag 1 and the atom's bytes.
pub open spec fn atom_hash(bytes: Seq<u8>) -> Seq<u8> {
    sha256(seq![1u8] + bytes)
}

/// The tree hash of a pair: the digest of the tag 2 and the two children's hashes.
pub open spec fn pair_hash(first: Seq<u8>, rest: Seq<u8>) -> Seq<u8> {
    sha256(seq![2u8] + first + rest)
}

/// The tree hash of a tree.
pub open spec fn tree_hash_of(t: Tree) -> Seq<u8>
    decreases t,
{
    match t {
        Tree::Atom(bytes) => atom_hash(bytes),
        Tree::Pair(first, rest) => pair_hash(tree_hash_of(*first), tree_hash_of(*rest)),
    }
}

/// The byte strings that a sequence of 32-byte values holds.
pub open spec fn views(s: Seq<Bytes32>) -> Seq<Seq<u8>> {
    s.map_values(|b: Bytes32| b@)
}

/// The hash of the argument list `(c (q . A1) (c (q . A2) ... 1))` of a curried
/// program, from the hashes of the arguments.
pub open spec fn curried_args_hash(arg_hashes: Seq<Seq<u8>>) -> Seq<u8>
    decreases arg_hashes.len(),
{
    if arg_hashes.len() == 0 {
        atom_hash(seq![1u8])
    } else {
        pair_hash(
            atom_hash(seq![4u8]),
            pair_hash(
                pair_hash(atom_hash(seq![1u8]), arg_hashes[0]),
                pair_hash(curried_args_hash(arg_hashes.drop_first()), atom_hash(Seq::empty())),
            ),
        )
    }
}

/// The hash of the curried program `(a (q . P) ARGS)`, from the hash of `P` and
/// the hashes of the arguments.
pub open spec fn curry_hash(program_hash: Seq<u8>, arg_hashes: Seq<Seq<u8>>) -> Seq<u8> {
    pair_hash(
        atom_hash(seq![2u8]),
        pair_hash(
            pair_hash(atom_hash(seq![1u8]), program_hash),
            pair_hash(curried_args_hash(arg_hashes), atom_hash(Seq::empty())),
        ),
    )
}

/// `tree_hash_atom` of clvm-utils: SHA-256 over the byte 1 followed by the atom.
#[verifier::external_body]
pub(crate) fn tree_hash_atom(bytes: &[u8]) -> (r: Bytes32)
    ensures
        r@ == sha256(seq![1u8] + bytes@),
{
    Bytes32 { bytes: clvm_utils::tree_hash_atom(bytes).to_bytes() }
}

/// `tree_hash_pair` of clvm-utils: SHA-256 over the byte 2 followed by the two
/// hashes.
#[verifier::external_body]
pub(crate) fn tree_hash_pair(first: &Bytes32, rest: &Bytes32) -> (r: Bytes32)
    ensures
        r@ == sha256(seq![2u8] + first@ + rest@),
{
    let h = clvm_utils::tree_hash_pair(TreeHash::new(first.bytes), TreeHash::new(rest.bytes));
    Bytes32 { bytes: h.to_bytes() }
}

/// `tree_hash` of clvm-utils: the tree hash of the tree under a node, atoms
/// hashed as `tree_hash_atom` does and pairs as `tree_hash_pair` does.
#[verifier::external_body]
pub(crate) fn tree_hash(a: &Allocator, n: NodePtr) -> (r: Bytes32)
    requires
        has(*a, n),
    ensures
        r@ == tree_hash_of(tree(*a, n)),
{
    Bytes32 { bytes: clvm_utils::tree_hash(a, n).to_bytes() }
}

/// `curry_tree_hash` of clvm-utils: the tree hash of a program curried with
/// arguments, computed from the hashes of the program and of the arguments.
#[verifier::external_body]
pub(crate) fn curry_tree_hash(program_hash: &Bytes32, arg_hashes: &Vec<Bytes32>) -> (r: Bytes32)
    ensures
        r@ == curry_hash(program_hash@, views(arg_hashes@)),
{
    let args: Vec<TreeHash> = arg_hashes.iter().map(|h| TreeHash::new(h.bytes)).collect();
    let h = clvm_utils::curry_tree_hash(TreeHash::new(program_hash.bytes), &args);
    Bytes32 { bytes: h.to_bytes() }
}

/// `Coin::coin_id` of chia-protocol: SHA-256 over the parent id, the puzzle hash
/// and the amount written as an atom writes an integer.
#[verifier::external_body]
pub(crate) fn coin_id_of(parent: &Bytes32, puzzle_hash: &Bytes32, amount: u64) -> (r: Bytes32)
    ensures
        r@ == sha256(parent@ + puzzle_hash@ + int_atom(amount as int)),
{
    let coin = Coin::new(parent.bytes.into(), puzzle_hash.bytes.into(), amount);
    Bytes32 { bytes: coin.coin_id().into() }
}

} // verus!
