use crate::number::{int_atom, signed_be};
use chia_sdk_types::conditions::run_puzzle;
use clvm_traits::FromClvm;
use clvmr::serde::node_from_bytes;
use clvmr::{Allocator, NodePtr};
use vstd::prelude::*;

verus! {

/// A program or a value of the ledger's virtual machine: an atom of bytes, or a
/// pair of two trees.
pub enum Tree {
    Atom(Seq<u8>),
    Pair(Box<Tree>, Box<Tree>),
}

/// The arena of clvmr in which program trees are allocated.
#[verifier::external_type_specification]
#[verifier::external_body]
pub struct ExAllocator(Allocator);

/// A handle to a node of an arena.
#[verifier::external_type_specification]
#[verifier::external_body]
pub struct ExNodePtr(NodePtr);

/// The derived `Clone` of clvmr's `NodePtr`, a `Copy` type: the clone is the
/// handle itself.
pub assume_specification[ <NodePtr as Clone>::clone ](n: &NodePtr) -> (r: NodePtr)
    ensures
        r == *n,
;

/// What an arena holds: each handle that is valid in it, with the tree found
/// under that handle.
pub uninterp spec fn arena_nodes(a: Allocator) -> Map<NodePtr, Tree>;

/// The tree that a serialized program decodes to.
pub uninterp spec fn clvm_decode(bytes: Seq<u8>) -> Tree;

/// What a program returns when it runs on a solution and succeeds.
pub uninterp spec fn clvm_output(program: Tree, solution: Tree) -> Tree;

/// `n` is a valid handle in `a`.
pub open spec fn has(a: Allocator, n: NodePtr) -> bool {
    arena_nodes(a).dom().contains(n)
}

/// The tree under `n` in `a`.
pub open spec fn tree(a: Allocator, n: NodePtr) -> Tree {
    arena_nodes(a)[n]
}

/// `n` is a valid handle in `a`, to the tree `t`.
pub open spec fn stands_for(a: Allocator, n: NodePtr, t: Tree) -> bool {
    has(a, n) && tree(a, n) == t
}

/// `n` is a valid handle to the tree `t` in some arena.
pub open spec fn stands_somewhere_for(n: NodePtr, t: Tree) -> bool {
    exists|a: Allocator| stands_for(a, n, t)
}

/// Every handle of `before` is a handle of `after`, to the same tree.
pub open spec fn extends(before: Allocator, after: Allocator) -> bool {
    forall|n: NodePtr| #[trigger] has(before, n) ==> has(after, n) && tree(after, n) == tree(before, n)
}

/// The empty atom.
pub open spec fn nil_tree() -> Tree {
    Tree::Atom(Seq::empty())
}

/// The value of `v` as a `u8` that wraps around, where its magnitude fits in one
/// byte.
pub open spec fn as_u8(v: int) -> Option<u8> {
    if -0x100 < v < 0x100 {
        Some((v % 0x100) as u8)
    } else {
        None
    }
}

/// The value of `v` as a `u64` that wraps around, where its magnitude fits in
/// eight bytes.
pub open spec fn as_u64(v: int) -> Option<u64> {
    if -0x1_0000_0000_0000_0000 < v < 0x1_0000_0000_0000_0000 {
        Some((v % 0x1_0000_0000_0000_0000) as u64)
    } else {
        None
    }
}

/// The value of `v` as an `i32` that wraps around, where its magnitude fits in
/// four bytes.
pub open spec fn as_i32(v: int) -> Option<i32> {
    if -0x1_0000_0000 < v < 0x1_0000_0000 {
        let low = v % 0x1_0000_0000;
        if low >= 0x8000_0000 {
            Some((low - 0x1_0000_0000) as i32)
        } else {
            Some(low as i32)
        }
    } else {
        None
    }
}

/// The integer that an atom writes in two's complement; a pair writes none.
pub open spec fn atom_int(t: Tree) -> Option<int> {
    match t {
        Tree::Atom(bytes) => Some(signed_be(bytes)),
        Tree::Pair(_, _) => None,
    }
}

/// `Allocator::new` of clvmr: a fresh arena.
#[verifier::external_body]
pub(crate) fn new_allocator() -> (a: Allocator) {
    Allocator::new()
}

/// `Allocator::nil` of clvmr: the handle of the empty atom, valid in every arena.
#[verifier::external_body]
pub(crate) fn nil(a: &Allocator) -> (n: NodePtr)
    ensures
        has(*a, n),
        arena_nodes(*a)[n] == nil_tree(),
{
    a.nil()
}

/// `Allocator::new_atom` of clvmr: allocates an atom with the given bytes. The
/// arena may refuse when one of its limits is reached; earlier handles stay as
/// they were either way.
#[verifier::external_body]
pub(crate) fn new_atom(a: &mut Allocator, bytes: &[u8]) -> (r: Option<NodePtr>)
    ensures
        extends(*old(a), *final(a)),
        r matches Some(n) ==> has(*final(a), n) && tree(*final(a), n) == Tree::Atom(bytes@),
{
    a.new_atom(bytes).ok()
}

/// `Allocator::new_pair` of clvmr: allocates a pair of two nodes of the arena.
#[verifier::external_body]
pub(crate) fn new_pair(a: &mut Allocator, first: NodePtr, rest: NodePtr) -> (r: Option<NodePtr>)
    requires
        has(*old(a), first),
        has(*old(a), rest),
    ensures
        extends(*old(a), *final(a)),
        r matches Some(n) ==> has(*final(a), n) && tree(*final(a), n) == Tree::Pair(
            Box::new(tree(*old(a), first)),
            Box::new(tree(*old(a), rest)),
        ),
{
    a.new_pair(first, rest).ok()
}

/// `Allocator::next` of clvmr: the two children of a pair, or `None` for an atom.
#[verifier::external_body]
pub(crate) fn pair_of(a: &Allocator, n: NodePtr) -> (r: Option<(NodePtr, NodePtr)>)
    requires
        has(*a, n),
    ensures
        match r {
            Some((first, rest)) => has(*a, first) && has(*a, rest) && tree(*a, n) == Tree::Pair(
                Box::new(tree(*a, first)),
                Box::new(tree(*a, rest)),
            ),
            None => tree(*a, n) is Atom,
        },
{
    a.next(n)
}

/// `Allocator::atom` of clvmr: the bytes of an atom.
#[verifier::external_body]
pub(crate) fn atom_of(a: &Allocator, n: NodePtr) -> (r: Vec<u8>)
    requires
        has(*a, n),
        tree(*a, n) is Atom,
    ensures
        tree(*a, n) == Tree::Atom(r@),
{
    a.atom(n).as_ref().to_vec()
}

/// `Allocator::new_number` of clvmr: allocates the atom that writes an integer,
/// here one that comes from a `u64`.
#[verifier::external_body]
pub(crate) fn new_uint(a: &mut Allocator, v: u64) -> (r: Option<NodePtr>)
    ensures
        extends(*old(a), *final(a)),
        r matches Some(n) ==> has(*final(a), n) && tree(*final(a), n) == Tree::Atom(
            int_atom(v as int),
        ),
{
    a.new_number(v.into()).ok()
}

/// `u64::from_clvm` of clvm-traits: reads an atom as a two's complement integer
/// whose magnitude fits in eight bytes, negative values wrapping around.
#[verifier::external_body]
pub(crate) fn node_u64(a: &Allocator, n: NodePtr) -> (r: Option<u64>)
    requires
        has(*a, n),
    ensures
        r == match atom_int(tree(*a, n)) {
            Some(v) => as_u64(v),
            None => None,
        },
{
    u64::from_clvm(a, n).ok()
}

/// `i32::from_clvm` of clvm-traits: reads an atom as a two's complement integer
/// whose magnitude fits in four bytes, wrapping around into the `i32` range.
#[verifier::external_body]
pub(crate) fn node_i32(a: &Allocator, n: NodePtr) -> (r: Option<i32>)
    requires
        has(*a, n),
    ensures
        r == match atom_int(tree(*a, n)) {
            Some(v) => as_i32(v),
            None => None,
        },
{
    i32::from_clvm(a, n).ok()
}

/// `node_from_bytes` of clvmr: decodes a serialized program into the arena.
#[verifier::external_body]
pub(crate) fn decode_program(a: &mut Allocator, bytes: &[u8]) -> (r: Option<NodePtr>)
    ensures
        extends(*old(a), *final(a)),
        r matches Some(n) ==> has(*final(a), n) && tree(*final(a), n) == clvm_decode(bytes@),
{
    node_from_bytes(a, bytes).ok()
}

/// `run_puzzle` of chia-sdk-types: runs a program on a solution with the
/// ledger's dialect and cost limit. When it succeeds, the output is what the
/// program returns on that solution; a quotation `(q . X)` returns `X` whatever
/// the solution is. It may fail because the program fails, or because the arena
/// is full.
#[verifier::external_body]
pub(crate) fn run(a: &mut Allocator, program: NodePtr, solution: NodePtr) -> (r: Option<NodePtr>)
    requires
        has(*old(a), program),
        has(*old(a), solution),
    ensures
        extends(*old(a), *final(a)),
        r matches Some(n) ==> has(*final(a), n) && tree(*final(a), n) == clvm_output(
            tree(*old(a), program),
            tree(*old(a), solution),
        ),
        r matches Some(n) ==> (tree(*old(a), program) matches Tree::Pair(q, x) ==> *q == Tree::Atom(
            seq![1u8],
        ) ==> tree(*final(a), n) == *x),
{
    run_puzzle(a, program, solution).ok()
}

} // verus!
