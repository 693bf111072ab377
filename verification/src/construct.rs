use crate::clvm::{
    clvm_decode, decode_program, extends, has, new_atom, new_pair, nil, tree, Tree,
};
use crate::hash::{atom_hash, curried_args_hash, curry_hash, pair_hash, tree_hash_of};
use crate::layers::{byte_atom, curried_args_of, uncurried};
use crate::sexp::{list_items, list_tree, pair};
use clvm_traits::ToClvm;
use clvm_utils::CurriedProgram;
use clvmr::{Allocator, NodePtr};
use vstd::prelude::*;

verus! {

/// The quotation `(q . t)` of a tree: the program that returns `t`.
pub open spec fn quoted(t: Tree) -> Tree {
    pair(byte_atom(1), t)
}

/// The argument list `(c (q . A1) (c (q . A2) ... 1))` that puts the arguments
/// in front of a program's solution.
pub open spec fn curried_args_tree(args: Seq<Tree>) -> Tree
    decreases args.len(),
{
    if args.len() == 0 {
        byte_atom(1)
    } else {
        pair(
            byte_atom(4),
            pair(
                quoted(args[0]),
                pair(curried_args_tree(args.drop_first()), Tree::Atom(Seq::empty())),
            ),
        )
    }
}

/// The program `(a (q . P) ARGS)`: `program` curried with `args`.
pub open spec fn curried(program: Tree, args: Seq<Tree>) -> Tree {
    pair(
        byte_atom(2),
        pair(quoted(program), pair(curried_args_tree(args), Tree::Atom(Seq::empty()))),
    )
}

/// The tree hashes of a sequence of trees.
pub open spec fn tree_hashes(trees: Seq<Tree>) -> Seq<Seq<u8>> {
    trees.map_values(|t: Tree| tree_hash_of(t))
}

/// The hash of an argument list is the one computed from the arguments' hashes.
pub proof fn lemma_curried_args_hash(args: Seq<Tree>)
    ensures
        tree_hash_of(curried_args_tree(args)) == curried_args_hash(tree_hashes(args)),
    decreases args.len(),
{
    if args.len() > 0 {
        lemma_curried_args_hash(args.drop_first());
        assert(tree_hashes(args).drop_first() =~= tree_hashes(args.drop_first()));
        assert(tree_hash_of(curried_args_tree(args)) == pair_hash(
            atom_hash(seq![4u8]),
            pair_hash(
                pair_hash(atom_hash(seq![1u8]), tree_hash_of(args[0])),
                pair_hash(tree_hash_of(curried_args_tree(args.drop_first())), atom_hash(Seq::empty())),
            ),
        )) by {
            reveal_with_fuel(tree_hash_of, 5);
        }
    }
}

/// Hashing a curried program gives what is computed from the hashes of the
/// program and of its arguments alone: the full program need not be built to
/// know its hash.
pub proof fn lemma_curry_hash(program: Tree, args: Seq<Tree>)
    ensures
        tree_hash_of(curried(program, args)) == curry_hash(tree_hash_of(program), tree_hashes(args)),
{
    lemma_curried_args_hash(args);
    reveal_with_fuel(tree_hash_of, 5);
}

/// A curried program comes apart into the program and the arguments it was
/// curried with.
pub proof fn lemma_uncurry_curried(program: Tree, args: Seq<Tree>)
    ensures
        uncurried(curried(program, args)) == Some((program, curried_args_tree(args))),
        curried_args_of(curried_args_tree(args)) == Some(args),
    decreases args.len(),
{
    reveal_with_fuel(list_items, 5);
    let t = curried(program, args);
    assert(list_items(t) == Some(
        seq![byte_atom(2)] + (seq![quoted(program)] + (seq![curried_args_tree(args)]
            + Seq::<Tree>::empty())),
    ));
    let items = list_items(t).unwrap();
    assert(items =~= seq![byte_atom(2), quoted(program), curried_args_tree(args)]);
    if args.len() == 0 {
        assert(args =~= Seq::<Tree>::empty());
    } else {
        lemma_uncurry_curried(program, args.drop_first());
        assert(seq![args[0]] + args.drop_first() =~= args);
    }
}

/// `CurriedProgram::to_clvm` of clvm-utils: allocates the program
/// `(a (q . P) ARGS)` from the handles of `P` and of the argument list.
#[verifier::external_body]
pub(crate) fn curried_program(a: &mut Allocator, program: NodePtr, args: NodePtr) -> (r: Option<
    NodePtr,
>)
    requires
        has(*old(a), program),
        has(*old(a), args),
    ensures
        extends(*old(a), *final(a)),
        r matches Some(n) ==> has(*final(a), n) && tree(*final(a), n) == pair(
            byte_atom(2),
            pair(
                quoted(tree(*old(a), program)),
                pair(tree(*old(a), args), Tree::Atom(Seq::empty())),
            ),
        ),
{
    CurriedProgram { program, args }.to_clvm(a).ok()
}

/// Allocates the quotation of the tree under `n`.
pub fn quote(a: &mut Allocator, n: NodePtr) -> (r: Option<NodePtr>)
    requires
        has(*old(a), n),
    ensures
        extends(*old(a), *final(a)),
        r matches Some(q) ==> has(*final(a), q) && tree(*final(a), q) == quoted(tree(*old(a), n)),
{
    let one = match new_atom(a, &[1u8]) {
        Some(one) => one,
        None => return None,
    };
    assert([1u8]@ =~= seq![1u8]);
    new_pair(a, one, n)
}

/// Allocates the nil-terminated list of the given nodes. The list of no nodes
/// is the empty atom, which every arena holds: it is handed out without
/// allocating. For any other list the arena decides whether its pairs are made.
pub fn list_of(a: &mut Allocator, items: &Vec<NodePtr>) -> (r: Option<NodePtr>)
    requires
        forall|i: int| 0 <= i < items@.len() ==> has(*old(a), #[trigger] items@[i]),
    ensures
        extends(*old(a), *final(a)),
        r matches Some(n) ==> has(*final(a), n) && tree(*final(a), n) == list_tree(
            items@.map_values(|m: NodePtr| tree(*old(a), m)),
        ),
        items@.len() == 0 ==> r is Some && *final(a) == *old(a),
{
    let ghost trees = items@.map_values(|m: NodePtr| tree(*old(a), m));
    let mut cur = nil(a);
    let mut i: usize = items.len();
    assert(trees.skip(i as int) =~= Seq::<Tree>::empty());
    while i > 0
        invariant
            i <= items@.len(),
            extends(*old(a), *a),
            trees == items@.map_values(|m: NodePtr| tree(*old(a), m)),
            forall|j: int| 0 <= j < items@.len() ==> has(*old(a), #[trigger] items@[j]),
            has(*a, cur),
            tree(*a, cur) == list_tree(trees.skip(i as int)),
            i == items@.len() ==> *a == *old(a),
        decreases i,
    {
        i = i - 1;
        let item = items[i];
        assert(has(*old(a), items@[i as int]));
        cur = match new_pair(a, item, cur) {
            Some(p) => p,
            None => return None,
        };
        proof {
            let s = trees.skip(i as int);
            assert(s[0] == tree(*old(a), item));
            assert(s.drop_first() =~= trees.skip(i + 1));
        }
    }
    assert(trees.skip(0) =~= trees);
    Some(cur)
}

/// Allocates `program` curried with `args`.
pub fn curry(a: &mut Allocator, program: NodePtr, args: &Vec<NodePtr>) -> (r: Option<NodePtr>)
    requires
        has(*old(a), program),
        forall|i: int| 0 <= i < args@.len() ==> has(*old(a), #[trigger] args@[i]),
    ensures
        extends(*old(a), *final(a)),
        r matches Some(n) ==> has(*final(a), n) && tree(*final(a), n) == curried(
            tree(*old(a), program),
            args@.map_values(|m: NodePtr| tree(*old(a), m)),
        ),
{
    let ghost trees = args@.map_values(|m: NodePtr| tree(*old(a), m));
    let empty = nil(a);
    assert(has(*a, empty));
    let mut cur = match new_atom(a, &[1u8]) {
        Some(one) => one,
        None => return None,
    };
    assert([1u8]@ =~= seq![1u8]);
    let mut i: usize = args.len();
    assert(trees.skip(i as int) =~= Seq::<Tree>::empty());
    while i > 0
        invariant
            i <= args@.len(),
            extends(*old(a), *a),
            trees == args@.map_values(|m: NodePtr| tree(*old(a), m)),
            forall|j: int| 0 <= j < args@.len() ==> has(*old(a), #[trigger] args@[j]),
            has(*a, cur),
            has(*a, empty),
            tree(*a, empty) == Tree::Atom(Seq::empty()),
            tree(*a, cur) == curried_args_tree(trees.skip(i as int)),
        decreases i,
    {
        i = i - 1;
        let arg = args[i];
        assert(has(*old(a), args@[i as int]));
        let quoted_arg = match quote(a, arg) {
            Some(q) => q,
            None => return None,
        };
        let tail = match new_pair(a, cur, empty) {
            Some(p) => p,
            None => return None,
        };
        let with_arg = match new_pair(a, quoted_arg, tail) {
            Some(p) => p,
            None => return None,
        };
        let op_c = match new_atom(a, &[4u8]) {
            Some(c) => c,
            None => return None,
        };
        assert([4u8]@ =~= seq![4u8]);
        cur = match new_pair(a, op_c, with_arg) {
            Some(p) => p,
            None => return None,
        };
        proof {
            let s = trees.skip(i as int);
            assert(s[0] == tree(*old(a), arg));
            assert(s.drop_first() =~= trees.skip(i + 1));
        }
    }
    assert(trees.skip(0) =~= trees);
    curried_program(a, program, cur)
}

/// Decodes a serialized program into the arena and hands out its handle.
pub fn load_program(a: &mut Allocator, bytes: &[u8]) -> (r: Option<NodePtr>)
    ensures
        extends(*old(a), *final(a)),
        r matches Some(n) ==> has(*final(a), n) && tree(*final(a), n) == clvm_decode(bytes@),
{
    decode_program(a, bytes)
}

/// Allocates an atom with the given bytes and hands out its handle.
pub fn atom_node(a: &mut Allocator, bytes: &[u8]) -> (r: Option<NodePtr>)
    ensures
        extends(*old(a), *final(a)),
        r matches Some(n) ==> has(*final(a), n) && tree(*final(a), n) == Tree::Atom(bytes@),
{
    new_atom(a, bytes)
}

} // verus!
