use crate::bytes32::Bytes32;
use crate::clvm::{atom_of, has, pair_of, tree, Tree};
use clvmr::{Allocator, NodePtr};
use vstd::prelude::*;

verus! {

/// The pair of two trees.
pub open spec fn pair(first: Tree, rest: Tree) -> Tree {
    Tree::Pair(Box::new(first), Box::new(rest))
}

/// The items of a nil-terminated list, or `None` where the tree is no such list.
pub open spec fn list_items(t: Tree) -> Option<Seq<Tree>>
    decreases t,
{
    match t {
        Tree::Atom(bytes) => if bytes.len() == 0 {
            Some(Seq::empty())
        } else {
            None
        },
        Tree::Pair(first, rest) => match list_items(*rest) {
            Some(items) => Some(seq![*first] + items),
            None => None,
        },
    }
}

/// The nil-terminated list of the given items.
pub open spec fn list_tree(items: Seq<Tree>) -> Tree
    decreases items.len(),
{
    if items.len() == 0 {
        Tree::Atom(Seq::empty())
    } else {
        pair(items[0], list_tree(items.drop_first()))
    }
}

/// A nil-terminated list is the list of its own items.
pub proof fn lemma_list_tree_of_items(t: Tree)
    requires
        list_items(t) is Some,
    ensures
        list_tree(list_items(t).unwrap()) == t,
    decreases t,
{
    match t {
        Tree::Atom(bytes) => {
            assert(bytes =~= Seq::empty());
        },
        Tree::Pair(first, rest) => {
            lemma_list_tree_of_items(*rest);
            let items = list_items(*rest).unwrap();
            assert((seq![*first] + items).drop_first() =~= items);
        },
    }
}

/// The items of the list of given items are those items.
pub proof fn lemma_list_items_of_tree(items: Seq<Tree>)
    ensures
        list_items(list_tree(items)) == Some(items),
    decreases items.len(),
{
    if items.len() == 0 {
        assert(items =~= Seq::<Tree>::empty());
    } else {
        lemma_list_items_of_tree(items.drop_first());
        assert(seq![items[0]] + items.drop_first() =~= items);
    }
}

/// The byte strings that a sequence of byte vectors holds.
pub open spec fn byte_seqs(v: Seq<Vec<u8>>) -> Seq<Seq<u8>> {
    v.map_values(|x: Vec<u8>| x@)
}

/// The bytes of each tree of a sequence, or `None` where one of them is a pair.
pub open spec fn atoms_of(items: Seq<Tree>) -> Option<Seq<Seq<u8>>> {
    if forall|i: int| 0 <= i < items.len() ==> #[trigger] items[i] is Atom {
        Some(items.map_values(|t: Tree| t->Atom_0))
    } else {
        None
    }
}

/// Each handle of `nodes` is valid in `a` and stands for the tree at the same
/// place of `trees`.
pub open spec fn nodes_are(a: Allocator, nodes: Seq<NodePtr>, trees: Seq<Tree>) -> bool {
    &&& nodes.len() == trees.len()
    &&& forall|i: int| 0 <= i < nodes.len() ==> has(a, #[trigger] nodes[i]) && tree(a, nodes[i]) == trees[i]
}

/// The bytes of the atom under `n`, or `None` where a pair is found.
pub fn atom_bytes(a: &Allocator, n: NodePtr) -> (r: Option<Vec<u8>>)
    requires
        has(*a, n),
    ensures
        match tree(*a, n) {
            Tree::Atom(bytes) => r matches Some(v) && v@ == bytes,
            Tree::Pair(_, _) => r is None,
        },
{
    match pair_of(a, n) {
        Some(_) => None,
        None => Some(atom_of(a, n)),
    }
}

/// The handles of the items of the nil-terminated list under `n`, or `None`
/// where the tree is no such list.
pub fn list_nodes(a: &Allocator, n: NodePtr) -> (r: Option<Vec<NodePtr>>)
    requires
        has(*a, n),
    ensures
        match list_items(tree(*a, n)) {
            Some(items) => r matches Some(v) && nodes_are(*a, v@, items),
            None => r is None,
        },
{
    let mut out: Vec<NodePtr> = Vec::new();
    let mut cur = n;
    let ghost mut done: Seq<Tree> = Seq::empty();
    loop
        invariant
            has(*a, cur),
            nodes_are(*a, out@, done),
            list_items(tree(*a, n)) == match list_items(tree(*a, cur)) {
                Some(items) => Some(done + items),
                None => None,
            },
        decreases tree(*a, cur),
    {
        match pair_of(a, cur) {
            Some((first, rest)) => {
                proof {
                    let t_first = tree(*a, first);
                    match list_items(tree(*a, rest)) {
                        Some(items) => {
                            assert(done + (seq![t_first] + items) =~= done.push(t_first) + items);
                        },
                        None => {},
                    }
                    done = done.push(t_first);
                }
                out.push(first);
                cur = rest;
            },
            None => {
                let bytes = atom_of(a, cur);
                if bytes.len() == 0 {
                    assert(done + Seq::<Tree>::empty() =~= done);
                    return Some(out);
                } else {
                    return None;
                }
            },
        }
    }
}

/// The 32 bytes of the atom under `n`, or `None` where the tree is anything else.
pub fn node_bytes32(a: &Allocator, n: NodePtr) -> (r: Option<Bytes32>)
    requires
        has(*a, n),
    ensures
        match tree(*a, n) {
            Tree::Atom(bytes) => if bytes.len() == 32 {
                r matches Some(b) && b@ == bytes
            } else {
                r is None
            },
            Tree::Pair(_, _) => r is None,
        },
{
    match atom_bytes(a, n) {
        Some(v) => Bytes32::from_slice(v.as_slice()),
        None => None,
    }
}

/// The bytes of each atom of `nodes`, or `None` where one of them is a pair.
pub fn atoms_nodes(a: &Allocator, nodes: &Vec<NodePtr>) -> (r: Option<Vec<Vec<u8>>>)
    requires
        forall|i: int| 0 <= i < nodes@.len() ==> has(*a, #[trigger] nodes@[i]),
    ensures
        match atoms_of(nodes@.map_values(|n: NodePtr| tree(*a, n))) {
            Some(atoms) => r matches Some(v) && byte_seqs(v@) == atoms,
            None => r is None,
        },
{
    let ghost trees = nodes@.map_values(|n: NodePtr| tree(*a, n));
    let mut out: Vec<Vec<u8>> = Vec::new();
    let mut i: usize = 0;
    while i < nodes.len()
        invariant
            i <= nodes@.len(),
            trees == nodes@.map_values(|n: NodePtr| tree(*a, n)),
            forall|j: int| 0 <= j < nodes@.len() ==> has(*a, #[trigger] nodes@[j]),
            out@.len() == i,
            forall|j: int| 0 <= j < i ==> #[trigger] trees[j] == Tree::Atom(out@[j]@),
        decreases nodes@.len() - i,
    {
        match atom_bytes(a, nodes[i]) {
            Some(bytes) => {
                assert(trees[i as int] == tree(*a, nodes@[i as int]));
                out.push(bytes);
            },
            None => {
                assert(trees[i as int] == tree(*a, nodes@[i as int]));
                assert(!(trees[i as int] is Atom));
                return None;
            },
        }
        i = i + 1;
    }
    assert(forall|j: int| 0 <= j < trees.len() ==> #[trigger] trees[j] is Atom);
    assert(byte_seqs(out@) =~= trees.map_values(|t: Tree| t->Atom_0));
    Some(out)
}

} // verus!
