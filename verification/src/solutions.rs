use crate::bytes32::Bytes32;
use crate::clvm::{has, node_u64, pair_of, tree, Tree};
use crate::conditions::{tree_bytes32, tree_u64};
use crate::sexp::{atom_bytes, list_items, list_nodes, node_bytes32, nodes_are};
use chia_puzzles::nft::NftStateLayerSolution;
use chia_puzzles::singleton::SingletonSolution;
use clvm_traits::FromClvm;
use clvmr::{Allocator, NodePtr};
use vstd::prelude::*;

verus! {

/// Whether a tree writes a proof: the list `(parent_parent_id
/// parent_inner_puzzle_hash parent_amount)` of a lineage proof, or the list
/// `(parent_id amount)` of an eve proof.
pub open spec fn is_proof(t: Tree) -> bool {
    match list_items(t) {
        Some(items) => (items.len() == 3 && tree_bytes32(items[0]) is Some && tree_bytes32(items[1])
            is Some && tree_u64(items[2]) is Some) || (items.len() == 2 && tree_bytes32(items[0])
            is Some && tree_u64(items[1]) is Some),
        None => false,
    }
}

/// The solution that a singleton's solution hands to the puzzle inside the state
/// layer. The singleton's solution is the list `(proof amount inner_solution)`,
/// and the state layer's solution inside it the list of one item.
pub open spec fn state_inner_solution_of(t: Tree) -> Option<Tree> {
    match list_items(t) {
        Some(items) => if items.len() == 3 && is_proof(items[0]) && tree_u64(items[1]) is Some {
            match list_items(items[2]) {
                Some(inner) => if inner.len() == 1 {
                    Some(inner[0])
                } else {
                    None
                },
                None => None,
            }
        } else {
            None
        },
        None => None,
    }
}

/// The puzzle that a delegation layer's solution reveals and the solution for
/// it. The solution is the list `(merkle_proof puzzle_reveal puzzle_solution)`.
pub open spec fn delegation_solution_of(t: Tree) -> Option<(Tree, Tree)> {
    match list_items(t) {
        Some(items) => if items.len() == 3 {
            Some((items[1], items[2]))
        } else {
            None
        },
        None => None,
    }
}

/// `SingletonSolution::from_clvm` of chia-puzzles, around a state layer's
/// solution: where the tree is a singleton's solution `(proof amount
/// inner_solution)` whose inner solution is a list of one item, the handle of
/// that item; `None` for any other tree.
#[verifier::external_body]
pub(crate) fn singleton_solution_inner(a: &Allocator, n: NodePtr) -> (r: Option<NodePtr>)
    requires
        has(*a, n),
    ensures
        match state_inner_solution_of(tree(*a, n)) {
            Some(inner) => r matches Some(m) && has(*a, m) && tree(*a, m) == inner,
            None => r is None,
        },
{
    match SingletonSolution::<NftStateLayerSolution<NodePtr>>::from_clvm(a, n) {
        Ok(solution) => Some(solution.inner_solution.inner_solution),
        Err(_) => None,
    }
}

/// The handle of the solution that the singleton's solution under `n` hands to
/// the puzzle inside the state layer.
pub fn parse_state_inner_solution(a: &Allocator, n: NodePtr) -> (r: Option<NodePtr>)
    requires
        has(*a, n),
    ensures
        match state_inner_solution_of(tree(*a, n)) {
            Some(inner) => r matches Some(m) && has(*a, m) && tree(*a, m) == inner,
            None => r is None,
        },
{
    singleton_solution_inner(a, n)
}

/// The handles of the puzzle that the delegation layer's solution under `n`
/// reveals and of the solution for it.
pub fn parse_delegation_solution(a: &Allocator, n: NodePtr) -> (r: Option<(NodePtr, NodePtr)>)
    requires
        has(*a, n),
    ensures
        match delegation_solution_of(tree(*a, n)) {
            Some((puzzle, solution)) => r matches Some((p, s)) && has(*a, p) && has(*a, s) && tree(
                *a,
                p,
            ) == puzzle && tree(*a, s) == solution,
            None => r is None,
        },
{
    let items = match list_nodes(a, n) {
        Some(items) => items,
        None => return None,
    };
    if items.len() != 3 {
        return None;
    }
    Some((items[1], items[2]))
}

/// One entry of a launcher's key-value list: a key and the values under it.
#[derive(Clone, Debug, PartialEq, Eq)]
pub struct KeyValueListItem {
    pub key: Vec<u8>,
    pub value: Vec<NodePtr>,
}

/// An entry of a key-value list as a key and trees.
pub struct KeyValueView {
    pub key: Seq<u8>,
    pub value: Seq<Tree>,
}

impl KeyValueListItem {
    /// The handles of the entry are valid in `a`.
    pub open spec fn wf(&self, a: Allocator) -> bool {
        forall|i: int| 0 <= i < self.value@.len() ==> has(a, #[trigger] self.value@[i])
    }

    /// The entry with the trees that its handles stand for in `a`.
    pub open spec fn view_in(&self, a: Allocator) -> KeyValueView {
        KeyValueView { key: self.key@, value: self.value@.map_values(|n: NodePtr| tree(a, n)) }
    }
}

/// The entry that a tree writes: a pair of a key atom and a nil-terminated list
/// of values.
pub open spec fn key_value_of(t: Tree) -> Option<KeyValueView> {
    match t {
        Tree::Pair(key, value) => match (*key, list_items(*value)) {
            (Tree::Atom(bytes), Some(items)) => Some(KeyValueView { key: bytes, value: items }),
            _ => None,
        },
        Tree::Atom(_) => None,
    }
}

/// The entries that a sequence of trees writes, or `None` where one of them
/// writes none.
pub open spec fn key_values_of(items: Seq<Tree>) -> Option<Seq<KeyValueView>> {
    if forall|i: int| 0 <= i < items.len() ==> key_value_of(#[trigger] items[i]) is Some {
        Some(items.map_values(|t: Tree| key_value_of(t).unwrap()))
    } else {
        None
    }
}

/// What a launcher's solution says.
pub struct LauncherSolutionView {
    pub singleton_puzzle_hash: Seq<u8>,
    pub amount: u64,
    pub key_value_list: Seq<KeyValueView>,
}

/// What a launcher's solution says: the list `(singleton_puzzle_hash amount
/// key_value_list)`.
pub open spec fn launcher_solution_of(t: Tree) -> Option<LauncherSolutionView> {
    match list_items(t) {
        Some(items) => if items.len() == 3 && tree_bytes32(items[0]) is Some && tree_u64(items[1])
            is Some {
            match list_items(items[2]) {
                Some(entries) => match key_values_of(entries) {
                    Some(key_value_list) => Some(
                        LauncherSolutionView {
                            singleton_puzzle_hash: tree_bytes32(items[0]).unwrap(),
                            amount: tree_u64(items[1]).unwrap(),
                            key_value_list,
                        },
                    ),
                    None => None,
                },
                None => None,
            }
        } else {
            None
        },
        None => None,
    }
}

/// The entries of `list` with the trees that their handles stand for in `a`.
pub open spec fn key_value_views(a: Allocator, list: Seq<KeyValueListItem>) -> Seq<KeyValueView> {
    list.map_values(|item: KeyValueListItem| item.view_in(a))
}

/// A launcher's solution as values and handles.
pub struct LauncherSolution {
    pub singleton_puzzle_hash: Bytes32,
    pub amount: u64,
    pub key_value_list: Vec<KeyValueListItem>,
}

impl LauncherSolution {
    /// The handles of the solution are valid in `a`.
    pub open spec fn wf(&self, a: Allocator) -> bool {
        forall|i: int| 0 <= i < self.key_value_list@.len() ==> (#[trigger] self.key_value_list@[i]).wf(a)
    }

    /// The solution with the trees that its handles stand for in `a`.
    pub open spec fn view_in(&self, a: Allocator) -> LauncherSolutionView {
        LauncherSolutionView {
            singleton_puzzle_hash: self.singleton_puzzle_hash@,
            amount: self.amount,
            key_value_list: key_value_views(a, self.key_value_list@),
        }
    }

    /// Reads the launcher's solution that the tree under `n` writes.
    #[verifier::loop_isolation(false)]
    pub fn from_clvm(a: &Allocator, n: NodePtr) -> (r: Option<Self>)
        requires
            has(*a, n),
        ensures
            match launcher_solution_of(tree(*a, n)) {
                Some(v) => r matches Some(s) && s.wf(*a) && s.view_in(*a) == v,
                None => r is None,
            },
    {
        let items = match list_nodes(a, n) {
            Some(items) => items,
            None => return None,
        };
        if items.len() != 3 {
            return None;
        }
        let singleton_puzzle_hash = match node_bytes32(a, items[0]) {
            Some(h) => h,
            None => return None,
        };
        let amount = match node_u64(a, items[1]) {
            Some(v) => v,
            None => return None,
        };
        let entries = match list_nodes(a, items[2]) {
            Some(entries) => entries,
            None => return None,
        };
        let ghost trees = list_items(tree(*a, items@[2])).unwrap();
        let mut key_value_list: Vec<KeyValueListItem> = Vec::new();
        let mut i: usize = 0;
        while i < entries.len()
            invariant
                i <= entries@.len(),
                nodes_are(*a, entries@, trees),
                key_value_list@.len() == i,
                forall|j: int|
                    #![trigger key_value_list@[j]]
                    #![trigger trees[j]]
                    0 <= j < i ==> key_value_list@[j].wf(*a) && key_value_of(trees[j]) == Some(
                        key_value_list@[j].view_in(*a),
                    ),
            decreases entries@.len() - i,
        {
            let entry = entries[i];
            assert(has(*a, entries@[i as int]) && tree(*a, entries@[i as int]) == trees[i as int]);
            let (key_node, value_node) = match pair_of(a, entry) {
                Some(p) => p,
                None => {
                    assert(key_value_of(trees[i as int]) is None);
                    return None;
                },
            };
            let key = match atom_bytes(a, key_node) {
                Some(k) => k,
                None => {
                    assert(key_value_of(trees[i as int]) is None);
                    return None;
                },
            };
            let value = match list_nodes(a, value_node) {
                Some(v) => v,
                None => {
                    assert(key_value_of(trees[i as int]) is None);
                    return None;
                },
            };
            let item = KeyValueListItem { key, value };
            proof {
                let items_t = list_items(tree(*a, value_node)).unwrap();
                assert(item.value@.map_values(|n: NodePtr| tree(*a, n)) =~= items_t);
                assert(item.wf(*a));
                assert(key_value_of(trees[i as int]) == Some(item.view_in(*a)));
            }
            key_value_list.push(item);
            i = i + 1;
        }
        let r = LauncherSolution { singleton_puzzle_hash, amount, key_value_list };
        proof {
            assert(forall|j: int| 0 <= j < trees.len() ==> key_value_of(#[trigger] trees[j]) is Some);
            assert(key_value_views(*a, r.key_value_list@) =~= trees.map_values(
                |t: Tree| key_value_of(t).unwrap(),
            ));
        }
        Some(r)
    }
}

} // verus!
