use crate::bytes32::Bytes32;
use crate::clvm::{as_i32, as_u64, as_u8, atom_int, has, node_i32, tree, Tree};
use crate::metadata::{DataStoreMetadata, metadata_of, MetadataView};
use crate::puzzles::{CREATE_COIN, NEW_MERKLE_ROOT, NEW_METADATA};
use crate::sexp::{atoms_of, byte_seqs, list_items, list_nodes, node_bytes32, nodes_are};
use clvm_traits::FromClvm;
use clvmr::{Allocator, NodePtr};
use vstd::prelude::*;

verus! {

/// The condition that creates a coin, with the memos it carries.
#[derive(Clone, Debug, PartialEq, Eq)]
pub struct CreateCoin {
    pub puzzle_hash: Bytes32,
    pub amount: u64,
    pub memos: Vec<Vec<u8>>,
}

/// The mathematical value of a [`CreateCoin`].
pub struct CreateCoinView {
    pub puzzle_hash: Seq<u8>,
    pub amount: u64,
    pub memos: Seq<Seq<u8>>,
}

impl View for CreateCoin {
    type V = CreateCoinView;

    open spec fn view(&self) -> CreateCoinView {
        CreateCoinView { puzzle_hash: self.puzzle_hash@, amount: self.amount, memos: byte_seqs(self.memos@) }
    }
}

/// The `u8` that a tree writes, if it writes one.
pub open spec fn tree_u8(t: Tree) -> Option<u8> {
    match atom_int(t) {
        Some(v) => as_u8(v),
        None => None,
    }
}

/// The `u64` that a tree writes, if it writes one.
pub open spec fn tree_u64(t: Tree) -> Option<u64> {
    match atom_int(t) {
        Some(v) => as_u64(v),
        None => None,
    }
}

/// The `i32` that a tree writes, if it writes one.
pub open spec fn tree_i32(t: Tree) -> Option<i32> {
    match atom_int(t) {
        Some(v) => as_i32(v),
        None => None,
    }
}

/// The 32 bytes that a tree writes, if it is an atom of that length.
pub open spec fn tree_bytes32(t: Tree) -> Option<Seq<u8>> {
    match t {
        Tree::Atom(bytes) => if bytes.len() == 32 {
            Some(bytes)
        } else {
            None
        },
        Tree::Pair(_, _) => None,
    }
}

/// The memos that a tree writes: a nil-terminated list of atoms.
pub open spec fn memos_of(t: Tree) -> Option<Seq<Seq<u8>>> {
    match list_items(t) {
        Some(items) => atoms_of(items),
        None => None,
    }
}

/// The coin creation that a condition writes: the list `(51 puzzle_hash amount)`
/// or `(51 puzzle_hash amount memos)`. Any other tree writes none.
pub open spec fn create_coin_of(t: Tree) -> Option<CreateCoinView> {
    match list_items(t) {
        Some(items) => if (items.len() == 3 || items.len() == 4) && tree_u8(items[0]) == Some(
            CREATE_COIN,
        ) && tree_bytes32(items[1]) is Some && tree_u64(items[2]) is Some && (items.len() == 4
            ==> memos_of(items[3]) is Some) {
            Some(
                CreateCoinView {
                    puzzle_hash: tree_bytes32(items[1]).unwrap(),
                    amount: tree_u64(items[2]).unwrap(),
                    memos: if items.len() == 4 {
                        memos_of(items[3]).unwrap()
                    } else {
                        Seq::empty()
                    },
                },
            )
        } else {
            None
        },
        None => None,
    }
}

/// The first coin creation with an odd amount among the conditions.
pub open spec fn first_odd_create_coin(conditions: Seq<Tree>) -> Option<CreateCoinView>
    decreases conditions.len(),
{
    if conditions.len() == 0 {
        None
    } else {
        match create_coin_of(conditions[0]) {
            Some(c) => if c.amount % 2 == 1 {
                Some(c)
            } else {
                first_odd_create_coin(conditions.drop_first())
            },
            None => first_odd_create_coin(conditions.drop_first()),
        }
    }
}

/// The coin creation found among conditions as the first with an odd amount
/// has an odd amount, and is written by one of the conditions.
pub proof fn lemma_first_odd_create_coin(conditions: Seq<Tree>)
    ensures
        first_odd_create_coin(conditions) matches Some(c) ==> c.amount % 2 == 1 && exists|i: int|
            0 <= i < conditions.len() && create_coin_of(#[trigger] conditions[i]) == Some(c),
        first_odd_create_coin(conditions) is None ==> forall|i: int|
            0 <= i < conditions.len() ==> (create_coin_of(#[trigger] conditions[i]) matches Some(c)
                ==> c.amount % 2 != 1),
    decreases conditions.len(),
{
    if conditions.len() > 0 {
        let rest = conditions.drop_first();
        lemma_first_odd_create_coin(rest);
        let found = first_odd_create_coin(conditions);
        if found is Some && found != create_coin_of(conditions[0]) {
            let c = found.unwrap();
            let i = choose|i: int| 0 <= i < rest.len() && create_coin_of(#[trigger] rest[i]) == Some(c);
            assert(conditions[i + 1] == rest[i]);
        }
        if found is None {
            assert forall|i: int| 0 <= i < conditions.len() implies (create_coin_of(
                #[trigger] conditions[i],
            ) matches Some(c) ==> c.amount % 2 != 1) by {
                if i > 0 {
                    assert(conditions[i] == rest[i - 1]);
                }
            }
        }
    }
}

/// `Condition::from_clvm` of chia-sdk-types, where it finds a coin creation: the
/// puzzle hash, the amount and the memos of the list `(51 puzzle_hash amount)`
/// or `(51 puzzle_hash amount memos)`; `None` for any other tree.
#[verifier::external_body]
pub(crate) fn condition_create_coin(a: &Allocator, n: NodePtr) -> (r: Option<CreateCoin>)
    requires
        has(*a, n),
    ensures
        match create_coin_of(tree(*a, n)) {
            Some(c) => r matches Some(v) && v@ == c,
            None => r is None,
        },
{
    match chia_sdk_types::conditions::Condition::<NodePtr>::from_clvm(a, n) {
        Ok(chia_sdk_types::conditions::Condition::CreateCoin(c)) => Some(
            CreateCoin {
                puzzle_hash: Bytes32 { bytes: c.puzzle_hash.to_bytes() },
                amount: c.amount,
                memos: c.memos.iter().map(|m| m.as_ref().to_vec()).collect(),
            },
        ),
        _ => None,
    }
}

impl CreateCoin {
    /// Reads the coin creation that the tree under `n` writes.
    pub fn from_clvm(a: &Allocator, n: NodePtr) -> (r: Option<Self>)
        requires
            has(*a, n),
        ensures
            match create_coin_of(tree(*a, n)) {
                Some(c) => r matches Some(v) && v@ == c,
                None => r is None,
            },
    {
        condition_create_coin(a, n)
    }
}

/// The first coin creation with an odd amount among the given conditions.
pub fn find_odd_create_coin(a: &Allocator, conditions: &Vec<NodePtr>) -> (r: Option<CreateCoin>)
    requires
        forall|i: int| 0 <= i < conditions@.len() ==> has(*a, #[trigger] conditions@[i]),
    ensures
        match first_odd_create_coin(conditions@.map_values(|n: NodePtr| tree(*a, n))) {
            Some(c) => r matches Some(v) && v@ == c,
            None => r is None,
        },
{
    let ghost trees = conditions@.map_values(|n: NodePtr| tree(*a, n));
    let mut i: usize = 0;
    assert(trees.skip(0) =~= trees);
    while i < conditions.len()
        invariant
            i <= conditions@.len(),
            trees == conditions@.map_values(|n: NodePtr| tree(*a, n)),
            forall|j: int| 0 <= j < conditions@.len() ==> has(*a, #[trigger] conditions@[j]),
            first_odd_create_coin(trees) == first_odd_create_coin(trees.skip(i as int)),
        decreases conditions@.len() - i,
    {
        let ghost rest = trees.skip(i as int);
        assert(rest[0] == tree(*a, conditions@[i as int]));
        assert(rest.drop_first() =~= trees.skip(i + 1));
        match CreateCoin::from_clvm(a, conditions[i]) {
            Some(c) => {
                if c.amount % 2 == 1 {
                    return Some(c);
                }
            },
            None => {},
        }
        i = i + 1;
    }
    assert(trees.skip(i as int).len() == 0);
    None
}

/// A condition that a puzzle returns: the creation of a coin, or anything else.
#[derive(Clone, Debug, PartialEq, Eq)]
pub enum Condition {
    CreateCoin(CreateCoin),
    Other(NodePtr),
}

/// The mathematical value of a [`Condition`].
pub enum ConditionView {
    CreateCoin(CreateCoinView),
    Other,
}

impl View for Condition {
    type V = ConditionView;

    open spec fn view(&self) -> ConditionView {
        match self {
            Condition::CreateCoin(c) => ConditionView::CreateCoin(c@),
            Condition::Other(_) => ConditionView::Other,
        }
    }
}

/// The condition that a tree writes.
pub open spec fn condition_of(t: Tree) -> ConditionView {
    match create_coin_of(t) {
        Some(c) => ConditionView::CreateCoin(c),
        None => ConditionView::Other,
    }
}

impl Condition {
    /// Reads the condition that the tree under `n` writes.
    pub fn from_clvm(a: &Allocator, n: NodePtr) -> (r: Self)
        requires
            has(*a, n),
        ensures
            r@ == condition_of(tree(*a, n)),
            r matches Condition::Other(m) ==> m == n,
    {
        match CreateCoin::from_clvm(a, n) {
            Some(c) => Condition::CreateCoin(c),
            None => Condition::Other(n),
        }
    }
}

/// What a metadata update asks for: the new metadata and the puzzle hash of the
/// next updater.
#[derive(Clone, Debug, PartialEq, Eq)]
pub struct DefaultMetadataSolutionMetadataList {
    pub new_metadata: DataStoreMetadata,
    pub new_metadata_updater_ph: NodePtr,
}

/// The solution of the metadata updater: what to set, and further conditions.
#[derive(Clone, Debug, PartialEq, Eq)]
pub struct DefaultMetadataSolution {
    pub metadata_part: DefaultMetadataSolutionMetadataList,
    pub conditions: NodePtr,
}

/// The condition that replaces a store's metadata.
#[derive(Clone, Debug, PartialEq, Eq)]
pub struct NewMetadataCondition {
    pub metadata_updater_reveal: NodePtr,
    pub metadata_updater_solution: DefaultMetadataSolution,
}

/// The parts of a metadata update as trees and values.
pub struct NewMetadataView {
    pub metadata_updater_reveal: Tree,
    pub new_metadata: MetadataView,
    pub new_metadata_updater_ph: Tree,
    pub conditions: Tree,
}

/// The metadata update that a condition writes: the list
/// `(-24 updater_reveal ((new_metadata new_updater_hash) conditions))`. Any
/// other tree writes none.
pub open spec fn new_metadata_of(t: Tree) -> Option<NewMetadataView> {
    match list_items(t) {
        Some(items) => if items.len() == 3 && tree_i32(items[0]) == Some(NEW_METADATA) {
            match list_items(items[2]) {
                Some(solution) => if solution.len() == 2 {
                    match list_items(solution[0]) {
                        Some(part) => if part.len() == 2 && metadata_of(part[0]) is Some {
                            Some(
                                NewMetadataView {
                                    metadata_updater_reveal: items[1],
                                    new_metadata: metadata_of(part[0]).unwrap(),
                                    new_metadata_updater_ph: part[1],
                                    conditions: solution[1],
                                },
                            )
                        } else {
                            None
                        },
                        None => None,
                    }
                } else {
                    None
                },
                None => None,
            }
        } else {
            None
        },
        None => None,
    }
}

impl NewMetadataCondition {
    /// What this condition holds, with the trees that its handles stand for in `a`.
    pub open spec fn view_in(&self, a: Allocator) -> NewMetadataView {
        NewMetadataView {
            metadata_updater_reveal: tree(a, self.metadata_updater_reveal),
            new_metadata: self.metadata_updater_solution.metadata_part.new_metadata@,
            new_metadata_updater_ph: tree(
                a,
                self.metadata_updater_solution.metadata_part.new_metadata_updater_ph,
            ),
            conditions: tree(a, self.metadata_updater_solution.conditions),
        }
    }

    /// The handles of this condition are valid in `a`.
    pub open spec fn wf(&self, a: Allocator) -> bool {
        &&& has(a, self.metadata_updater_reveal)
        &&& has(a, self.metadata_updater_solution.metadata_part.new_metadata_updater_ph)
        &&& has(a, self.metadata_updater_solution.conditions)
    }

    /// Reads the metadata update that the tree under `n` writes.
    pub fn from_clvm(a: &Allocator, n: NodePtr) -> (r: Option<Self>)
        requires
            has(*a, n),
        ensures
            match new_metadata_of(tree(*a, n)) {
                Some(v) => r matches Some(c) && c.wf(*a) && c.view_in(*a) == v,
                None => r is None,
            },
    {
        let items = match list_nodes(a, n) {
            Some(items) => items,
            None => return None,
        };
        if items.len() != 3 {
            return None;
        }
        match node_i32(a, items[0]) {
            Some(op) => {
                if op != NEW_METADATA {
                    return None;
                }
            },
            None => return None,
        }
        let solution = match list_nodes(a, items[2]) {
            Some(solution) => solution,
            None => return None,
        };
        if solution.len() != 2 {
            return None;
        }
        let part = match list_nodes(a, solution[0]) {
            Some(part) => part,
            None => return None,
        };
        if part.len() != 2 {
            return None;
        }
        let new_metadata = match DataStoreMetadata::from_clvm(a, part[0]) {
            Some(m) => m,
            None => return None,
        };
        Some(
            NewMetadataCondition {
                metadata_updater_reveal: items[1],
                metadata_updater_solution: DefaultMetadataSolution {
                    metadata_part: DefaultMetadataSolutionMetadataList {
                        new_metadata,
                        new_metadata_updater_ph: part[1],
                    },
                    conditions: solution[1],
                },
            },
        )
    }
}

/// The condition that replaces the merkle root of the delegated puzzles.
#[derive(Clone, Debug, PartialEq, Eq)]
pub struct NewMerkleRootCondition {
    pub new_merkle_root: Bytes32,
    pub memos: Vec<NodePtr>,
}

/// The parts of a merkle root update as values and trees.
pub struct NewMerkleRootView {
    pub new_merkle_root: Seq<u8>,
    pub memos: Seq<Tree>,
}

/// The merkle root update that a condition writes: the list
/// `(-13 new_merkle_root memo ...)`. Any other tree writes none.
pub open spec fn new_merkle_root_of(t: Tree) -> Option<NewMerkleRootView> {
    match list_items(t) {
        Some(items) => if items.len() >= 2 && tree_i32(items[0]) == Some(NEW_MERKLE_ROOT)
            && tree_bytes32(items[1]) is Some {
            Some(
                NewMerkleRootView {
                    new_merkle_root: tree_bytes32(items[1]).unwrap(),
                    memos: items.skip(2),
                },
            )
        } else {
            None
        },
        None => None,
    }
}

impl NewMerkleRootCondition {
    /// The handles of the memos are valid in `a`.
    pub open spec fn wf(&self, a: Allocator) -> bool {
        forall|i: int| 0 <= i < self.memos@.len() ==> has(a, #[trigger] self.memos@[i])
    }

    /// What this condition holds, with the trees that its handles stand for in `a`.
    pub open spec fn view_in(&self, a: Allocator) -> NewMerkleRootView {
        NewMerkleRootView {
            new_merkle_root: self.new_merkle_root@,
            memos: self.memos@.map_values(|n: NodePtr| tree(a, n)),
        }
    }

    /// Reads the merkle root update that the tree under `n` writes.
    pub fn from_clvm(a: &Allocator, n: NodePtr) -> (r: Option<Self>)
        requires
            has(*a, n),
        ensures
            match new_merkle_root_of(tree(*a, n)) {
                Some(v) => r matches Some(c) && c.wf(*a) && c.view_in(*a) == v,
                None => r is None,
            },
    {
        let items = match list_nodes(a, n) {
            Some(items) => items,
            None => return None,
        };
        if items.len() < 2 {
            return None;
        }
        match node_i32(a, items[0]) {
            Some(op) => {
                if op != NEW_MERKLE_ROOT {
                    return None;
                }
            },
            None => return None,
        }
        let new_merkle_root = match node_bytes32(a, items[1]) {
            Some(h) => h,
            None => return None,
        };
        let ghost trees = list_items(tree(*a, n)).unwrap();
        let mut memos: Vec<NodePtr> = Vec::new();
        let mut i: usize = 2;
        while i < items.len()
            invariant
                2 <= i <= items@.len(),
                nodes_are(*a, items@, trees),
                memos@.len() == i - 2,
                forall|j: int| 0 <= j < i - 2 ==> #[trigger] memos@[j] == items@[j + 2],
            decreases items@.len() - i,
        {
            memos.push(items[i]);
            i = i + 1;
        }
        let r = NewMerkleRootCondition { new_merkle_root, memos };
        proof {
            assert forall|j: int| 0 <= j < r.memos@.len() implies has(*a, #[trigger] r.memos@[j]) by {
                assert(has(*a, items@[j + 2]));
            }
            assert(r.memos@.map_values(|n: NodePtr| tree(*a, n)) =~= trees.skip(2)) by {
                assert forall|j: int| 0 <= j < r.memos@.len() implies tree(*a, r.memos@[j])
                    == trees.skip(2)[j] by {
                    assert(has(*a, items@[j + 2]));
                }
            }
        }
        Some(r)
    }
}

/// The metadata after the conditions: that of the last metadata update among
/// them, or `current` where there is none.
pub open spec fn metadata_after(conditions: Seq<Tree>, current: MetadataView) -> MetadataView
    decreases conditions.len(),
{
    if conditions.len() == 0 {
        current
    } else {
        match new_metadata_of(conditions.last()) {
            Some(update) => update.new_metadata,
            None => metadata_after(conditions.drop_last(), current),
        }
    }
}

/// The metadata after the given conditions, starting from `current`.
pub fn apply_metadata_updates(
    a: &Allocator,
    conditions: &Vec<NodePtr>,
    current: DataStoreMetadata,
) -> (r: DataStoreMetadata)
    requires
        forall|i: int| 0 <= i < conditions@.len() ==> has(*a, #[trigger] conditions@[i]),
    ensures
        r@ == metadata_after(conditions@.map_values(|n: NodePtr| tree(*a, n)), current@),
{
    let ghost trees = conditions@.map_values(|n: NodePtr| tree(*a, n));
    let mut metadata = current;
    let mut i: usize = 0;
    while i < conditions.len()
        invariant
            i <= conditions@.len(),
            trees == conditions@.map_values(|n: NodePtr| tree(*a, n)),
            forall|j: int| 0 <= j < conditions@.len() ==> has(*a, #[trigger] conditions@[j]),
            metadata@ == metadata_after(trees.take(i as int), current@),
        decreases conditions@.len() - i,
    {
        let ghost next = trees.take(i + 1);
        assert(next.last() == tree(*a, conditions@[i as int]));
        assert(next.drop_last() =~= trees.take(i as int));
        match NewMetadataCondition::from_clvm(a, conditions[i]) {
            Some(c) => {
                metadata = c.metadata_updater_solution.metadata_part.new_metadata;
            },
            None => {},
        }
        i = i + 1;
    }
    assert(trees.take(i as int) =~= trees);
    metadata
}

} // verus!
