use crate::bytes32::Bytes32;
use crate::clvm::{clvm_decode, clvm_output, decode_program, extends, has, run, tree, Tree};
use crate::coin::{
    Coin, coin_id_spec, CoinSpend, CoinView, EveProof, LineageProof, ParseError, Proof, ProofView,
};
use crate::conditions::{
    apply_metadata_updates, find_odd_create_coin, first_odd_create_coin, metadata_after,
    CreateCoinView,
};
use crate::hash::{tree_hash, tree_hash_of};
use crate::layers::{
    delegation_owner_of, has_delegation_layer, is_delegation_layer, parse_delegation_owner,
    parse_singleton_layer, parse_state_layer, singleton_full_puzzle_hash, singleton_layer_of,
    singleton_puzzle_hash, state_layer_hash, state_layer_of, state_layer_puzzle_hash,
};
use crate::metadata::{DataStoreMetadata, metadata_of, metadata_tree, MetadataView};
use crate::puzzles::SINGLETON_LAUNCHER_PUZZLE_HASH;
use crate::puzzles_info::{
    DelegatedPuzzle, DelegatedPuzzleView, hinted_info, HintKeys, info_hash, InfoView,
};
use crate::sexp::{atoms_nodes, atoms_of, byte_seqs, list_items, list_nodes};
use crate::solutions::{
    delegation_solution_of, key_value_views, KeyValueListItem, KeyValueView, launcher_solution_of,
    LauncherSolution, parse_delegation_solution, parse_state_inner_solution,
    state_inner_solution_of,
};
use clvmr::{Allocator, NodePtr};
use vstd::prelude::*;

verus! {

/// The state of a store after a spend: its coin, the id of its launcher, the
/// proof for its next spend, its metadata, its owner and, where a delegation
/// layer is active, the puzzles that may spend it on the owner's behalf.
#[derive(Debug, Clone, PartialEq, Eq)]
#[must_use]
pub struct DataStoreInfo {
    pub coin: Coin,
    pub launcher_id: Bytes32,
    pub proof: Proof,
    pub metadata: DataStoreMetadata,
    pub owner_puzzle_hash: Bytes32,
    pub delegated_puzzles: Option<Vec<DelegatedPuzzle>>,
}

/// The mathematical value of a [`DataStoreInfo`].
pub struct DataStoreInfoView {
    pub coin: CoinView,
    pub launcher_id: Seq<u8>,
    pub proof: ProofView,
    pub metadata: MetadataView,
    pub owner_puzzle_hash: Seq<u8>,
    pub delegated_puzzles: Option<Seq<DelegatedPuzzleView>>,
}

/// The values of a list of delegated puzzles, where there is a list.
pub open spec fn delegated_views(puzzles: Option<Vec<DelegatedPuzzle>>) -> Option<
    Seq<DelegatedPuzzleView>,
> {
    match puzzles {
        Some(v) => Some(v@.map_values(|p: DelegatedPuzzle| p@)),
        None => None,
    }
}

impl View for DataStoreInfo {
    type V = DataStoreInfoView;

    open spec fn view(&self) -> DataStoreInfoView {
        DataStoreInfoView {
            coin: self.coin@,
            launcher_id: self.launcher_id@,
            proof: self.proof@,
            metadata: self.metadata@,
            owner_puzzle_hash: self.owner_puzzle_hash@,
            delegated_puzzles: delegated_views(self.delegated_puzzles),
        }
    }
}

/// Each delegated puzzle of the list, where there is one, has the hash that its
/// info gives, and each cached program is a valid handle of `a` to a program
/// with that hash.
pub open spec fn delegated_wf(puzzles: Option<Vec<DelegatedPuzzle>>, a: Allocator) -> bool {
    puzzles matches Some(v) ==> forall|i: int| 0 <= i < v@.len() ==> (#[trigger] v@[i]).wf(a)
}

/// Each delegated puzzle of the list, where there is one, carries the cached
/// program that hints give in `a`: an oracle the handle of its program, an
/// admin and a writer none.
pub open spec fn delegated_as_hinted(puzzles: Option<Vec<DelegatedPuzzle>>, a: Allocator) -> bool {
    puzzles matches Some(v) ==> forall|i: int| 0 <= i < v@.len() ==> (#[trigger] v@[i]).as_hinted(a)
}

/// The delegated puzzle that an info describes, with the hash that goes with it.
pub open spec fn puzzle_view_of(info: InfoView) -> DelegatedPuzzleView {
    DelegatedPuzzleView { puzzle_hash: info_hash(info), puzzle_info: info }
}

/// The delegated puzzles that the hints name from place `at` on, one after the
/// other until fewer than two hints are left; a last hint that stands alone is
/// passed over. `None` where one of them is named wrongly.
pub open spec fn hinted_puzzles(hints: Seq<Seq<u8>>, at: int) -> Option<Seq<InfoView>>
    decreases hints.len() - at,
{
    if at < 0 || hints.len() - at < 2 {
        Some(Seq::empty())
    } else {
        match hinted_info(hints, at) {
            Some((info, next)) => match hinted_puzzles(hints, next) {
                Some(rest) => Some(seq![info] + rest),
                None => None,
            },
            None => None,
        }
    }
}

/// The owner and the delegated puzzles that hints name.
pub struct HintedState {
    pub owner_puzzle_hash: Seq<u8>,
    pub delegated_puzzles: Option<Seq<InfoView>>,
}

/// What hints say of a store: the first is the owner's puzzle hash, of 32
/// bytes; the others name the delegated puzzles. With no hint after the first,
/// no delegation layer is active.
pub open spec fn hinted_state(hints: Seq<Seq<u8>>) -> Option<HintedState> {
    if hints.len() < 1 || hints[0].len() != 32 {
        None
    } else if hints.len() == 1 {
        Some(HintedState { owner_puzzle_hash: hints[0], delegated_puzzles: None })
    } else {
        match hinted_puzzles(hints, 1) {
            Some(infos) => Some(
                HintedState { owner_puzzle_hash: hints[0], delegated_puzzles: Some(infos) },
            ),
            None => None,
        }
    }
}

/// The state of a store from the values given and from what the hints say.
pub open spec fn state_from_hints(
    coin: CoinView,
    launcher_id: Seq<u8>,
    proof: ProofView,
    metadata: MetadataView,
    hints: Seq<Seq<u8>>,
) -> Result<DataStoreInfoView, ParseError> {
    match hinted_state(hints) {
        Some(state) => Ok(
            DataStoreInfoView {
                coin,
                launcher_id,
                proof,
                metadata,
                owner_puzzle_hash: state.owner_puzzle_hash,
                delegated_puzzles: match state.delegated_puzzles {
                    Some(infos) => Some(infos.map_values(|info: InfoView| puzzle_view_of(info))),
                    None => None,
                },
            },
        ),
        None => Err(ParseError::MissingHint),
    }
}

/// Whether a state has an oracle among its delegated puzzles.
pub open spec fn names_oracle(state: DataStoreInfoView) -> bool {
    state.delegated_puzzles matches Some(puzzles) && exists|i: int|
        0 <= i < puzzles.len() && (#[trigger] puzzles[i]).puzzle_info is Oracle
}

/// A singleton's spend taken apart: the id of its launcher, the metadata of the
/// state layer, and the handles of the puzzle inside the state layer and of its
/// solution.
#[derive(Debug, Clone, PartialEq, Eq)]
pub struct SingletonSpend {
    pub launcher_id: Bytes32,
    pub metadata: DataStoreMetadata,
    pub inner_puzzle: NodePtr,
    pub inner_solution: NodePtr,
}

/// A singleton's spend taken apart, as values and trees.
pub struct SingletonSpendView {
    pub launcher_id: Seq<u8>,
    pub metadata: MetadataView,
    pub inner_puzzle: Tree,
    pub inner_solution: Tree,
}

/// Takes a singleton's spend apart. The puzzle must be the singleton top layer
/// around the state layer, else the layer is not standard; the solution must be
/// a singleton's solution around a state layer's solution.
pub open spec fn singleton_spend_of(puzzle: Tree, solution: Tree) -> Result<
    SingletonSpendView,
    ParseError,
> {
    match singleton_layer_of(puzzle) {
        Some(singleton) => match state_layer_of(singleton.inner_puzzle) {
            Some(state) => match state_inner_solution_of(solution) {
                Some(inner_solution) => Ok(
                    SingletonSpendView {
                        launcher_id: singleton.launcher_id,
                        metadata: state.metadata,
                        inner_puzzle: state.inner_puzzle,
                        inner_solution,
                    },
                ),
                None => Err(ParseError::DecodeError),
            },
            None => Err(ParseError::NonStandardLayer),
        },
        None => Err(ParseError::NonStandardLayer),
    }
}

impl SingletonSpend {
    /// The handles of the spend are valid in `a`.
    pub open spec fn wf(&self, a: Allocator) -> bool {
        has(a, self.inner_puzzle) && has(a, self.inner_solution)
    }

    /// The spend with the trees that its handles stand for in `a`.
    pub open spec fn view_in(&self, a: Allocator) -> SingletonSpendView {
        SingletonSpendView {
            launcher_id: self.launcher_id@,
            metadata: self.metadata@,
            inner_puzzle: tree(a, self.inner_puzzle),
            inner_solution: tree(a, self.inner_solution),
        }
    }

    /// Takes the spend of a singleton apart, given its puzzle and its solution.
    pub fn parse(a: &Allocator, puzzle: NodePtr, solution: NodePtr) -> (r: Result<Self, ParseError>)
        requires
            has(*a, puzzle),
            has(*a, solution),
        ensures
            match singleton_spend_of(tree(*a, puzzle), tree(*a, solution)) {
                Ok(v) => r matches Ok(spend) && spend.wf(*a) && spend.view_in(*a) == v,
                Err(e) => r is Err && r->Err_0 == e,
            },
    {
        let (launcher_id, singleton_inner) = match parse_singleton_layer(a, puzzle) {
            Some(layer) => layer,
            None => return Err(ParseError::NonStandardLayer),
        };
        let (metadata, inner_puzzle) = match parse_state_layer(a, singleton_inner) {
            Some(layer) => layer,
            None => return Err(ParseError::NonStandardLayer),
        };
        let inner_solution = match parse_state_inner_solution(a, solution) {
            Some(n) => n,
            None => return Err(ParseError::DecodeError),
        };
        Ok(SingletonSpend { launcher_id, metadata, inner_puzzle, inner_solution })
    }
}

/// The first entry of a key-value list under the given key.
pub open spec fn first_with_key(list: Seq<KeyValueView>, key: Seq<u8>) -> Option<KeyValueView>
    decreases list.len(),
{
    if list.len() == 0 {
        None
    } else if list[0].key == key {
        Some(list[0])
    } else {
        first_with_key(list.drop_first(), key)
    }
}

/// The state of a store that its launcher's spend announces. The launcher's
/// solution names the store's first coin and, in its key-value list, the
/// metadata under the key `m` and the hints under the key `h`. The new coin's
/// parent is the launcher, and its proof is an eve proof with the launcher's id
/// and amount.
pub open spec fn launch_state(launcher: CoinView, solution: Tree) -> Result<
    DataStoreInfoView,
    ParseError,
> {
    match launcher_solution_of(solution) {
        Some(sol) => match (
            first_with_key(sol.key_value_list, HintKeys::MetadataReveal.bytes()),
            first_with_key(sol.key_value_list, HintKeys::DelegationLayerInfo.bytes()),
        ) {
            (Some(metadata_entry), Some(hint_entry)) => if metadata_entry.value.len() == 0
                || metadata_of(metadata_entry.value[0]) is None {
                Err(ParseError::MissingHint)
            } else {
                match atoms_of(hint_entry.value) {
                    Some(hints) => state_from_hints(
                        CoinView {
                            parent_coin_info: coin_id_spec(launcher),
                            puzzle_hash: sol.singleton_puzzle_hash,
                            amount: sol.amount,
                        },
                        coin_id_spec(launcher),
                        ProofView::Eve {
                            parent_coin_info: coin_id_spec(launcher),
                            amount: launcher.amount,
                        },
                        metadata_of(metadata_entry.value[0]).unwrap(),
                        hints,
                    ),
                    None => Err(ParseError::DecodeError),
                }
            },
            _ => Err(ParseError::MissingHint),
        },
        None => Err(ParseError::NonStandardLayer),
    }
}

/// The coin that continues the singleton: its parent is the coin spent, its
/// amount that of the coin created, and its puzzle hash that of the singleton
/// around the state layer, with the new metadata, around the puzzle that the
/// creation names.
pub open spec fn child_coin(
    spent: CoinView,
    launcher_id: Seq<u8>,
    metadata: MetadataView,
    created: CreateCoinView,
) -> CoinView {
    CoinView {
        parent_coin_info: coin_id_spec(spent),
        puzzle_hash: singleton_puzzle_hash(
            launcher_id,
            state_layer_hash(tree_hash_of(metadata_tree(metadata)), created.puzzle_hash),
        ),
        amount: created.amount,
    }
}

/// The state `base` with another owner and other delegated puzzles.
pub open spec fn with_owner(
    base: DataStoreInfoView,
    owner_puzzle_hash: Seq<u8>,
    delegated_puzzles: Option<Seq<DelegatedPuzzleView>>,
) -> DataStoreInfoView {
    DataStoreInfoView {
        coin: base.coin,
        launcher_id: base.launcher_id,
        proof: base.proof,
        metadata: base.metadata,
        owner_puzzle_hash,
        delegated_puzzles,
    }
}

/// The state after the puzzle that a delegation layer revealed has run and
/// returned `output`. Where it created a coin with an odd amount, the delegation
/// layer is left: the owner is the puzzle hash of that coin, and no puzzle is
/// delegated. Else the layer stays: the owner is the one that the layer is
/// curried with, and the delegated puzzles are those known before.
pub open spec fn state_after_delegation(
    base: DataStoreInfoView,
    delegation_layer: Tree,
    output: Tree,
    prev_delegated_puzzles: Option<Seq<DelegatedPuzzleView>>,
) -> Result<DataStoreInfoView, ParseError> {
    match list_items(output) {
        Some(conditions) => match first_odd_create_coin(conditions) {
            Some(created) => Ok(with_owner(base, created.puzzle_hash, None)),
            None => match delegation_owner_of(delegation_layer) {
                Some(owner) => Ok(with_owner(base, owner, prev_delegated_puzzles)),
                None => Err(ParseError::NonStandardLayer),
            },
        },
        None => Err(ParseError::DecodeError),
    }
}

/// Whether memos decide the owner and the delegated puzzles after `output`: the
/// first coin creation with an odd amount carries at least one memo.
pub open spec fn memos_decide(output: Tree) -> bool {
    &&& list_items(output) matches Some(conditions)
    &&& first_odd_create_coin(conditions) matches Some(created)
    &&& created.memos.len() >= 1
}

/// Whether hints decide the owner and the delegated puzzles after a spend: the
/// spend is a launcher's, or it is a singleton's whose inner puzzle returns
/// memos that decide.
pub open spec fn hints_decide(spent: CoinView, puzzle_reveal: Seq<u8>, solution: Seq<u8>) -> bool {
    spent.puzzle_hash == SINGLETON_LAUNCHER_PUZZLE_HASH@ || (singleton_spend_of(
        clvm_decode(puzzle_reveal),
        clvm_decode(solution),
    ) matches Ok(spend) && memos_decide(clvm_output(spend.inner_puzzle, spend.inner_solution)))
}

/// The delegated puzzles of a state are what its path gives: where hints
/// decide, each carries the cached program that hints give in `a`; else they
/// are none, or exactly those known before.
pub open spec fn delegated_as_derived(
    puzzles: Option<Vec<DelegatedPuzzle>>,
    prev_delegated_puzzles: Option<Vec<DelegatedPuzzle>>,
    hinted: bool,
    a: Allocator,
) -> bool {
    if hinted {
        delegated_as_hinted(puzzles, a)
    } else {
        puzzles is None || puzzles == prev_delegated_puzzles
    }
}

/// Whether the state after `output` depends on running the puzzle that a
/// delegation layer revealed: the first coin creation with an odd amount has no
/// memos, the puzzle inside the state layer is a delegation layer, and its
/// solution reveals a puzzle.
pub open spec fn runs_delegated_puzzle(spend: SingletonSpendView, output: Tree) -> bool {
    &&& list_items(output) matches Some(conditions)
    &&& first_odd_create_coin(conditions) matches Some(created)
    &&& created.memos.len() == 0
    &&& is_delegation_layer(spend.inner_puzzle)
    &&& delegation_solution_of(spend.inner_solution) is Some
}

/// The state after the puzzle inside the state layer has run and returned
/// `output`, a list of conditions. The metadata is that of the last metadata
/// update among them, else that of the state layer. The first coin creation
/// with an odd amount continues the singleton; its lineage proof names the
/// parent of the coin spent, the hash of the puzzle inside the spent state
/// layer, and the amount of the coin spent. With memos, the memos are the
/// hints that say who owns the store and which puzzles are delegated. Without,
/// the owner is the hash of the puzzle inside the state layer, unless that
/// puzzle is a delegation layer, which then decides.
pub open spec fn state_after_output(
    spent: CoinView,
    spend: SingletonSpendView,
    output: Tree,
    prev_delegated_puzzles: Option<Seq<DelegatedPuzzleView>>,
) -> Result<DataStoreInfoView, ParseError> {
    match list_items(output) {
        Some(conditions) => match first_odd_create_coin(conditions) {
            Some(created) => {
                let metadata = metadata_after(conditions, spend.metadata);
                let coin = child_coin(spent, spend.launcher_id, metadata, created);
                let proof = ProofView::Lineage {
                    parent_parent_coin_id: spent.parent_coin_info,
                    parent_inner_puzzle_hash: tree_hash_of(spend.inner_puzzle),
                    parent_amount: spent.amount,
                };
                if created.memos.len() >= 1 {
                    state_from_hints(coin, spend.launcher_id, proof, metadata, created.memos)
                } else {
                    let base = DataStoreInfoView {
                        coin,
                        launcher_id: spend.launcher_id,
                        proof,
                        metadata,
                        owner_puzzle_hash: tree_hash_of(spend.inner_puzzle),
                        delegated_puzzles: None,
                    };
                    if !is_delegation_layer(spend.inner_puzzle) {
                        Ok(base)
                    } else {
                        match delegation_solution_of(spend.inner_solution) {
                            Some((puzzle, solution)) => state_after_delegation(
                                base,
                                spend.inner_puzzle,
                                clvm_output(puzzle, solution),
                                prev_delegated_puzzles,
                            ),
                            None => Err(ParseError::DecodeError),
                        }
                    }
                }
            },
            None => Err(ParseError::MissingChild),
        },
        None => Err(ParseError::DecodeError),
    }
}

/// The state of a store after a spend, where the programs decode and run. The
/// spend of a coin with the launcher's puzzle hash announces the store's first
/// state; any other spend must be that of the store's singleton.
pub open spec fn spend_state(
    spent: CoinView,
    puzzle_reveal: Seq<u8>,
    solution: Seq<u8>,
    prev_delegated_puzzles: Option<Seq<DelegatedPuzzleView>>,
) -> Result<DataStoreInfoView, ParseError> {
    if spent.puzzle_hash == SINGLETON_LAUNCHER_PUZZLE_HASH@ {
        launch_state(spent, clvm_decode(solution))
    } else {
        match singleton_spend_of(clvm_decode(puzzle_reveal), clvm_decode(solution)) {
            Ok(spend) => state_after_output(
                spent,
                spend,
                clvm_output(spend.inner_puzzle, spend.inner_solution),
                prev_delegated_puzzles,
            ),
            Err(e) => Err(e),
        }
    }
}

/// A launcher whose key-value list carries metadata under `m` and, under `h`,
/// the owner's puzzle hash alone, announces a store with that metadata and that
/// owner and without a delegation layer.
pub proof fn lemma_launch_with_owner_hint_only(
    launcher: CoinView,
    solution: Tree,
    metadata: MetadataView,
    owner_puzzle_hash: Seq<u8>,
)
    requires
        owner_puzzle_hash.len() == 32,
        launcher_solution_of(solution) matches Some(sol) && (first_with_key(
            sol.key_value_list,
            HintKeys::MetadataReveal.bytes(),
        ) matches Some(m) && m.value.len() >= 1 && metadata_of(m.value[0]) == Some(metadata))
            && (first_with_key(sol.key_value_list, HintKeys::DelegationLayerInfo.bytes())
            matches Some(h) && h.value == seq![Tree::Atom(owner_puzzle_hash)]),
    ensures
        launch_state(launcher, solution) matches Ok(state) && state.metadata == metadata
            && state.owner_puzzle_hash == owner_puzzle_hash && state.delegated_puzzles is None,
{
    let sol = launcher_solution_of(solution).unwrap();
    let h = first_with_key(sol.key_value_list, HintKeys::DelegationLayerInfo.bytes()).unwrap();
    let hints = atoms_of(h.value).unwrap();
    assert(hints =~= seq![owner_puzzle_hash]);
}

/// Where the first coin creation with an odd amount carries the memos
/// `[owner, 1, admin]`, the store is owned by `owner` and has a delegation
/// layer with one puzzle, the admin whose inner puzzle hash is `admin`.
pub proof fn lemma_memos_name_owner_and_admin(
    spent: CoinView,
    spend: SingletonSpendView,
    output: Tree,
    prev_delegated_puzzles: Option<Seq<DelegatedPuzzleView>>,
    owner: Seq<u8>,
    admin: Seq<u8>,
)
    requires
        owner.len() == 32,
        admin.len() == 32,
        list_items(output) matches Some(conditions) && first_odd_create_coin(conditions)
            matches Some(created) && created.memos == seq![owner, seq![1u8], admin],
    ensures
        state_after_output(spent, spend, output, prev_delegated_puzzles) matches Ok(state)
            && state.owner_puzzle_hash == owner && state.delegated_puzzles == Some(
            seq![puzzle_view_of(InfoView::Admin(admin))],
        ),
{
    let hints = seq![owner, seq![1u8], admin];
    reveal_with_fuel(hinted_puzzles, 3);
    assert(hinted_info(hints, 1) == Some((InfoView::Admin(admin), 3int)));
    assert(hinted_puzzles(hints, 3) == Some(Seq::<InfoView>::empty()));
    let infos = seq![InfoView::Admin(admin)] + Seq::<InfoView>::empty();
    assert(hinted_puzzles(hints, 1) == Some(infos));
    assert(infos.map_values(|info: InfoView| puzzle_view_of(info)) =~= seq![
        puzzle_view_of(InfoView::Admin(admin)),
    ]);
}

/// Whether two byte strings are the same.
pub fn same_bytes(a: &[u8], b: &[u8]) -> (r: bool)
    ensures
        r <==> a@ == b@,
{
    if a.len() != b.len() {
        return false;
    }
    let mut i: usize = 0;
    while i < a.len()
        invariant
            i <= a@.len(),
            a@.len() == b@.len(),
            forall|j: int| 0 <= j < i ==> a@[j] == b@[j],
        decreases a@.len() - i,
    {
        if a[i] != b[i] {
            return false;
        }
        i = i + 1;
    }
    assert(a@ =~= b@);
    true
}

/// The place of the first entry of a key-value list under the given key.
pub fn find_key(a: &Allocator, list: &Vec<KeyValueListItem>, key: &Vec<u8>) -> (r: Option<usize>)
    ensures
        match first_with_key(key_value_views(*a, list@), key@) {
            Some(entry) => r matches Some(i) && i < list@.len() && list@[i as int].view_in(*a)
                == entry,
            None => r is None,
        },
{
    let ghost entries = key_value_views(*a, list@);
    let mut i: usize = 0;
    assert(entries.skip(0) =~= entries);
    while i < list.len()
        invariant
            i <= list@.len(),
            entries == key_value_views(*a, list@),
            first_with_key(entries, key@) == first_with_key(entries.skip(i as int), key@),
        decreases list@.len() - i,
    {
        let ghost rest = entries.skip(i as int);
        assert(rest[0] == list@[i as int].view_in(*a));
        assert(rest.drop_first() =~= entries.skip(i + 1));
        if same_bytes(list[i].key.as_slice(), key.as_slice()) {
            return Some(i);
        }
        i = i + 1;
    }
    assert(entries.skip(i as int).len() == 0);
    None
}

impl DataStoreInfo {
    /// Each delegated puzzle has the hash that its info gives, and each cached
    /// program is a valid handle of `a` to a program with that hash.
    pub open spec fn wf(&self, a: Allocator) -> bool {
        delegated_wf(self.delegated_puzzles, a)
    }

    /// The state of a store from the values given and from hints: the first hint
    /// is the owner's puzzle hash, the others name the delegated puzzles. Only
    /// where the hints name an oracle can the arena make this fail although the
    /// hints say a state.
    pub fn build_datastore_info(
        allocator: &mut Allocator,
        coin: Coin,
        launcher_id: Bytes32,
        proof: Proof,
        metadata: DataStoreMetadata,
        hints: &Vec<Vec<u8>>,
    ) -> (r: Result<DataStoreInfo, ParseError>)
        ensures
            extends(*old(allocator), *final(allocator)),
            match state_from_hints(coin@, launcher_id@, proof@, metadata@, byte_seqs(hints@)) {
                Ok(state) => match r {
                    Ok(info) => info@ == state && info.wf(*final(allocator))
                        && delegated_as_hinted(info.delegated_puzzles, *final(allocator)),
                    Err(e) => e == ParseError::MissingHint && names_oracle(state),
                },
                Err(e) => r is Err && r->Err_0 == e,
            },
    {
        let ghost h = byte_seqs(hints@);
        if hints.len() < 1 {
            return Err(ParseError::MissingHint);
        }
        assert(h[0] == hints@[0]@);
        let owner_puzzle_hash = match Bytes32::from_slice(hints[0].as_slice()) {
            Some(hash) => hash,
            None => return Err(ParseError::MissingHint),
        };
        if hints.len() == 1 {
            return Ok(
                DataStoreInfo {
                    coin,
                    launcher_id,
                    proof,
                    metadata,
                    owner_puzzle_hash,
                    delegated_puzzles: None,
                },
            );
        }
        let mut puzzles: Vec<DelegatedPuzzle> = Vec::new();
        let mut at: usize = 1;
        let ghost mut done: Seq<InfoView> = Seq::empty();
        while hints.len() - at >= 2
            invariant
                1 <= at <= hints@.len(),
                h == byte_seqs(hints@),
                extends(*old(allocator), *allocator),
                puzzles@.len() == done.len(),
                forall|i: int|
                    0 <= i < puzzles@.len() ==> (#[trigger] puzzles@[i]).wf(*allocator)
                        && puzzles@[i]@ == puzzle_view_of(done[i]) && puzzles@[i].as_hinted(
                        *allocator,
                    ),
                hinted_puzzles(h, 1) == match hinted_puzzles(h, at as int) {
                    Some(rest) => Some(done + rest),
                    None => None,
                },
            decreases hints@.len() - at,
        {
            match DelegatedPuzzle::from_hint_at(allocator, hints, at) {
                Ok((puzzle, next)) => {
                    proof {
                        let info = hinted_info(h, at as int).unwrap().0;
                        match hinted_puzzles(h, next as int) {
                            Some(rest) => {
                                assert(done + (seq![info] + rest) =~= done.push(info) + rest);
                            },
                            None => {},
                        }
                        done = done.push(info);
                    }
                    puzzles.push(puzzle);
                    at = next;
                },
                Err(e) => {
                    proof {
                        match hinted_info(h, at as int) {
                            Some((info, next)) => {
                                match hinted_puzzles(h, next) {
                                    Some(rest) => {
                                        let infos = done + (seq![info] + rest);
                                        let views = infos.map_values(
                                            |info: InfoView| puzzle_view_of(info),
                                        );
                                        assert(views[done.len() as int].puzzle_info is Oracle);
                                    },
                                    None => {},
                                }
                            },
                            None => {},
                        }
                    }
                    return Err(e);
                },
            }
        }
        proof {
            assert(done + Seq::<InfoView>::empty() =~= done);
            assert(puzzles@.map_values(|p: DelegatedPuzzle| p@) =~= done.map_values(
                |info: InfoView| puzzle_view_of(info),
            ));
        }
        Ok(
            DataStoreInfo {
                coin,
                launcher_id,
                proof,
                metadata,
                owner_puzzle_hash,
                delegated_puzzles: Some(puzzles),
            },
        )
    }

    /// The first state of a store, from the spend of its launcher: `launcher`
    /// is the coin spent and `solution` the handle of its solution. Only where
    /// the hints name an oracle can the arena make this fail although the spend
    /// announces a state.
    pub fn from_launcher_spend(allocator: &mut Allocator, launcher: &Coin, solution: NodePtr) -> (r:
        Result<DataStoreInfo, ParseError>)
        requires
            has(*old(allocator), solution),
        ensures
            extends(*old(allocator), *final(allocator)),
            match launch_state(launcher@, tree(*old(allocator), solution)) {
                Ok(state) => match r {
                    Ok(info) => info@ == state && info.wf(*final(allocator))
                        && delegated_as_hinted(info.delegated_puzzles, *final(allocator)),
                    Err(e) => e == ParseError::MissingHint && names_oracle(state),
                },
                Err(e) => r is Err && r->Err_0 == e,
            },
    {
        let sol = match LauncherSolution::from_clvm(allocator, solution) {
            Some(sol) => sol,
            None => return Err(ParseError::NonStandardLayer),
        };
        let metadata_at = match find_key(
            allocator,
            &sol.key_value_list,
            &HintKeys::MetadataReveal.value(),
        ) {
            Some(i) => i,
            None => return Err(ParseError::MissingHint),
        };
        let hints_at = match find_key(
            allocator,
            &sol.key_value_list,
            &HintKeys::DelegationLayerInfo.value(),
        ) {
            Some(i) => i,
            None => return Err(ParseError::MissingHint),
        };
        let metadata_entry = &sol.key_value_list[metadata_at];
        let hint_entry = &sol.key_value_list[hints_at];
        assert(metadata_entry.wf(*allocator) && hint_entry.wf(*allocator));
        if metadata_entry.value.len() == 0 {
            return Err(ParseError::MissingHint);
        }
        let metadata = match DataStoreMetadata::from_clvm(allocator, metadata_entry.value[0]) {
            Some(m) => m,
            None => return Err(ParseError::MissingHint),
        };
        let hints = match atoms_nodes(allocator, &hint_entry.value) {
            Some(hints) => hints,
            None => return Err(ParseError::DecodeError),
        };
        let launcher_id = launcher.coin_id();
        let new_coin = Coin {
            parent_coin_info: launcher_id,
            puzzle_hash: sol.singleton_puzzle_hash,
            amount: sol.amount,
        };
        let proof = Proof::Eve(EveProof { parent_coin_info: launcher_id, amount: launcher.amount });
        Self::build_datastore_info(allocator, new_coin, launcher_id, proof, metadata, &hints)
    }

    /// The state after the puzzle that a delegation layer revealed has run:
    /// `base` is the state with the owner that holds without a delegation layer,
    /// `delegation_layer` the handle of the layer and `output` that of what the
    /// revealed puzzle returned.
    pub fn from_delegation_output(
        allocator: &Allocator,
        base: DataStoreInfo,
        delegation_layer: NodePtr,
        output: NodePtr,
        prev_delegated_puzzles: Option<Vec<DelegatedPuzzle>>,
    ) -> (r: Result<DataStoreInfo, ParseError>)
        requires
            has(*allocator, delegation_layer),
            has(*allocator, output),
        ensures
            match state_after_delegation(
                base@,
                tree(*allocator, delegation_layer),
                tree(*allocator, output),
                delegated_views(prev_delegated_puzzles),
            ) {
                Ok(state) => r matches Ok(info) && info@ == state,
                Err(e) => r is Err && r->Err_0 == e,
            },
            r matches Ok(info) ==> info.delegated_puzzles is None || info.delegated_puzzles
                == prev_delegated_puzzles,
    {
        let conditions = match list_nodes(allocator, output) {
            Some(conditions) => conditions,
            None => return Err(ParseError::DecodeError),
        };
        proof {
            let trees = list_items(tree(*allocator, output)).unwrap();
            assert(conditions@.map_values(|n: NodePtr| tree(*allocator, n)) =~= trees);
        }
        match find_odd_create_coin(allocator, &conditions) {
            Some(created) => Ok(
                DataStoreInfo {
                    coin: base.coin,
                    launcher_id: base.launcher_id,
                    proof: base.proof,
                    metadata: base.metadata,
                    owner_puzzle_hash: created.puzzle_hash,
                    delegated_puzzles: None,
                },
            ),
            None => match parse_delegation_owner(allocator, delegation_layer) {
                Some(owner) => Ok(
                    DataStoreInfo {
                        coin: base.coin,
                        launcher_id: base.launcher_id,
                        proof: base.proof,
                        metadata: base.metadata,
                        owner_puzzle_hash: owner,
                        delegated_puzzles: prev_delegated_puzzles,
                    },
                ),
                None => Err(ParseError::NonStandardLayer),
            },
        }
    }

    /// The state after the puzzle inside the state layer has run: `spent` is the
    /// coin spent, `spend` its spend taken apart and `output` the handle of what
    /// the puzzle returned. The result is the state that the output gives. It
    /// can fail otherwise only where the puzzle that a delegation layer revealed
    /// has to run and does not, or where the hints name an oracle and the arena
    /// refuses to build its program.
    pub fn from_inner_output(
        allocator: &mut Allocator,
        spent: &Coin,
        spend: SingletonSpend,
        output: NodePtr,
        prev_delegated_puzzles: Option<Vec<DelegatedPuzzle>>,
    ) -> (r: Result<DataStoreInfo, ParseError>)
        requires
            spend.wf(*old(allocator)),
            has(*old(allocator), output),
        ensures
            extends(*old(allocator), *final(allocator)),
            r matches Ok(info) ==> (delegated_wf(prev_delegated_puzzles, *old(allocator))
                ==> info.wf(*final(allocator))),
            r matches Ok(info) ==> delegated_as_derived(
                info.delegated_puzzles,
                prev_delegated_puzzles,
                memos_decide(tree(*old(allocator), output)),
                *final(allocator),
            ),
            match r {
                Ok(info) => state_after_output(
                    spent@,
                    spend.view_in(*old(allocator)),
                    tree(*old(allocator), output),
                    delegated_views(prev_delegated_puzzles),
                ) == Ok::<DataStoreInfoView, ParseError>(info@),
                Err(e) => {
                    let expected = state_after_output(
                        spent@,
                        spend.view_in(*old(allocator)),
                        tree(*old(allocator), output),
                        delegated_views(prev_delegated_puzzles),
                    );
                    ||| expected == Err::<DataStoreInfoView, ParseError>(e)
                    ||| e == ParseError::MismatchedOutput && runs_delegated_puzzle(
                        spend.view_in(*old(allocator)),
                        tree(*old(allocator), output),
                    )
                    ||| e == ParseError::MissingHint && expected is Ok && names_oracle(
                        expected->Ok_0,
                    )
                },
            },
    {
        let conditions = match list_nodes(allocator, output) {
            Some(conditions) => conditions,
            None => return Err(ParseError::DecodeError),
        };
        proof {
            let trees = list_items(tree(*allocator, output)).unwrap();
            assert(conditions@.map_values(|n: NodePtr| tree(*allocator, n)) =~= trees);
        }
        let created = match find_odd_create_coin(allocator, &conditions) {
            Some(created) => created,
            None => return Err(ParseError::MissingChild),
        };
        let metadata = apply_metadata_updates(allocator, &conditions, spend.metadata);
        let state_hash = state_layer_puzzle_hash(&metadata.tree_hash(), &created.puzzle_hash);
        let coin = Coin {
            parent_coin_info: spent.coin_id(),
            puzzle_hash: singleton_full_puzzle_hash(&spend.launcher_id, &state_hash),
            amount: created.amount,
        };
        let inner_puzzle_hash = tree_hash(allocator, spend.inner_puzzle);
        let proof = Proof::Lineage(
            LineageProof {
                parent_parent_coin_id: spent.parent_coin_info,
                parent_inner_puzzle_hash: inner_puzzle_hash,
                parent_amount: spent.amount,
            },
        );
        if created.memos.len() >= 1 {
            return Self::build_datastore_info(
                allocator,
                coin,
                spend.launcher_id,
                proof,
                metadata,
                &created.memos,
            );
        }
        let base = DataStoreInfo {
            coin,
            launcher_id: spend.launcher_id,
            proof,
            metadata,
            owner_puzzle_hash: inner_puzzle_hash,
            delegated_puzzles: None,
        };
        if !has_delegation_layer(allocator, spend.inner_puzzle) {
            return Ok(base);
        }
        let (puzzle, solution) = match parse_delegation_solution(allocator, spend.inner_solution) {
            Some(revealed) => revealed,
            None => return Err(ParseError::DecodeError),
        };
        let delegated_output = match run(allocator, puzzle, solution) {
            Some(n) => n,
            None => return Err(ParseError::MismatchedOutput),
        };
        Self::from_delegation_output(
            allocator,
            base,
            spend.inner_puzzle,
            delegated_output,
            prev_delegated_puzzles,
        )
    }

    /// The state of a store after the spend of its singleton: `spent` is the
    /// coin spent, `puzzle` and `solution` the handles of its puzzle and of its
    /// solution. The spend is taken apart, the puzzle inside the state layer is
    /// run on its solution, and the output decides.
    pub fn from_singleton_spend(
        allocator: &mut Allocator,
        spent: &Coin,
        puzzle: NodePtr,
        solution: NodePtr,
        prev_delegated_puzzles: Option<Vec<DelegatedPuzzle>>,
    ) -> (r: Result<DataStoreInfo, ParseError>)
        requires
            has(*old(allocator), puzzle),
            has(*old(allocator), solution),
        ensures
            extends(*old(allocator), *final(allocator)),
            r matches Ok(info) ==> (delegated_wf(prev_delegated_puzzles, *old(allocator))
                ==> info.wf(*final(allocator))),
            r matches Ok(info) ==> (singleton_spend_of(
                tree(*old(allocator), puzzle),
                tree(*old(allocator), solution),
            ) matches Ok(spend) && delegated_as_derived(
                info.delegated_puzzles,
                prev_delegated_puzzles,
                memos_decide(clvm_output(spend.inner_puzzle, spend.inner_solution)),
                *final(allocator),
            )),
            match singleton_spend_of(tree(*old(allocator), puzzle), tree(*old(allocator), solution)) {
                Ok(spend) => {
                    let expected = state_after_output(
                        spent@,
                        spend,
                        clvm_output(spend.inner_puzzle, spend.inner_solution),
                        delegated_views(prev_delegated_puzzles),
                    );
                    match r {
                        Ok(info) => expected == Ok::<DataStoreInfoView, ParseError>(info@),
                        Err(e) => {
                            ||| expected == Err::<DataStoreInfoView, ParseError>(e)
                            ||| e == ParseError::MismatchedOutput
                            ||| e == ParseError::MissingHint && expected is Ok && names_oracle(
                                expected->Ok_0,
                            )
                        },
                    }
                },
                Err(e) => r is Err && r->Err_0 == e,
            },
    {
        let spend = SingletonSpend::parse(allocator, puzzle, solution)?;
        let output = match run(allocator, spend.inner_puzzle, spend.inner_solution) {
            Some(n) => n,
            None => return Err(ParseError::MismatchedOutput),
        };
        Self::from_inner_output(allocator, spent, spend, output, prev_delegated_puzzles)
    }

    /// The state of a store after a spend. The delegated puzzles known before
    /// are used only where a delegation layer stays without saying them again,
    /// and are then handed back as they are; where hints decide, an oracle comes
    /// with its program built in `allocator`, an admin and a writer without one.
    /// Where this returns a state, it is the state that the spend gives. It can
    /// fail otherwise only where a program does not decode or, in a singleton's
    /// spend, does not run, or where the hints name an oracle and the arena
    /// refuses to build its program.
    pub fn from_spend(
        allocator: &mut Allocator,
        cs: &CoinSpend,
        prev_delegated_puzzles: Option<Vec<DelegatedPuzzle>>,
    ) -> (r: Result<DataStoreInfo, ParseError>)
        ensures
            extends(*old(allocator), *final(allocator)),
            r matches Ok(info) ==> (delegated_wf(prev_delegated_puzzles, *old(allocator))
                ==> info.wf(*final(allocator))),
            r matches Ok(info) ==> delegated_as_derived(
                info.delegated_puzzles,
                prev_delegated_puzzles,
                hints_decide(cs.coin@, cs.puzzle_reveal@, cs.solution@),
                *final(allocator),
            ),
            match r {
                Ok(info) => spend_state(
                    cs.coin@,
                    cs.puzzle_reveal@,
                    cs.solution@,
                    delegated_views(prev_delegated_puzzles),
                ) == Ok::<DataStoreInfoView, ParseError>(info@),
                Err(e) => {
                    let expected = spend_state(
                        cs.coin@,
                        cs.puzzle_reveal@,
                        cs.solution@,
                        delegated_views(prev_delegated_puzzles),
                    );
                    ||| expected == Err::<DataStoreInfoView, ParseError>(e)
                    ||| e == ParseError::NonStandardLayer
                    ||| e == ParseError::MismatchedOutput && cs.coin@.puzzle_hash
                        != SINGLETON_LAUNCHER_PUZZLE_HASH@ && singleton_spend_of(
                        clvm_decode(cs.puzzle_reveal@),
                        clvm_decode(cs.solution@),
                    ) is Ok
                    ||| e == ParseError::MissingHint && expected is Ok && names_oracle(
                        expected->Ok_0,
                    )
                },
            },
    {
        let solution = match decode_program(allocator, cs.solution.as_slice()) {
            Some(n) => n,
            None => return Err(ParseError::NonStandardLayer),
        };
        if cs.coin.puzzle_hash.same(&Bytes32::new(SINGLETON_LAUNCHER_PUZZLE_HASH)) {
            return Self::from_launcher_spend(allocator, &cs.coin, solution);
        }
        let puzzle = match decode_program(allocator, cs.puzzle_reveal.as_slice()) {
            Some(n) => n,
            None => return Err(ParseError::NonStandardLayer),
        };
        Self::from_singleton_spend(allocator, &cs.coin, puzzle, solution, prev_delegated_puzzles)
    }
}

} // verus!
