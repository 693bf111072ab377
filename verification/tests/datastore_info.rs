use chia_puzzles::nft::{NftStateLayerArgs, NftStateLayerSolution, NFT_STATE_LAYER_PUZZLE};
use chia_puzzles::singleton::{
    LauncherSolution, SingletonArgs, SingletonSolution, SINGLETON_TOP_LAYER_PUZZLE,
};
use chia_sdk_parser::{Puzzle, SingletonPuzzle};
use chia_puzzles::{EveProof as LedgerEveProof, LineageProof as LedgerLineageProof, Proof as LedgerProof};
use clvm_traits::ToClvm;
use clvm_utils::{tree_hash, CurriedProgram, ToTreeHash, TreeHash};
use clvmr::serde::{node_from_bytes, node_to_bytes};
use clvmr::{Allocator, NodePtr};
use datalayer_driver::bytes32::Bytes32;
use datalayer_driver::coin::{Coin, CoinSpend, EveProof, LineageProof, ParseError, Proof};
use datalayer_driver::construct::curry;
use datalayer_driver::datastore_info::{DataStoreInfo, SingletonSpend};
use datalayer_driver::layers::{parse_singleton_layer, parse_state_layer};
use datalayer_driver::metadata::DataStoreMetadata;
use datalayer_driver::puzzles::{
    DELEGATION_LAYER_PUZZLE, DELEGATION_LAYER_PUZZLE_HASH, DL_METADATA_UPDATER_PUZZLE_HASH,
    NFT_STATE_LAYER_PUZZLE_HASH, SINGLETON_LAUNCHER_PUZZLE_HASH,
};
use datalayer_driver::puzzles_info::{DelegatedPuzzle, DelegatedPuzzleInfo};

const LAUNCHER_ID: [u8; 32] = [0xaa; 32];
const OWNER: [u8; 32] = [0x0b; 32];
const ROOT: [u8; 32] = [0x0c; 32];
const ADMIN_INNER: [u8; 32] = [0x0d; 32];

fn list(a: &mut Allocator, items: &[NodePtr]) -> NodePtr {
    let mut cur = a.nil();
    for item in items.iter().rev() {
        cur = a.new_pair(*item, cur).unwrap();
    }
    cur
}

fn atoms(a: &mut Allocator, items: &[&[u8]]) -> NodePtr {
    let nodes: Vec<NodePtr> = items.iter().map(|b| a.new_atom(b).unwrap()).collect();
    list(a, &nodes)
}

fn quote(a: &mut Allocator, n: NodePtr) -> NodePtr {
    let one = a.one();
    a.new_pair(one, n).unwrap()
}

fn metadata_node(a: &mut Allocator, root: &[u8], label: &str, description: &str) -> NodePtr {
    atoms(a, &[root, label.as_bytes(), description.as_bytes()])
}

fn metadata(root: [u8; 32], label: &str, description: &str) -> DataStoreMetadata {
    DataStoreMetadata {
        root_hash: Bytes32::new(root),
        label: label.to_string(),
        description: description.to_string(),
    }
}

fn create_coin(a: &mut Allocator, puzzle_hash: &[u8], amount: &[u8], memos: Option<&[&[u8]]>) -> NodePtr {
    let mut items = vec![
        a.new_atom(&[51]).unwrap(),
        a.new_atom(puzzle_hash).unwrap(),
        a.new_atom(amount).unwrap(),
    ];
    if let Some(memos) = memos {
        items.push(atoms(a, memos));
    }
    list(a, &items)
}

fn state_layer(a: &mut Allocator, metadata: NodePtr, inner_puzzle: NodePtr) -> NodePtr {
    let program = node_from_bytes(a, &NFT_STATE_LAYER_PUZZLE).unwrap();
    CurriedProgram {
        program,
        args: NftStateLayerArgs {
            mod_hash: NFT_STATE_LAYER_PUZZLE_HASH.into(),
            metadata,
            metadata_updater_puzzle_hash: DL_METADATA_UPDATER_PUZZLE_HASH.into(),
            inner_puzzle,
        },
    }
    .to_clvm(a)
    .unwrap()
}

fn singleton(a: &mut Allocator, inner_puzzle: NodePtr) -> NodePtr {
    let program = node_from_bytes(a, &SINGLETON_TOP_LAYER_PUZZLE).unwrap();
    CurriedProgram { program, args: SingletonArgs::new(LAUNCHER_ID.into(), inner_puzzle) }
        .to_clvm(a)
        .unwrap()
}

fn singleton_solution(a: &mut Allocator, inner_solution: NodePtr) -> NodePtr {
    SingletonSolution {
        lineage_proof: LedgerProof::Lineage(LedgerLineageProof {
            parent_parent_coin_id: [1; 32].into(),
            parent_inner_puzzle_hash: [2; 32].into(),
            parent_amount: 1,
        }),
        amount: 1,
        inner_solution: NftStateLayerSolution { inner_solution },
    }
    .to_clvm(a)
    .unwrap()
}

fn spent_coin() -> Coin {
    Coin::new(Bytes32::new([0x11; 32]), Bytes32::new([0x22; 32]), 1)
}

fn spend_of(a: &Allocator, puzzle: NodePtr, solution: NodePtr) -> CoinSpend {
    CoinSpend {
        coin: spent_coin(),
        puzzle_reveal: node_to_bytes(a, puzzle).unwrap(),
        solution: node_to_bytes(a, solution).unwrap(),
    }
}

fn store_spend(a: &mut Allocator, inner_puzzle: NodePtr, inner_solution: NodePtr) -> CoinSpend {
    let md = metadata_node(a, &ROOT, "L", "D");
    let state = state_layer(a, md, inner_puzzle);
    let puzzle = singleton(a, state);
    let solution = singleton_solution(a, inner_solution);
    spend_of(a, puzzle, solution)
}

fn expected_puzzle_hash(metadata_hash: TreeHash, inner_puzzle_hash: [u8; 32]) -> [u8; 32] {
    let state = CurriedProgram {
        program: chia_puzzles::nft::NFT_STATE_LAYER_PUZZLE_HASH,
        args: NftStateLayerArgs::<TreeHash, TreeHash> {
            mod_hash: NFT_STATE_LAYER_PUZZLE_HASH.into(),
            metadata: metadata_hash,
            metadata_updater_puzzle_hash: DL_METADATA_UPDATER_PUZZLE_HASH.into(),
            inner_puzzle: TreeHash::new(inner_puzzle_hash),
        },
    }
    .tree_hash();
    SingletonArgs::curry_tree_hash(LAUNCHER_ID.into(), state).to_bytes()
}

fn ledger_coin_id(coin: &Coin) -> [u8; 32] {
    chia_protocol::Coin::new(
        coin.parent_coin_info.bytes.into(),
        coin.puzzle_hash.bytes.into(),
        coin.amount,
    )
    .coin_id()
    .to_bytes()
}

fn launcher_spend(a: &mut Allocator, entries: &[NodePtr]) -> CoinSpend {
    let key_value_list = list(a, entries);
    let solution = LauncherSolution {
        singleton_puzzle_hash: [0x33; 32].into(),
        amount: 1,
        key_value_list,
    }
    .to_clvm(a)
    .unwrap();
    let puzzle = a.nil();
    CoinSpend {
        coin: Coin::new(
            Bytes32::new([0x44; 32]),
            Bytes32::new(SINGLETON_LAUNCHER_PUZZLE_HASH),
            1,
        ),
        puzzle_reveal: node_to_bytes(a, puzzle).unwrap(),
        solution: node_to_bytes(a, solution).unwrap(),
    }
}

fn entry(a: &mut Allocator, key: &[u8], values: &[NodePtr]) -> NodePtr {
    let key = a.new_atom(key).unwrap();
    let values = list(a, values);
    a.new_pair(key, values).unwrap()
}

#[test]
fn coin_id_is_the_ledgers() {
    for amount in [0u64, 1, 127, 128, 255, 256, 1 << 31, 1 << 63, u64::MAX] {
        let coin = Coin::new(Bytes32::new([5; 32]), Bytes32::new([6; 32]), amount);
        assert_eq!(coin.coin_id().bytes, ledger_coin_id(&coin));
    }
    let coin = Coin::new(Bytes32::new([0; 32]), Bytes32::new([0; 32]), 0);
    assert_eq!(
        hex::encode(coin.coin_id().bytes),
        "f5a5fd42d16a20302798ef6ed309979b43003d2320d9f0e8ea9831a92759fb4b"
    );
}

#[test]
fn genesis_spend_with_owner_hint_only() {
    let mut a = Allocator::new();
    let md = metadata_node(&mut a, &ROOT, "L", "D");
    let owner = a.new_atom(&OWNER).unwrap();
    let m = entry(&mut a, b"m", &[md]);
    let h = entry(&mut a, b"h", &[owner]);
    let cs = launcher_spend(&mut a, &[m, h]);
    let info = DataStoreInfo::from_spend(&mut Allocator::new(), &cs, None).unwrap();
    assert_eq!(info.delegated_puzzles, None);
    assert_eq!(info.owner_puzzle_hash, Bytes32::new(OWNER));
    assert_eq!(info.metadata, metadata(ROOT, "L", "D"));
    let launcher_id = Bytes32::new(ledger_coin_id(&cs.coin));
    assert_eq!(info.launcher_id, launcher_id);
    assert_eq!(info.coin, Coin::new(launcher_id, Bytes32::new([0x33; 32]), 1));
    assert_eq!(info.proof, Proof::Eve(EveProof { parent_coin_info: launcher_id, amount: 1 }));
}

#[test]
fn genesis_spend_with_delegated_puzzles() {
    let mut a = Allocator::new();
    let md = metadata_node(&mut a, &ROOT, "label", "");
    let other = a.new_atom(b"other").unwrap();
    let hints: Vec<NodePtr> = [&OWNER[..], &[2], &ADMIN_INNER, &[3], &[7; 32], &[0x01, 0x00], &[9]]
        .iter()
        .map(|b| a.new_atom(b).unwrap())
        .collect();
    let x = entry(&mut a, b"x", &[other]);
    let h = entry(&mut a, b"h", &hints);
    let m = entry(&mut a, b"m", &[md, other]);
    let m2 = entry(&mut a, b"m", &[other]);
    let cs = launcher_spend(&mut a, &[x, h, m, m2]);
    let mut b = Allocator::new();
    let info = DataStoreInfo::from_spend(&mut b, &cs, None).unwrap();
    assert_eq!(info.metadata, metadata(ROOT, "label", ""));
    let puzzles = info.delegated_puzzles.unwrap();
    assert_eq!(puzzles.len(), 2);
    assert_eq!(puzzles[0].puzzle_info, DelegatedPuzzleInfo::Writer(Bytes32::new(ADMIN_INNER)));
    assert_eq!(puzzles[1].puzzle_info, DelegatedPuzzleInfo::Oracle(Bytes32::new([7; 32]), 256));
    assert_eq!(
        puzzles[1].puzzle_hash.bytes,
        tree_hash(&b, puzzles[1].full_puzzle.unwrap()).to_bytes()
    );
}

#[test]
fn genesis_spend_errors() {
    let mut a = Allocator::new();
    let md = metadata_node(&mut a, &ROOT, "L", "D");
    let bad_md = metadata_node(&mut a, &ROOT[..31], "L", "D");
    let owner = a.new_atom(&OWNER).unwrap();
    let pair = a.new_pair(owner, owner).unwrap();
    let m = entry(&mut a, b"m", &[md]);
    let h = entry(&mut a, b"h", &[owner]);
    let m_empty = entry(&mut a, b"m", &[]);
    let m_bad = entry(&mut a, b"m", &[bad_md]);
    let h_empty = entry(&mut a, b"h", &[]);
    let h_pair = entry(&mut a, b"h", &[owner, pair]);
    let h_tag = entry(&mut a, b"h", &[owner, owner, owner]);
    let cases = [
        (vec![h], ParseError::MissingHint),
        (vec![m], ParseError::MissingHint),
        (vec![], ParseError::MissingHint),
        (vec![m_empty, h], ParseError::MissingHint),
        (vec![m_bad, h], ParseError::MissingHint),
        (vec![m, h_empty], ParseError::MissingHint),
        (vec![m, h_pair], ParseError::DecodeError),
        (vec![m, h_tag], ParseError::MissingHint),
        (vec![m, owner], ParseError::NonStandardLayer),
    ];
    for (entries, error) in cases {
        let cs = launcher_spend(&mut a, &entries);
        assert_eq!(DataStoreInfo::from_spend(&mut Allocator::new(), &cs, None), Err(error));
    }
    let mut cs = launcher_spend(&mut a, &[m, h]);
    cs.solution = vec![0xff, 0x01];
    assert_eq!(
        DataStoreInfo::from_spend(&mut Allocator::new(), &cs, None),
        Err(ParseError::NonStandardLayer)
    );
}

#[test]
fn continuation_with_memos_names_owner_and_admin() {
    let mut a = Allocator::new();
    let created = create_coin(&mut a, &[0x55; 32], &[1], Some(&[&OWNER, &[1], &ADMIN_INNER]));
    let conditions = list(&mut a, &[created]);
    let inner_puzzle = quote(&mut a, conditions);
    let inner_solution = a.nil();
    let cs = store_spend(&mut a, inner_puzzle, inner_solution);
    let info = DataStoreInfo::from_spend(&mut Allocator::new(), &cs, None).unwrap();
    assert_eq!(info.owner_puzzle_hash, Bytes32::new(OWNER));
    let puzzles = info.delegated_puzzles.clone().unwrap();
    assert_eq!(puzzles.len(), 1);
    assert_eq!(puzzles[0].puzzle_info, DelegatedPuzzleInfo::Admin(Bytes32::new(ADMIN_INNER)));
    assert_eq!(puzzles[0].full_puzzle, None);
    assert_eq!(info.launcher_id, Bytes32::new(LAUNCHER_ID));
    assert_eq!(info.metadata, metadata(ROOT, "L", "D"));
    let md = metadata_node(&mut a, &ROOT, "L", "D");
    let state = state_layer(&mut a, md, inner_puzzle);
    assert_eq!(
        info.proof,
        Proof::Lineage(LineageProof {
            parent_parent_coin_id: Bytes32::new([0x11; 32]),
            parent_inner_puzzle_hash: Bytes32::new(tree_hash(&a, inner_puzzle).to_bytes()),
            parent_amount: 1,
        })
    );
    assert_ne!(tree_hash(&a, inner_puzzle), tree_hash(&a, state));
    assert_eq!(info.coin.parent_coin_info.bytes, ledger_coin_id(&spent_coin()));
    assert_eq!(info.coin.amount, 1);
    assert_eq!(info.coin.puzzle_hash.bytes, expected_puzzle_hash(tree_hash(&a, md), [0x55; 32]));
}

#[test]
fn continuation_with_one_memo_has_no_delegation_layer() {
    let mut a = Allocator::new();
    let even = create_coin(&mut a, &[0x56; 32], &[2], Some(&[&[1; 32], &[1], &ADMIN_INNER]));
    let created = create_coin(&mut a, &[0x55; 32], &[3], Some(&[&OWNER]));
    let later = create_coin(&mut a, &[0x57; 32], &[5], Some(&[&[2; 32]]));
    let conditions = list(&mut a, &[even, created, later]);
    let inner_puzzle = quote(&mut a, conditions);
    let inner_solution = a.nil();
    let cs = store_spend(&mut a, inner_puzzle, inner_solution);
    let prev = Some(vec![DelegatedPuzzle::new_oracle(Bytes32::new([1; 32]), 1).unwrap()]);
    let info = DataStoreInfo::from_spend(&mut Allocator::new(), &cs, prev).unwrap();
    assert_eq!(info.owner_puzzle_hash, Bytes32::new(OWNER));
    assert_eq!(info.delegated_puzzles, None);
    assert_eq!(info.coin.amount, 3);
}

#[test]
fn continuation_with_a_dangling_hint_has_an_empty_delegation_layer() {
    let mut a = Allocator::new();
    let created = create_coin(&mut a, &[0x55; 32], &[1], Some(&[&OWNER, &[1]]));
    let conditions = list(&mut a, &[created]);
    let inner_puzzle = quote(&mut a, conditions);
    let inner_solution = a.nil();
    let cs = store_spend(&mut a, inner_puzzle, inner_solution);
    let info = DataStoreInfo::from_spend(&mut Allocator::new(), &cs, None).unwrap();
    assert_eq!(info.owner_puzzle_hash, Bytes32::new(OWNER));
    assert_eq!(info.delegated_puzzles, Some(vec![]));
}

#[test]
fn continuation_without_memos_is_owned_by_the_inner_puzzle() {
    let mut a = Allocator::new();
    let created = create_coin(&mut a, &[0x55; 32], &[0x00, 0x81], None);
    let conditions = list(&mut a, &[created]);
    let inner_puzzle = quote(&mut a, conditions);
    let inner_solution = a.nil();
    let cs = store_spend(&mut a, inner_puzzle, inner_solution);
    let prev = Some(vec![DelegatedPuzzle::new_oracle(Bytes32::new([1; 32]), 1).unwrap()]);
    let info = DataStoreInfo::from_spend(&mut Allocator::new(), &cs, prev).unwrap();
    assert_eq!(info.owner_puzzle_hash.bytes, tree_hash(&a, inner_puzzle).to_bytes());
    assert_eq!(info.delegated_puzzles, None);
    assert_eq!(info.coin.amount, 129);
}

#[test]
fn continuation_takes_the_last_metadata_update() {
    let mut a = Allocator::new();
    let created = create_coin(&mut a, &[0x55; 32], &[1], Some(&[&OWNER]));
    let mut updates = Vec::new();
    for (root, label) in [([0x0e; 32], "first"), ([0x0f; 32], "second")] {
        let md = metadata_node(&mut a, &root, label, "new");
        let updater_hash = a.new_atom(&DL_METADATA_UPDATER_PUZZLE_HASH).unwrap();
        let part = list(&mut a, &[md, updater_hash]);
        let nil = a.nil();
        let solution = list(&mut a, &[part, nil]);
        let opcode = a.new_atom(&[0xe8]).unwrap();
        let reveal = a.new_atom(&[11]).unwrap();
        updates.push(list(&mut a, &[opcode, reveal, solution]));
    }
    let broken_md = atoms(&mut a, &[&[0x10; 32], b"only two"]);
    let nil = a.nil();
    let part = list(&mut a, &[broken_md, nil]);
    let solution = list(&mut a, &[part, nil]);
    let opcode = a.new_atom(&[0xe8]).unwrap();
    let broken = list(&mut a, &[opcode, nil, solution]);
    let conditions = list(&mut a, &[updates[0], created, updates[1], broken]);
    let inner_puzzle = quote(&mut a, conditions);
    let cs = store_spend(&mut a, inner_puzzle, nil);
    let info = DataStoreInfo::from_spend(&mut Allocator::new(), &cs, None).unwrap();
    assert_eq!(info.metadata, metadata([0x0f; 32], "second", "new"));
    let md = metadata_node(&mut a, &[0x0f; 32], "second", "new");
    assert_eq!(info.coin.puzzle_hash.bytes, expected_puzzle_hash(tree_hash(&a, md), [0x55; 32]));
    assert_eq!(info.metadata.tree_hash().bytes, tree_hash(&a, md).to_bytes());
}

fn delegation_layer(a: &mut Allocator) -> NodePtr {
    let program = node_from_bytes(a, &DELEGATION_LAYER_PUZZLE).unwrap();
    let args: Vec<NodePtr> = [DELEGATION_LAYER_PUZZLE_HASH, LAUNCHER_ID, OWNER, [0x77; 32]]
        .iter()
        .map(|h| a.new_atom(h).unwrap())
        .collect();
    curry(a, program, &args).unwrap()
}

#[test]
fn leaving_the_delegation_layer() {
    let mut a = Allocator::new();
    let layer = delegation_layer(&mut a);
    let created = create_coin(&mut a, &[0x66; 32], &[1], None);
    let conditions = list(&mut a, &[created]);
    let revealed = quote(&mut a, conditions);
    let nil = a.nil();
    let inner_solution = list(&mut a, &[nil, revealed, nil]);
    let cs = store_spend(&mut a, layer, inner_solution);
    let prev = Some(vec![DelegatedPuzzle::new_oracle(Bytes32::new([1; 32]), 1).unwrap()]);
    let info = DataStoreInfo::from_spend(&mut Allocator::new(), &cs, prev).unwrap();
    assert_eq!(info.owner_puzzle_hash, Bytes32::new([0x66; 32]));
    assert_eq!(info.delegated_puzzles, None);
}

#[test]
fn staying_in_the_delegation_layer_keeps_what_was_known() {
    let mut a = Allocator::new();
    let layer = delegation_layer(&mut a);
    let even = create_coin(&mut a, &[0x66; 32], &[2], None);
    let output = list(&mut a, &[even]);
    let prev = Some(vec![DelegatedPuzzle::new_oracle(Bytes32::new([1; 32]), 1).unwrap()]);
    let base = DataStoreInfo {
        coin: spent_coin(),
        launcher_id: Bytes32::new(LAUNCHER_ID),
        proof: Proof::Eve(EveProof { parent_coin_info: Bytes32::new([1; 32]), amount: 1 }),
        metadata: metadata(ROOT, "L", "D"),
        owner_puzzle_hash: Bytes32::new([0x99; 32]),
        delegated_puzzles: None,
    };
    let info =
        DataStoreInfo::from_delegation_output(&a, base.clone(), layer, output, prev.clone()).unwrap();
    assert_eq!(info.owner_puzzle_hash, Bytes32::new(OWNER));
    assert_eq!(info.delegated_puzzles, prev);
    assert_eq!(info.coin, base.coin);
    assert_eq!(info.metadata, base.metadata);

    let info = DataStoreInfo::from_delegation_output(&a, base.clone(), layer, output, None).unwrap();
    assert_eq!(info.delegated_puzzles, None);

    let odd = create_coin(&mut a, &[0x67; 32], &[3], None);
    let output = list(&mut a, &[even, odd]);
    let info =
        DataStoreInfo::from_delegation_output(&a, base.clone(), layer, output, prev.clone()).unwrap();
    assert_eq!(info.owner_puzzle_hash, Bytes32::new([0x67; 32]));
    assert_eq!(info.delegated_puzzles, None);

    let output = list(&mut a, &[even]);
    assert_eq!(
        DataStoreInfo::from_delegation_output(&a, base.clone(), even, output, prev.clone()),
        Err(ParseError::NonStandardLayer)
    );
    let improper = a.new_atom(b"tail").unwrap();
    assert_eq!(
        DataStoreInfo::from_delegation_output(&a, base, layer, improper, prev),
        Err(ParseError::DecodeError)
    );
}

#[test]
fn continuation_errors() {
    let mut a = Allocator::new();
    let nil = a.nil();
    let created = create_coin(&mut a, &[0x55; 32], &[1], None);
    let conditions = list(&mut a, &[created]);
    let fine = quote(&mut a, conditions);

    let even = create_coin(&mut a, &[0x55; 32], &[2], None);
    let only_even = list(&mut a, &[even]);
    let no_child = quote(&mut a, only_even);
    let cs = store_spend(&mut a, no_child, nil);
    assert_eq!(
        DataStoreInfo::from_spend(&mut Allocator::new(), &cs, None),
        Err(ParseError::MissingChild)
    );

    let raise = a.new_atom(&[8]).unwrap();
    let raises = list(&mut a, &[raise]);
    let cs = store_spend(&mut a, raises, nil);
    assert_eq!(
        DataStoreInfo::from_spend(&mut Allocator::new(), &cs, None),
        Err(ParseError::MismatchedOutput)
    );

    let tail = a.new_atom(b"tail").unwrap();
    let improper = a.new_pair(created, tail).unwrap();
    for output in [tail, improper] {
        let puzzle = quote(&mut a, output);
        let cs = store_spend(&mut a, puzzle, nil);
        assert_eq!(
            DataStoreInfo::from_spend(&mut Allocator::new(), &cs, None),
            Err(ParseError::DecodeError)
        );
    }

    let mut cs = store_spend(&mut a, fine, nil);
    cs.solution = node_to_bytes(&a, conditions).unwrap();
    assert_eq!(
        DataStoreInfo::from_spend(&mut Allocator::new(), &cs, None),
        Err(ParseError::DecodeError)
    );

    let mut cs = store_spend(&mut a, fine, nil);
    cs.puzzle_reveal = node_to_bytes(&a, fine).unwrap();
    assert_eq!(
        DataStoreInfo::from_spend(&mut Allocator::new(), &cs, None),
        Err(ParseError::NonStandardLayer)
    );

    let raw_singleton = singleton(&mut a, fine);
    let solution = singleton_solution(&mut a, nil);
    let cs = spend_of(&a, raw_singleton, solution);
    assert_eq!(
        DataStoreInfo::from_spend(&mut Allocator::new(), &cs, None),
        Err(ParseError::NonStandardLayer)
    );

    let bad_md = atoms(&mut a, &[&ROOT, &[0xff, 0xff], b"D"]);
    let state = state_layer(&mut a, bad_md, fine);
    let puzzle = singleton(&mut a, state);
    let cs = spend_of(&a, puzzle, solution);
    assert_eq!(
        DataStoreInfo::from_spend(&mut Allocator::new(), &cs, None),
        Err(ParseError::NonStandardLayer)
    );

    let mut cs = store_spend(&mut a, fine, nil);
    cs.puzzle_reveal = vec![0xff];
    assert_eq!(
        DataStoreInfo::from_spend(&mut Allocator::new(), &cs, None),
        Err(ParseError::NonStandardLayer)
    );

    let layer = delegation_layer(&mut a);
    let two = list(&mut a, &[nil, fine]);
    let cs = store_spend(&mut a, layer, two);
    assert_eq!(
        DataStoreInfo::from_spend(&mut Allocator::new(), &cs, None),
        Err(ParseError::MismatchedOutput)
    );
}

#[test]
fn singleton_spend_is_taken_apart() {
    let mut a = Allocator::new();
    let inner_puzzle = a.new_atom(&[1]).unwrap();
    let inner_solution = a.new_atom(b"solution").unwrap();
    let md = metadata_node(&mut a, &ROOT, "L", "D");
    let state = state_layer(&mut a, md, inner_puzzle);
    let puzzle = singleton(&mut a, state);
    let solution = singleton_solution(&mut a, inner_solution);
    let spend = SingletonSpend::parse(&a, puzzle, solution).unwrap();
    assert_eq!(spend.launcher_id, Bytes32::new(LAUNCHER_ID));
    assert_eq!(spend.metadata, metadata(ROOT, "L", "D"));
    assert_eq!(spend.inner_puzzle, inner_puzzle);
    assert_eq!(spend.inner_solution, inner_solution);

    let eve = SingletonSolution {
        lineage_proof: LedgerProof::Eve(LedgerEveProof { parent_coin_info: [1; 32].into(), amount: 1 }),
        amount: 1,
        inner_solution: NftStateLayerSolution { inner_solution },
    }
    .to_clvm(&mut a)
    .unwrap();
    assert!(SingletonSpend::parse(&a, puzzle, eve).is_ok());
    assert_eq!(SingletonSpend::parse(&a, state, solution), Err(ParseError::NonStandardLayer));
    assert_eq!(SingletonSpend::parse(&a, puzzle, inner_solution), Err(ParseError::DecodeError));
}

#[test]
fn hints_say_owner_and_delegated_puzzles() {
    let coin = spent_coin();
    let launcher_id = Bytes32::new(LAUNCHER_ID);
    let proof = Proof::Eve(EveProof { parent_coin_info: Bytes32::new([1; 32]), amount: 1 });
    let build = |hints: Vec<Vec<u8>>| {
        DataStoreInfo::build_datastore_info(
            &mut Allocator::new(),
            coin,
            launcher_id,
            proof,
            metadata(ROOT, "L", "D"),
            &hints,
        )
    };
    assert_eq!(build(vec![]), Err(ParseError::MissingHint));
    assert_eq!(build(vec![vec![1; 31]]), Err(ParseError::MissingHint));
    assert_eq!(build(vec![vec![1; 33], vec![1], vec![2; 32]]), Err(ParseError::MissingHint));
    assert_eq!(build(vec![OWNER.to_vec(), vec![4], vec![2; 32]]), Err(ParseError::MissingHint));
    assert_eq!(
        build(vec![OWNER.to_vec(), vec![1], vec![2; 32], vec![3], vec![2; 32]]),
        Err(ParseError::MissingHint)
    );
    let info = build(vec![OWNER.to_vec()]).unwrap();
    assert_eq!(info.delegated_puzzles, None);
    assert_eq!(info.owner_puzzle_hash, Bytes32::new(OWNER));
    assert_eq!((info.coin, info.launcher_id, info.proof), (coin, launcher_id, proof));
    assert_eq!(build(vec![OWNER.to_vec(), vec![1]]).unwrap().delegated_puzzles, Some(vec![]));
    let info = build(vec![OWNER.to_vec(), vec![1], vec![2; 32], vec![2], vec![3; 32], vec![7]]).unwrap();
    let infos: Vec<DelegatedPuzzleInfo> =
        info.delegated_puzzles.unwrap().iter().map(|p| p.puzzle_info).collect();
    assert_eq!(
        infos,
        vec![
            DelegatedPuzzleInfo::Admin(Bytes32::new([2; 32])),
            DelegatedPuzzleInfo::Writer(Bytes32::new([3; 32])),
        ]
    );
}

#[test]
fn singleton_layer_is_read_as_the_ledger_reads_it() {
    let mut a = Allocator::new();
    let inner = a.new_atom(&[1]).unwrap();
    let md = metadata_node(&mut a, &ROOT, "L", "D");
    let state = state_layer(&mut a, md, inner);
    let good = singleton(&mut a, state);
    let raw = singleton(&mut a, inner);

    let program = node_from_bytes(&mut a, &SINGLETON_TOP_LAYER_PUZZLE).unwrap();
    let other_program = node_from_bytes(&mut a, &NFT_STATE_LAYER_PUZZLE).unwrap();
    let wrong_program = CurriedProgram {
        program: other_program,
        args: SingletonArgs::new(LAUNCHER_ID.into(), inner),
    }
    .to_clvm(&mut a)
    .unwrap();
    let mut args = SingletonArgs::new(LAUNCHER_ID.into(), inner);
    args.singleton_struct.launcher_puzzle_hash = [9; 32].into();
    let wrong_launcher = CurriedProgram { program, args }.to_clvm(&mut a).unwrap();
    let mut args = SingletonArgs::new(LAUNCHER_ID.into(), inner);
    args.singleton_struct.mod_hash = [9; 32].into();
    let wrong_mod_hash = CurriedProgram { program, args }.to_clvm(&mut a).unwrap();
    let three = curry(&mut a, program, &vec![inner, inner, inner]).unwrap();
    let none = curry(&mut a, program, &vec![]).unwrap();

    for n in [good, raw, wrong_program, wrong_launcher, wrong_mod_hash, three, none, inner, state] {
        let ours = parse_singleton_layer(&a, n);
        let puzzle = Puzzle::parse(&a, n);
        let theirs = match SingletonPuzzle::parse(&a, &puzzle) {
            Ok(Some(s)) => Some((Bytes32::new(s.launcher_id.to_bytes()), s.inner_puzzle.ptr())),
            _ => None,
        };
        assert_eq!(ours, theirs);
    }
    assert_eq!(parse_singleton_layer(&a, good), Some((Bytes32::new(LAUNCHER_ID), state)));
    assert_eq!(parse_singleton_layer(&a, raw), Some((Bytes32::new(LAUNCHER_ID), inner)));
    for n in [wrong_program, wrong_launcher, wrong_mod_hash, three, none, inner, state] {
        assert_eq!(parse_singleton_layer(&a, n), None);
    }
    assert_eq!(parse_state_layer(&a, state), Some((metadata(ROOT, "L", "D"), inner)));
    assert_eq!(parse_state_layer(&a, good), None);
}

#[test]
fn a_full_arena_makes_an_oracle_hint_missing() {
    let mut a = Allocator::new();
    let created = create_coin(&mut a, &[0x55; 32], &[1], Some(&[&OWNER, &[3], &[7; 32], &[5]]));
    let conditions = list(&mut a, &[created]);
    let inner_puzzle = quote(&mut a, conditions);
    let md = metadata_node(&mut a, &ROOT, "L", "D");
    let state = state_layer(&mut a, md, inner_puzzle);
    let puzzle = singleton(&mut a, state);
    let nil = a.nil();
    let solution = singleton_solution(&mut a, nil);
    let cs = spend_of(&a, puzzle, solution);
    let info = DataStoreInfo::from_spend(&mut Allocator::new(), &cs, None).unwrap();
    assert_eq!(
        info.delegated_puzzles.clone().unwrap()[0].puzzle_info,
        DelegatedPuzzleInfo::Oracle(Bytes32::new([7; 32]), 5)
    );
    let mut errors = Vec::new();
    for limit in (1..=(cs.puzzle_reveal.len() + cs.solution.len() + 64)).step_by(16) {
        match DataStoreInfo::from_spend(&mut Allocator::new_limited(limit), &cs, None) {
            Ok(limited) => {
                assert_eq!(limited.coin, info.coin);
                assert_eq!(limited.owner_puzzle_hash, info.owner_puzzle_hash);
                assert_eq!(limited.delegated_puzzles.unwrap().len(), 1);
            }
            Err(e) => {
                assert!(
                    e == ParseError::NonStandardLayer
                        || e == ParseError::MismatchedOutput
                        || e == ParseError::MissingHint
                );
                errors.push(e);
            }
        }
    }
    assert!(errors.contains(&ParseError::NonStandardLayer));
    assert!(errors.contains(&ParseError::MissingHint));
}

#[test]
fn singleton_hash_is_the_hash_of_the_curried_singleton() {
    let mut a = Allocator::new();
    let inner = a.new_atom(b"inner").unwrap();
    let full = singleton(&mut a, inner);
    let inner_hash = Bytes32::new(tree_hash(&a, inner).to_bytes());
    assert_eq!(
        datalayer_driver::layers::singleton_full_puzzle_hash(&Bytes32::new(LAUNCHER_ID), &inner_hash)
            .bytes,
        tree_hash(&a, full).to_bytes()
    );
    let md = metadata_node(&mut a, &ROOT, "L", "D");
    let state = state_layer(&mut a, md, inner);
    let md_hash = Bytes32::new(tree_hash(&a, md).to_bytes());
    assert_eq!(
        datalayer_driver::layers::state_layer_puzzle_hash(&md_hash, &inner_hash).bytes,
        tree_hash(&a, state).to_bytes()
    );
}
