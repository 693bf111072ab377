use chia_sdk_types::conditions::Condition as SdkCondition;
use clvm_traits::FromClvm;
use clvmr::{Allocator, NodePtr};
use datalayer_driver::bytes32::Bytes32;
use datalayer_driver::conditions::{
    find_odd_create_coin, Condition, CreateCoin, NewMerkleRootCondition, NewMetadataCondition,
};
use datalayer_driver::layers::{curried_arg_nodes, curried_puzzle};
use datalayer_driver::metadata::DataStoreMetadata;
use datalayer_driver::sexp::{atom_bytes, list_nodes, node_bytes32};

fn list(a: &mut Allocator, items: &[NodePtr]) -> NodePtr {
    let mut cur = a.nil();
    for item in items.iter().rev() {
        cur = a.new_pair(*item, cur).unwrap();
    }
    cur
}

fn atoms(a: &mut Allocator, items: &[&[u8]]) -> NodePtr {
    let nodes: Vec<NodePtr> = items.iter().map(|b| a.new_atom(b).unwrap()).collect();
    list(a, &nodes)
}

fn ledger_create_coin(a: &Allocator, n: NodePtr) -> Option<CreateCoin> {
    match SdkCondition::<NodePtr>::from_clvm(a, n).unwrap() {
        SdkCondition::CreateCoin(c) => Some(CreateCoin {
            puzzle_hash: Bytes32::new(c.puzzle_hash.to_bytes()),
            amount: c.amount,
            memos: c.memos.iter().map(|m| m.as_ref().to_vec()).collect(),
        }),
        _ => None,
    }
}

#[test]
fn create_coin_is_read_as_the_ledger_reads_it() {
    let mut a = Allocator::new();
    let ph = [7u8; 32];
    let opcodes: [&[u8]; 7] = [&[51], &[0, 51], &[0xff, 0x33], &[52], &[], &[0x33, 0], &[0, 0, 51]];
    let amounts: [&[u8]; 9] = [
        &[],
        &[1],
        &[0x80],
        &[0xff],
        &[0, 0xff],
        &[0x7f, 0xff, 0xff, 0xff, 0xff, 0xff, 0xff, 0xff],
        &[0, 0xff, 0xff, 0xff, 0xff, 0xff, 0xff, 0xff, 0xff],
        &[1, 0, 0, 0, 0, 0, 0, 0, 0],
        &[0xff, 0, 0, 0, 0, 0, 0, 0, 1],
    ];
    let mut seen = 0;
    for opcode in opcodes {
        for amount in amounts {
            for hash in [&ph[..], &ph[..31], &[]] {
                let plain = atoms(&mut a, &[opcode, hash, amount]);
                let memos = atoms(&mut a, &[b"one", &[], &ph]);
                let op = a.new_atom(opcode).unwrap();
                let h = a.new_atom(hash).unwrap();
                let am = a.new_atom(amount).unwrap();
                let with_memos = list(&mut a, &[op, h, am, memos]);
                let nil = a.nil();
                let with_nil = list(&mut a, &[op, h, am, nil]);
                let too_long = list(&mut a, &[op, h, am, memos, nil]);
                let atom_memos = list(&mut a, &[op, h, am, op]);
                let pair_memo = list(&mut a, &[plain]);
                let nested = list(&mut a, &[op, h, am, pair_memo]);
                let improper = a.new_pair(am, op).unwrap();
                let improper = a.new_pair(h, improper).unwrap();
                let improper = a.new_pair(op, improper).unwrap();
                let short = list(&mut a, &[op, h]);
                for n in [
                    plain, with_memos, with_nil, too_long, atom_memos, nested, improper, short, op,
                ] {
                    let ours = CreateCoin::from_clvm(&a, n);
                    assert_eq!(ours, ledger_create_coin(&a, n));
                    match Condition::from_clvm(&a, n) {
                        Condition::CreateCoin(c) => assert_eq!(Some(c), ours),
                        Condition::Other(m) => {
                            assert_eq!(m, n);
                            assert_eq!(ours, None);
                        }
                    }
                    if ours.is_some() {
                        seen += 1;
                    }
                }
            }
        }
    }
    assert!(seen > 0);
}

#[test]
fn create_coin_values() {
    let mut a = Allocator::new();
    let n = atoms(&mut a, &[&[51], &[7; 32], &[0x01, 0x00]]);
    assert_eq!(
        CreateCoin::from_clvm(&a, n),
        Some(CreateCoin { puzzle_hash: Bytes32::new([7; 32]), amount: 256, memos: vec![] })
    );
    let memos = atoms(&mut a, &[b"a", b""]);
    let items: Vec<NodePtr> =
        [&[51u8][..], &[7; 32], &[0xff]].iter().map(|b| a.new_atom(b).unwrap()).collect();
    let n = list(&mut a, &[items[0], items[1], items[2], memos]);
    assert_eq!(
        CreateCoin::from_clvm(&a, n),
        Some(CreateCoin {
            puzzle_hash: Bytes32::new([7; 32]),
            amount: u64::MAX,
            memos: vec![b"a".to_vec(), vec![]],
        })
    );
}

#[test]
fn first_odd_creation_is_found() {
    let mut a = Allocator::new();
    let even = atoms(&mut a, &[&[51], &[1; 32], &[2]]);
    let zero = atoms(&mut a, &[&[51], &[2; 32], &[]]);
    let other = atoms(&mut a, &[&[60], &[3; 32]]);
    let odd = atoms(&mut a, &[&[51], &[4; 32], &[3]]);
    let later = atoms(&mut a, &[&[51], &[5; 32], &[1]]);
    let atom = a.new_atom(b"x").unwrap();
    assert_eq!(find_odd_create_coin(&a, &vec![]), None);
    assert_eq!(find_odd_create_coin(&a, &vec![even, zero, other, atom]), None);
    let found = find_odd_create_coin(&a, &vec![even, atom, zero, other, odd, later]).unwrap();
    assert_eq!(found.puzzle_hash, Bytes32::new([4; 32]));
    assert_eq!(found.amount, 3);
}

#[test]
fn metadata_update_is_read() {
    let mut a = Allocator::new();
    let md = atoms(&mut a, &[&[9; 32], b"label", "d\u{e9}".as_bytes()]);
    let ph = a.new_atom(&[8; 32]).unwrap();
    let part = list(&mut a, &[md, ph]);
    let conditions = a.new_atom(b"c").unwrap();
    let solution = list(&mut a, &[part, conditions]);
    let reveal = a.new_atom(&[11]).unwrap();
    for opcode in [&[0xe8u8][..], &[0xff, 0xe8], &[0, 0xff, 0xff, 0xff, 0xe8]] {
        let op = a.new_atom(opcode).unwrap();
        let n = list(&mut a, &[op, reveal, solution]);
        let c = NewMetadataCondition::from_clvm(&a, n).unwrap();
        assert_eq!(c.metadata_updater_reveal, reveal);
        assert_eq!(c.metadata_updater_solution.conditions, conditions);
        assert_eq!(c.metadata_updater_solution.metadata_part.new_metadata_updater_ph, ph);
        assert_eq!(
            c.metadata_updater_solution.metadata_part.new_metadata,
            DataStoreMetadata {
                root_hash: Bytes32::new([9; 32]),
                label: "label".to_string(),
                description: "d\u{e9}".to_string(),
            }
        );
    }
    for opcode in [&[0x18u8][..], &[0xe7], &[], &[0xff, 0xff, 0xff, 0xff, 0xe8, 0]] {
        let op = a.new_atom(opcode).unwrap();
        let n = list(&mut a, &[op, reveal, solution]);
        assert_eq!(NewMetadataCondition::from_clvm(&a, n), None);
    }
    let op = a.new_atom(&[0xe8]).unwrap();
    let short = list(&mut a, &[op, reveal]);
    assert_eq!(NewMetadataCondition::from_clvm(&a, short), None);
    let long = list(&mut a, &[op, reveal, solution, reveal]);
    assert_eq!(NewMetadataCondition::from_clvm(&a, long), None);
    let bad_solution = list(&mut a, &[op, reveal, part]);
    assert_eq!(NewMetadataCondition::from_clvm(&a, bad_solution), None);
}

#[test]
fn merkle_root_update_is_read() {
    let mut a = Allocator::new();
    let op = a.new_atom(&[0xf3]).unwrap();
    let root = a.new_atom(&[6; 32]).unwrap();
    let memo = a.new_atom(b"memo").unwrap();
    let pair = a.new_pair(memo, memo).unwrap();
    let n = list(&mut a, &[op, root, memo, pair]);
    let c = NewMerkleRootCondition::from_clvm(&a, n).unwrap();
    assert_eq!(c.new_merkle_root, Bytes32::new([6; 32]));
    assert_eq!(c.memos, vec![memo, pair]);
    let n = list(&mut a, &[op, root]);
    assert_eq!(NewMerkleRootCondition::from_clvm(&a, n).unwrap().memos, vec![]);
    let n = list(&mut a, &[op]);
    assert_eq!(NewMerkleRootCondition::from_clvm(&a, n), None);
    let n = list(&mut a, &[op, memo]);
    assert_eq!(NewMerkleRootCondition::from_clvm(&a, n), None);
    let n = list(&mut a, &[root, root]);
    assert_eq!(NewMerkleRootCondition::from_clvm(&a, n), None);
}

#[test]
fn metadata_is_a_list_of_three_atoms() {
    let mut a = Allocator::new();
    let good = atoms(&mut a, &[&[9; 32], b"", b"d"]);
    assert_eq!(
        DataStoreMetadata::from_clvm(&a, good),
        Some(DataStoreMetadata {
            root_hash: Bytes32::new([9; 32]),
            label: String::new(),
            description: "d".to_string(),
        })
    );
    let cases: [&[&[u8]]; 5] = [
        &[&[9; 32], b"l"],
        &[&[9; 32], b"l", b"d", b"x"],
        &[&[9; 31], b"l", b"d"],
        &[&[9; 32], &[0xc3], b"d"],
        &[&[9; 32], b"l", &[0x80]],
    ];
    for case in cases {
        let n = atoms(&mut a, case);
        assert_eq!(DataStoreMetadata::from_clvm(&a, n), None);
    }
    let pair = a.new_pair(good, good).unwrap();
    assert_eq!(DataStoreMetadata::from_clvm(&a, pair), None);
    let atom = a.new_atom(b"l").unwrap();
    assert_eq!(DataStoreMetadata::from_clvm(&a, atom), None);
}

#[test]
fn lists_and_atoms_are_read() {
    let mut a = Allocator::new();
    let x = a.new_atom(b"x").unwrap();
    let nil = a.nil();
    let l = list(&mut a, &[x, nil, x]);
    assert_eq!(list_nodes(&a, l), Some(vec![x, nil, x]));
    assert_eq!(list_nodes(&a, nil), Some(vec![]));
    assert_eq!(list_nodes(&a, x), None);
    let improper = a.new_pair(x, x).unwrap();
    assert_eq!(list_nodes(&a, improper), None);
    assert_eq!(atom_bytes(&a, x), Some(b"x".to_vec()));
    assert_eq!(atom_bytes(&a, nil), Some(vec![]));
    assert_eq!(atom_bytes(&a, l), None);
    let h = a.new_atom(&[3; 32]).unwrap();
    assert_eq!(node_bytes32(&a, h), Some(Bytes32::new([3; 32])));
    assert_eq!(node_bytes32(&a, x), None);
    assert_eq!(node_bytes32(&a, l), None);
}

#[test]
fn curried_programs_come_apart() {
    let mut a = Allocator::new();
    let program = a.new_atom(&[2]).unwrap();
    let x = a.new_atom(b"x").unwrap();
    let y = list(&mut a, &[x, x]);
    let curried = datalayer_driver::construct::curry(&mut a, program, &vec![x, y]).unwrap();
    let (mod_hash, args) = curried_puzzle(&a, curried).unwrap();
    assert_eq!(mod_hash.bytes, clvm_utils::tree_hash(&a, program).to_bytes());
    assert_eq!(curried_arg_nodes(&a, args), Some(vec![x, y]));
    assert_eq!(curried_puzzle(&a, y), None);
    assert_eq!(curried_puzzle(&a, program), None);
    assert_eq!(curried_arg_nodes(&a, y), None);
    let plain = datalayer_driver::construct::curry(&mut a, program, &vec![]).unwrap();
    let (_, args) = curried_puzzle(&a, plain).unwrap();
    assert_eq!(curried_arg_nodes(&a, args), Some(vec![]));
    assert_eq!(
        hex::encode(clvmr::serde::node_to_bytes(&a, curried).unwrap()),
        "ff02ffff0102ffff04ffff0178ffff04ffff01ff78ff7880ff01808080"
    );
}

#[test]
fn programs_and_atoms_are_loaded() {
    let mut a = Allocator::new();
    let n = datalayer_driver::construct::load_program(&mut a, &[0xff, 0x01, 0x83, b'a', b'b', b'c'])
        .unwrap();
    let (first, rest) = a.next(n).unwrap();
    assert_eq!(atom_bytes(&a, first), Some(vec![1]));
    assert_eq!(atom_bytes(&a, rest), Some(b"abc".to_vec()));
    assert_eq!(datalayer_driver::construct::load_program(&mut a, &[0xff, 0x01]), None);
    let atom = datalayer_driver::construct::atom_node(&mut a, b"atom").unwrap();
    assert_eq!(atom_bytes(&a, atom), Some(b"atom".to_vec()));
    let mut full = Allocator::new_limited(2);
    assert_eq!(datalayer_driver::construct::atom_node(&mut full, b"atom"), None);
}

#[test]
fn the_empty_list_needs_no_room() {
    let mut full = Allocator::new_limited(1);
    let empty = datalayer_driver::construct::list_of(&mut full, &vec![]).unwrap();
    assert_eq!(atom_bytes(&full, empty), Some(vec![]));
    let long = full.new_atom(b"four");
    assert!(long.is_err());
    let mut a = Allocator::new();
    let x = a.new_atom(b"x").unwrap();
    let one = datalayer_driver::construct::list_of(&mut a, &vec![x]).unwrap();
    assert_eq!(list_nodes(&a, one), Some(vec![x]));
}
