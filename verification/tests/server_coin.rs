use clvmr::serde::node_from_bytes;
use clvmr::Allocator;
use datalayer_driver::bytes32::Bytes32;
use datalayer_driver::coin::Coin;
use datalayer_driver::conditions::{Condition, CreateCoin};
use datalayer_driver::construct::curry;
use datalayer_driver::puzzles::{MIRROR_PUZZLE, MIRROR_PUZZLE_HASH};
use datalayer_driver::server_coin::{
    morph_launcher_id, urls_from_conditions, MirrorArgs, MirrorSolution, ServerCoin,
};
use num_bigint::BigInt;

fn offset(v: i64) -> Vec<u8> {
    BigInt::from(v).to_signed_bytes_be()
}

fn create_coin(puzzle_hash: [u8; 32], amount: u64, memos: Vec<Vec<u8>>) -> Condition {
    Condition::CreateCoin(CreateCoin { puzzle_hash: Bytes32::new(puzzle_hash), amount, memos })
}

#[test]
fn test_puzzle_hash() {
    let mut a = Allocator::new();
    let ptr = node_from_bytes(&mut a, &MIRROR_PUZZLE).unwrap();
    let hash = clvm_utils::tree_hash(&a, ptr);
    assert_eq!(MIRROR_PUZZLE_HASH, hash.to_bytes());
}

#[test]
fn test_morph() {
    let mut id = [3u8; 32];
    id[31] = 255;

    let mut expected = id;
    expected[31] = 0;
    expected[30] = 4;

    let actual = morph_launcher_id(Bytes32::new(id), &offset(1));

    assert_eq!(hex::encode(actual.bytes), hex::encode(expected));
}

#[test]
fn morph_by_zero_keeps_the_id() {
    for id in [[0u8; 32], [3u8; 32], [0xffu8; 32], [0x80u8; 32], [0x7fu8; 32]] {
        assert_eq!(morph_launcher_id(Bytes32::new(id), &offset(0)).bytes, id);
        assert_eq!(morph_launcher_id(Bytes32::new(id), &[]).bytes, id);
    }
}

#[test]
fn morph_there_and_back() {
    let mut id = [0u8; 32];
    id[31] = 1;
    for k in [1i64, -1, -2, 255, -256, 1 << 40, i64::MIN + 1, i64::MAX] {
        let there = morph_launcher_id(Bytes32::new(id), &offset(k));
        let back = morph_launcher_id(there, &offset(-k));
        assert_eq!(back.bytes, id, "offset {}", k);
    }
}

#[test]
fn morph_below_zero_fills_with_sign_bytes() {
    let mut id = [0u8; 32];
    id[31] = 1;
    assert_eq!(morph_launcher_id(Bytes32::new(id), &offset(-2)).bytes, [0xffu8; 32]);
    let mut expected = [0xffu8; 32];
    expected[31] = 0x00;
    expected[30] = 0xfe;
    assert_eq!(morph_launcher_id(Bytes32::new(id), &offset(-513)).bytes, expected);
}

#[test]
fn morph_out_of_range_gives_the_zero_id() {
    let mut top = [0xffu8; 32];
    top[0] = 0x7f;
    assert_eq!(morph_launcher_id(Bytes32::new(top), &offset(1)).bytes, [0u8; 32]);
    let mut bottom = [0u8; 32];
    bottom[0] = 0x80;
    assert_eq!(morph_launcher_id(Bytes32::new(bottom), &offset(-1)).bytes, [0u8; 32]);
    assert_eq!(morph_launcher_id(Bytes32::new(bottom), &offset(1)).bytes[31], 1);
    let mut wide = vec![1u8];
    wide.extend_from_slice(&[0u8; 32]);
    assert_eq!(morph_launcher_id(Bytes32::new([0u8; 32]), &wide).bytes, [0u8; 32]);
}

#[test]
fn morph_reads_long_offsets() {
    let mut long = vec![0u8; 40];
    long[39] = 5;
    let mut expected = [0u8; 32];
    expected[31] = 5;
    assert_eq!(morph_launcher_id(Bytes32::new([0u8; 32]), &long).bytes, expected);
}

#[test]
fn urls_none_without_matching_creation() {
    let coin = Coin::new(Bytes32::new([1; 32]), Bytes32::new([2; 32]), 7);
    assert_eq!(urls_from_conditions(&coin, &vec![]), None);
    let conditions = vec![
        create_coin([2; 32], 8, vec![vec![0; 32], b"a".to_vec()]),
        create_coin([3; 32], 7, vec![vec![0; 32], b"b".to_vec()]),
    ];
    assert_eq!(urls_from_conditions(&coin, &conditions), None);
}

#[test]
fn urls_are_the_memos_after_the_first() {
    let coin = Coin::new(Bytes32::new([1; 32]), Bytes32::new([2; 32]), 7);
    let conditions = vec![
        create_coin([9; 32], 7, vec![vec![0; 32], b"no".to_vec()]),
        create_coin(
            [2; 32],
            7,
            vec![vec![0xff; 32], b"https://a.example".to_vec(), "caf\u{e9}".as_bytes().to_vec()],
        ),
        create_coin([2; 32], 7, vec![vec![0; 32], b"later".to_vec()]),
    ];
    assert_eq!(
        urls_from_conditions(&coin, &conditions),
        Some(vec!["https://a.example".to_string(), "caf\u{e9}".to_string()])
    );
}

#[test]
fn urls_empty_without_memos_and_none_on_bad_utf8() {
    let coin = Coin::new(Bytes32::new([1; 32]), Bytes32::new([2; 32]), 7);
    assert_eq!(urls_from_conditions(&coin, &vec![create_coin([2; 32], 7, vec![])]), Some(vec![]));
    assert_eq!(
        urls_from_conditions(&coin, &vec![create_coin([2; 32], 7, vec![vec![0xff]])]),
        Some(vec![])
    );
    let bad = vec![
        create_coin([2; 32], 7, vec![vec![0; 32], vec![0xff, 0xfe]]),
        create_coin([2; 32], 7, vec![vec![0; 32], b"fine".to_vec()]),
    ];
    assert_eq!(urls_from_conditions(&coin, &bad), None);
}

#[test]
fn mirror_hash_is_the_hash_of_the_curried_mirror() {
    let mut a = Allocator::new();
    let program = node_from_bytes(&mut a, &MIRROR_PUZZLE).unwrap();
    let one = a.new_atom(&[1]).unwrap();
    let curried = curry(&mut a, program, &vec![one]).unwrap();
    assert_eq!(MirrorArgs::curry_tree_hash().bytes, clvm_utils::tree_hash(&a, curried).to_bytes());
    assert_eq!(MirrorArgs::<i32>::default().morpher, 1);
}

#[test]
fn server_coin_types_hold_their_fields() {
    let coin = Coin::new(Bytes32::new([1; 32]), Bytes32::new([2; 32]), 7);
    let server = ServerCoin {
        coin,
        p2_puzzle_hash: Bytes32::new([4; 32]),
        memo_urls: vec!["u".to_string()],
    };
    assert_eq!(server.clone(), server);
    let solution = MirrorSolution {
        parent_parent_id: Bytes32::new([5; 32]),
        parent_inner_puzzle: 1u8,
        parent_amount: 3,
        parent_solution: (),
    };
    assert_eq!(solution.parent_amount, 3);
}
