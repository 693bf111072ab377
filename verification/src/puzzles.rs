use vstd::prelude::*;

verus! {

/// The tree hash of the singleton launcher puzzle.
pub const SINGLETON_LAUNCHER_PUZZLE_HASH: [u8; 32] = [
    0xef, 0xf0, 0x75, 0x22, 0x49, 0x50, 0x60, 0xc0, 0x66, 0xf6, 0x6f, 0x32,
    0xac, 0xc2, 0xa7, 0x7e, 0x3a, 0x3e, 0x73, 0x7a, 0xca, 0x8b, 0xae, 0xa4,
    0xd1, 0xa6, 0x4e, 0xa4, 0xcd, 0xc1, 0x3d, 0xa9,
];

/// The tree hash of the singleton top layer puzzle.
pub const SINGLETON_TOP_LAYER_PUZZLE_HASH: [u8; 32] = [
    0x7f, 0xaa, 0x32, 0x53, 0xbf, 0xdd, 0xd1, 0xe0, 0xde, 0xcb, 0x09, 0x06,
    0xb2, 0xdc, 0x62, 0x47, 0xbb, 0xc4, 0xcf, 0x60, 0x8f, 0x58, 0x34, 0x5d,
    0x17, 0x3a, 0xdb, 0x63, 0xe8, 0xb4, 0x7c, 0x9f,
];

/// The tree hash of the state layer puzzle, which carries a store's metadata.
pub const NFT_STATE_LAYER_PUZZLE_HASH: [u8; 32] = [
    0xa0, 0x4d, 0x9f, 0x57, 0x76, 0x4f, 0x54, 0xa4, 0x3e, 0x40, 0x30, 0xbe,
    0xfb, 0x4d, 0x80, 0x02, 0x6e, 0x87, 0x05, 0x19, 0xaa, 0xa6, 0x63, 0x34,
    0xae, 0xf8, 0x30, 0x4f, 0x5d, 0x03, 0x93, 0xc2,
];

/// The metadata updater of a store: the program `11`, which returns the third
/// item of its solution.
pub const DL_METADATA_UPDATER_PUZZLE: [u8; 1] = [
    0x0b,
];

/// The tree hash of [`DL_METADATA_UPDATER_PUZZLE`].
pub const DL_METADATA_UPDATER_PUZZLE_HASH: [u8; 32] = [
    0x57, 0xbf, 0xd1, 0xcb, 0x0a, 0xdd, 0xa3, 0xd9, 0x43, 0x15, 0x05, 0x3f,
    0xda, 0x72, 0x3f, 0x20, 0x28, 0x32, 0x0f, 0xaa, 0x83, 0x38, 0x22, 0x5d,
    0x99, 0xf6, 0x29, 0xe3, 0xd4, 0x6d, 0x43, 0xa9,
];

/// The admin filter `(a 2 3)`: curried with an inner puzzle, it runs that puzzle
/// on the solution and hands its conditions on unchanged.
pub const ADMIN_FILTER_PUZZLE: [u8; 7] = [
    0xff, 0x02, 0xff, 0x02, 0xff, 0x03, 0x80,
];

/// The tree hash of [`ADMIN_FILTER_PUZZLE`].
pub const ADMIN_FILTER_PUZZLE_HASH: [u8; 32] = [
    0x53, 0x0d, 0x1b, 0x32, 0x83, 0xc8, 0x02, 0xbe, 0x3a, 0x7b, 0xdb, 0x34,
    0xb7, 0x88, 0xc1, 0x89, 0x84, 0x75, 0xed, 0x76, 0xc8, 0x9e, 0xcb, 0x22,
    0x24, 0xe4, 0xb4, 0xf4, 0x0c, 0x32, 0xd1, 0xa4,
];

/// The writer filter: curried with an inner puzzle, it runs that puzzle on the
/// solution and hands its conditions on, but fails where one of them creates a
/// coin (opcode 51) or sets a new merkle root (opcode -13).
pub const WRITER_FILTER_PUZZLE: [u8; 181] = [
    0xff, 0x02, 0xff, 0xff, 0x01, 0xff, 0x02, 0xff, 0xff, 0x03, 0xff, 0x03,
    0xff, 0xff, 0x01, 0xff, 0x02, 0xff, 0xff, 0x03, 0xff, 0xff, 0x21, 0xff,
    0xff, 0x09, 0xff, 0x09, 0xff, 0xff, 0x01, 0x33, 0x80, 0xff, 0xff, 0x09,
    0xff, 0x09, 0xff, 0xff, 0x01, 0x81, 0xf3, 0x80, 0x80, 0xff, 0xff, 0x01,
    0xff, 0x08, 0x80, 0xff, 0xff, 0x01, 0xff, 0x04, 0xff, 0x05, 0xff, 0xff,
    0x02, 0xff, 0x02, 0xff, 0xff, 0x04, 0xff, 0x02, 0xff, 0x07, 0x80, 0x80,
    0x80, 0x80, 0xff, 0x01, 0x80, 0xff, 0xff, 0x01, 0x80, 0x80, 0xff, 0x01,
    0x80, 0xff, 0xff, 0x04, 0xff, 0xff, 0x01, 0xff, 0x02, 0xff, 0xff, 0x03,
    0xff, 0x03, 0xff, 0xff, 0x01, 0xff, 0x02, 0xff, 0xff, 0x03, 0xff, 0xff,
    0x21, 0xff, 0xff, 0x09, 0xff, 0x09, 0xff, 0xff, 0x01, 0x33, 0x80, 0xff,
    0xff, 0x09, 0xff, 0x09, 0xff, 0xff, 0x01, 0x81, 0xf3, 0x80, 0x80, 0xff,
    0xff, 0x01, 0xff, 0x08, 0x80, 0xff, 0xff, 0x01, 0xff, 0x04, 0xff, 0x05,
    0xff, 0xff, 0x02, 0xff, 0x02, 0xff, 0xff, 0x04, 0xff, 0x02, 0xff, 0x07,
    0x80, 0x80, 0x80, 0x80, 0xff, 0x01, 0x80, 0xff, 0xff, 0x01, 0x80, 0x80,
    0xff, 0x01, 0x80, 0xff, 0xff, 0x02, 0xff, 0x02, 0xff, 0x03, 0x80, 0x80,
    0x80,
];

/// The tree hash of [`WRITER_FILTER_PUZZLE`].
pub const WRITER_FILTER_PUZZLE_HASH: [u8; 32] = [
    0x68, 0x28, 0xfa, 0x10, 0x19, 0xdd, 0xaa, 0xf4, 0xea, 0x22, 0xb7, 0x53,
    0xec, 0x40, 0x16, 0x11, 0xa9, 0xc2, 0x73, 0x56, 0xc0, 0x50, 0x1b, 0xa8,
    0xcf, 0x42, 0x1f, 0xfc, 0xc2, 0x73, 0xc4, 0xff,
];

/// The delegation layer `(a 95 191)`. It is curried with its own hash, the
/// launcher id, the owner's puzzle hash and the merkle root of the delegated
/// puzzles; its solution is `(merkle_proof puzzle_reveal puzzle_solution)`, and
/// it runs the revealed puzzle on the given solution. The proof is carried for
/// whoever checks the reveal against the root; this program does not.
pub const DELEGATION_LAYER_PUZZLE: [u8; 8] = [
    0xff, 0x02, 0xff, 0x5f, 0xff, 0x81, 0xbf, 0x80,
];

/// The tree hash of [`DELEGATION_LAYER_PUZZLE`].
pub const DELEGATION_LAYER_PUZZLE_HASH: [u8; 32] = [
    0x9c, 0x22, 0xfd, 0x80, 0xc9, 0xb1, 0xc0, 0xee, 0x8d, 0x27, 0xdf, 0x2d,
    0xfb, 0xd9, 0x38, 0xdb, 0xdc, 0x45, 0xe5, 0x80, 0x74, 0xe9, 0x6a, 0xd8,
    0x18, 0x98, 0x0b, 0x0f, 0x02, 0xc1, 0x72, 0x3f,
];

/// The puzzle of a mirror coin: curried with a morpher, it announces where a
/// store's content is served.
pub const MIRROR_PUZZLE: [u8; 242] = [
    0xff, 0x02, 0xff, 0xff, 0x01, 0xff, 0x04, 0xff, 0xff, 0x04, 0xff, 0x08,
    0xff, 0xff, 0x04, 0xff, 0xff, 0x02, 0xff, 0x0a, 0xff, 0xff, 0x04, 0xff,
    0x02, 0xff, 0xff, 0x04, 0xff, 0x0b, 0xff, 0xff, 0x04, 0xff, 0xff, 0x02,
    0xff, 0x05, 0xff, 0xff, 0x02, 0xff, 0x0e, 0xff, 0xff, 0x04, 0xff, 0x02,
    0xff, 0xff, 0x04, 0xff, 0x17, 0xff, 0x80, 0x80, 0x80, 0x80, 0x80, 0xff,
    0xff, 0x04, 0xff, 0x2f, 0xff, 0x80, 0x80, 0x80, 0x80, 0x80, 0x80, 0xff,
    0x80, 0x80, 0x80, 0xff, 0xff, 0x02, 0xff, 0x17, 0xff, 0x5f, 0x80, 0x80,
    0xff, 0xff, 0x04, 0xff, 0xff, 0x01, 0xff, 0xff, 0x47, 0x20, 0xff, 0xff,
    0x02, 0xff, 0xff, 0x03, 0xff, 0xff, 0x22, 0xff, 0xff, 0x09, 0xff, 0xff,
    0x0d, 0xff, 0x05, 0x80, 0xff, 0x0c, 0x80, 0xff, 0xff, 0x09, 0xff, 0xff,
    0x0d, 0xff, 0x0b, 0x80, 0xff, 0x0c, 0x80, 0xff, 0xff, 0x15, 0xff, 0x17,
    0xff, 0xff, 0x01, 0x81, 0xff, 0x80, 0x80, 0xff, 0xff, 0x01, 0xff, 0x0b,
    0xff, 0x05, 0xff, 0x0b, 0xff, 0x17, 0x80, 0xff, 0xff, 0x01, 0xff, 0x08,
    0x80, 0x80, 0xff, 0x01, 0x80, 0xff, 0x02, 0xff, 0xff, 0x03, 0xff, 0xff,
    0x07, 0xff, 0x05, 0x80, 0xff, 0xff, 0x01, 0xff, 0x0b, 0xff, 0xff, 0x01,
    0x02, 0xff, 0xff, 0x02, 0xff, 0x0e, 0xff, 0xff, 0x04, 0xff, 0x02, 0xff,
    0xff, 0x04, 0xff, 0x09, 0xff, 0x80, 0x80, 0x80, 0x80, 0xff, 0xff, 0x02,
    0xff, 0x0e, 0xff, 0xff, 0x04, 0xff, 0x02, 0xff, 0xff, 0x04, 0xff, 0x0d,
    0xff, 0x80, 0x80, 0x80, 0x80, 0x80, 0xff, 0xff, 0x01, 0xff, 0x0b, 0xff,
    0xff, 0x01, 0x01, 0xff, 0x05, 0x80, 0x80, 0xff, 0x01, 0x80, 0xff, 0x01,
    0x80, 0x80,
];

/// The tree hash of [`MIRROR_PUZZLE`].
pub const MIRROR_PUZZLE_HASH: [u8; 32] = [
    0xb1, 0x0c, 0xe2, 0xd0, 0xb1, 0x8d, 0xcf, 0x8c, 0x21, 0xdd, 0xfa, 0xf5,
    0x5d, 0x9b, 0x9f, 0x0a, 0xdc, 0xbf, 0x1e, 0x0b, 0xeb, 0x55, 0xb1, 0xa8,
    0xb9, 0xca, 0xd9, 0xbb, 0xff, 0x4e, 0x5f, 0x22,
];

/// The opcode of the condition that creates a coin.
pub const CREATE_COIN: u8 = 51;

/// The opcode of the condition that announces a message for the puzzle.
pub const CREATE_PUZZLE_ANNOUNCEMENT: u8 = 62;

/// The opcode of the condition that replaces a store's metadata.
pub const NEW_METADATA: i32 = -24;

/// The opcode of the condition that replaces the merkle root of the delegated
/// puzzles.
pub const NEW_MERKLE_ROOT: i32 = -13;

/// The payload of the announcement that an oracle puzzle makes: the byte `$`.
pub const ORACLE_ANNOUNCEMENT: u8 = 0x24;

} // verus!
