//! Derives the state of an on-chain data store from the spends of its coins, and
//! builds the puzzles that may spend it.
//!
//! A store is a singleton whose state layer carries its metadata. Its owner may
//! delegate spending to admins, writers and oracles, whose puzzles a merkle root
//! commits to. Programs live in an arena of clvmr; contracts speak of the trees
//! that the arena's handles stand for.

pub mod bytes32;
pub mod clvm;
pub mod coin;
pub mod conditions;
pub mod construct;
pub mod datastore_info;
pub mod hash;
pub mod layers;
pub mod merkle_tree;
pub mod metadata;
pub mod number;
pub mod puzzles;
pub mod puzzles_info;
pub mod server_coin;
pub mod sexp;
pub mod solutions;
