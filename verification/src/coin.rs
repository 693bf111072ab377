use crate::bytes32::Bytes32;
use crate::hash::{coin_id_of, sha256};
use crate::number::int_atom;
use vstd::prelude::*;

verus! {

/// A coin of the ledger.
#[derive(Clone, Copy, Debug, PartialEq, Eq, Hash)]
pub struct Coin {
    pub parent_coin_info: Bytes32,
    pub puzzle_hash: Bytes32,
    pub amount: u64,
}

/// The mathematical value of a [`Coin`].
pub struct CoinView {
    pub parent_coin_info: Seq<u8>,
    pub puzzle_hash: Seq<u8>,
    pub amount: u64,
}

impl View for Coin {
    type V = CoinView;

    open spec fn view(&self) -> CoinView {
        CoinView {
            parent_coin_info: self.parent_coin_info@,
            puzzle_hash: self.puzzle_hash@,
            amount: self.amount,
        }
    }
}

/// The id of a coin: the digest of its parent's id, its puzzle hash and its
/// amount written as an atom writes an integer.
pub open spec fn coin_id_spec(c: CoinView) -> Seq<u8> {
    sha256(c.parent_coin_info + c.puzzle_hash + int_atom(c.amount as int))
}

impl Coin {
    /// A coin with the given parent, puzzle hash and amount.
    pub fn new(parent_coin_info: Bytes32, puzzle_hash: Bytes32, amount: u64) -> (r: Self)
        ensures
            r.parent_coin_info == parent_coin_info,
            r.puzzle_hash == puzzle_hash,
            r.amount == amount,
    {
        Coin { parent_coin_info, puzzle_hash, amount }
    }

    /// The id of the coin.
    pub fn coin_id(&self) -> (r: Bytes32)
        ensures
            r@ == coin_id_spec(self@),
    {
        coin_id_of(&self.parent_coin_info, &self.puzzle_hash, self.amount)
    }
}

/// The record of how a coin was spent: the coin, the puzzle that locked it and
/// the solution it was spent with, both as serialized programs.
#[derive(Clone, Debug, PartialEq, Eq)]
pub struct CoinSpend {
    pub coin: Coin,
    pub puzzle_reveal: Vec<u8>,
    pub solution: Vec<u8>,
}

/// Proof that a singleton coin descends from another coin of the same singleton.
#[derive(Clone, Copy, Debug, PartialEq, Eq)]
pub struct LineageProof {
    pub parent_parent_coin_id: Bytes32,
    pub parent_inner_puzzle_hash: Bytes32,
    pub parent_amount: u64,
}

/// Proof that a singleton coin descends directly from its launcher.
#[derive(Clone, Copy, Debug, PartialEq, Eq)]
pub struct EveProof {
    pub parent_coin_info: Bytes32,
    pub amount: u64,
}

/// What authorizes the spend of a singleton coin.
#[derive(Clone, Copy, Debug, PartialEq, Eq)]
pub enum Proof {
    Lineage(LineageProof),
    Eve(EveProof),
}

/// The mathematical value of a [`Proof`].
pub enum ProofView {
    Lineage { parent_parent_coin_id: Seq<u8>, parent_inner_puzzle_hash: Seq<u8>, parent_amount: u64 },
    Eve { parent_coin_info: Seq<u8>, amount: u64 },
}

impl View for Proof {
    type V = ProofView;

    open spec fn view(&self) -> ProofView {
        match *self {
            Proof::Lineage(p) => ProofView::Lineage {
                parent_parent_coin_id: p.parent_parent_coin_id@,
                parent_inner_puzzle_hash: p.parent_inner_puzzle_hash@,
                parent_amount: p.parent_amount,
            },
            Proof::Eve(p) => ProofView::Eve { parent_coin_info: p.parent_coin_info@, amount: p.amount },
        }
    }
}

/// Why a spend or a list of hints could not be turned into a store's state.
#[derive(Clone, Copy, Debug, PartialEq, Eq, Structural)]
pub enum ParseError {
    /// A hint that the state needs is absent, or is not what its place asks for.
    MissingHint,
    /// The puzzle is not a singleton wrapped around a state layer.
    NonStandardLayer,
    /// A puzzle could not be run to learn what it creates.
    MismatchedOutput,
    /// The spend creates no coin with an odd amount.
    MissingChild,
    /// A solution or an output does not have the structure its place asks for.
    DecodeError,
}

} // verus!
