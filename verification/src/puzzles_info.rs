use crate::bytes32::Bytes32;
use crate::clvm::{
    clvm_decode, decode_program, extends, has, new_allocator, new_atom, new_uint, run, stands_for,
    stands_somewhere_for, tree, Tree,
};
use crate::conditions::{create_coin_of, CreateCoinView};
use crate::number::lemma_signed_be_of_int_atom;
use crate::sexp::{lemma_list_items_of_tree, list_items};
use crate::coin::ParseError;
use crate::construct::{curried, curry, lemma_curry_hash, list_of, quote, quoted, tree_hashes};
use crate::hash::{curry_hash, curry_tree_hash, tree_hash, tree_hash_of, views};
use crate::layers::byte_atom;
use crate::merkle_tree::{merkle_root, MerkleTree};
use crate::number::{int_atom, magnitude, signed_be, signed_be_low_digit};
use crate::puzzles::{
    ADMIN_FILTER_PUZZLE, ADMIN_FILTER_PUZZLE_HASH, CREATE_COIN, CREATE_PUZZLE_ANNOUNCEMENT,
    ORACLE_ANNOUNCEMENT, WRITER_FILTER_PUZZLE, WRITER_FILTER_PUZZLE_HASH,
};
use crate::sexp::{byte_seqs, list_tree};
use clvmr::{Allocator, NodePtr};
use vstd::prelude::*;

verus! {

/// What a delegated puzzle is allowed to do, and for whom.
#[derive(Debug, Clone, Copy, PartialEq, Eq)]
#[must_use]
pub enum DelegatedPuzzleInfo {
    /// An admin, known by the hash of its inner puzzle.
    Admin(Bytes32),
    /// A writer, known by the hash of its inner puzzle.
    Writer(Bytes32),
    /// An oracle, which anyone may spend by paying the fee to the puzzle hash.
    Oracle(Bytes32, u64),
}

/// The mathematical value of a [`DelegatedPuzzleInfo`].
pub enum InfoView {
    Admin(Seq<u8>),
    Writer(Seq<u8>),
    Oracle(Seq<u8>, u64),
}

impl View for DelegatedPuzzleInfo {
    type V = InfoView;

    open spec fn view(&self) -> InfoView {
        match *self {
            DelegatedPuzzleInfo::Admin(h) => InfoView::Admin(h@),
            DelegatedPuzzleInfo::Writer(h) => InfoView::Writer(h@),
            DelegatedPuzzleInfo::Oracle(h, fee) => InfoView::Oracle(h@, fee),
        }
    }
}

/// A puzzle that may spend a store on its owner's behalf: its hash, what it is,
/// and the handle of its full program where that has been built.
#[derive(Debug, Clone, Copy, PartialEq, Eq)]
#[must_use]
pub struct DelegatedPuzzle {
    pub puzzle_hash: Bytes32,
    pub puzzle_info: DelegatedPuzzleInfo,
    pub full_puzzle: Option<NodePtr>,
}

/// The mathematical value of a [`DelegatedPuzzle`], without its cached program.
pub struct DelegatedPuzzleView {
    pub puzzle_hash: Seq<u8>,
    pub puzzle_info: InfoView,
}

impl View for DelegatedPuzzle {
    type V = DelegatedPuzzleView;

    open spec fn view(&self) -> DelegatedPuzzleView {
        DelegatedPuzzleView { puzzle_hash: self.puzzle_hash@, puzzle_info: self.puzzle_info@ }
    }
}

/// The kind of a delegated puzzle as a hint names it. The tag 0 is left out so
/// that no kind is written as the empty atom.
#[derive(Debug, Clone, Copy, PartialEq, Eq, Structural)]
pub enum HintType {
    AdminPuzzle,
    WriterPuzzle,
    OraclePuzzle,
}

impl HintType {
    /// The tag byte of the kind: 1 for an admin, 2 for a writer, 3 for an oracle.
    pub open spec fn tag(self) -> u8 {
        match self {
            HintType::AdminPuzzle => 1,
            HintType::WriterPuzzle => 2,
            HintType::OraclePuzzle => 3,
        }
    }

    /// The tag byte of the kind.
    pub fn value(&self) -> (r: u8)
        ensures
            r == self.tag(),
    {
        match self {
            HintType::AdminPuzzle => 1,
            HintType::WriterPuzzle => 2,
            HintType::OraclePuzzle => 3,
        }
    }

    /// The kind that a tag byte names, if it names one.
    pub fn from_value(tag: u8) -> (r: Option<HintType>)
        ensures
            match r {
                Some(kind) => kind.tag() == tag,
                None => tag != 1 && tag != 2 && tag != 3,
            },
    {
        if tag == 1 {
            Some(HintType::AdminPuzzle)
        } else if tag == 2 {
            Some(HintType::WriterPuzzle)
        } else if tag == 3 {
            Some(HintType::OraclePuzzle)
        } else {
            None
        }
    }
}

/// The keys under which a launcher's key-value list carries a store's state.
#[derive(Debug, Clone, Copy, PartialEq, Eq, Structural)]
pub enum HintKeys {
    /// The metadata, under the key `m`.
    MetadataReveal,
    /// The owner and the delegated puzzles, under the key `h`.
    DelegationLayerInfo,
}

impl HintKeys {
    /// The bytes of the key.
    pub open spec fn bytes(self) -> Seq<u8> {
        match self {
            HintKeys::MetadataReveal => seq![0x6du8],
            HintKeys::DelegationLayerInfo => seq![0x68u8],
        }
    }

    /// The bytes of the key.
    pub fn value(&self) -> (r: Vec<u8>)
        ensures
            r@ == self.bytes(),
    {
        let mut key: Vec<u8> = Vec::new();
        match self {
            HintKeys::MetadataReveal => key.push(0x6d),
            HintKeys::DelegationLayerInfo => key.push(0x68),
        }
        assert(key@ =~= self.bytes());
        key
    }
}

/// The two conditions of an oracle puzzle: it pays the fee to the payment
/// puzzle hash, and it announces the byte `$`.
pub open spec fn oracle_conditions(payment_puzzle_hash: Seq<u8>, fee: u64) -> Seq<Tree> {
    seq![
        list_tree(
            seq![
                byte_atom(CREATE_COIN),
                Tree::Atom(payment_puzzle_hash),
                Tree::Atom(int_atom(fee as int)),
            ],
        ),
        list_tree(seq![byte_atom(CREATE_PUZZLE_ANNOUNCEMENT), byte_atom(ORACLE_ANNOUNCEMENT)]),
    ]
}

/// The oracle puzzle: the quotation of its two conditions.
pub open spec fn oracle_tree(payment_puzzle_hash: Seq<u8>, fee: u64) -> Tree {
    quoted(list_tree(oracle_conditions(payment_puzzle_hash, fee)))
}

/// The hash of the delegated puzzle that `info` describes, computed without the
/// inner puzzle: for an admin and a writer, the filter's hash curried with the
/// inner puzzle's hash; for an oracle, the hash of its program.
pub open spec fn info_hash(info: InfoView) -> Seq<u8> {
    match info {
        InfoView::Admin(inner) => curry_hash(ADMIN_FILTER_PUZZLE_HASH@, seq![inner]),
        InfoView::Writer(inner) => curry_hash(WRITER_FILTER_PUZZLE_HASH@, seq![inner]),
        InfoView::Oracle(payment_puzzle_hash, fee) => tree_hash_of(
            oracle_tree(payment_puzzle_hash, fee),
        ),
    }
}

/// The fee that a hint writes: the lowest 64 bits of the magnitude of the
/// two's complement integer that the bytes write.
pub open spec fn hint_fee(bytes: Seq<u8>) -> u64 {
    (magnitude(signed_be(bytes)) % 0x1_0000_0000_0000_0000) as u64
}

/// The delegated puzzle that the hints name from place `at` on, and the place
/// after it. A puzzle is named by a tag of one byte, 1 for an admin, 2 for a
/// writer and 3 for an oracle, by a hash of 32 bytes and, for an oracle, by the
/// fee. Where hints are absent, the tag is another one or the hash has another
/// length, the hints name none.
pub open spec fn hinted_info(hints: Seq<Seq<u8>>, at: int) -> Option<(InfoView, int)> {
    if at < 0 || hints.len() - at < 2 || hints[at].len() != 1 || hints[at + 1].len() != 32 {
        None
    } else if hints[at][0] == 1 {
        Some((InfoView::Admin(hints[at + 1]), at + 2))
    } else if hints[at][0] == 2 {
        Some((InfoView::Writer(hints[at + 1]), at + 2))
    } else if hints[at][0] == 3 && hints.len() - at >= 3 {
        Some((InfoView::Oracle(hints[at + 1], hint_fee(hints[at + 2])), at + 3))
    } else {
        None
    }
}

/// Hints that stop before a puzzle is fully named, or that carry a tag other
/// than 1, 2 and 3, name no puzzle.
pub proof fn lemma_hints_rejected(hints: Seq<Seq<u8>>, at: int)
    requires
        0 <= at <= hints.len(),
    ensures
        hints.len() - at < 2 ==> hinted_info(hints, at) is None,
        hints.len() - at == 2 && hints[at] == seq![3u8] ==> hinted_info(hints, at) is None,
        hints.len() - at >= 2 && hints[at] != seq![1u8] && hints[at] != seq![2u8] && hints[at]
            != seq![3u8] ==> hinted_info(hints, at) is None,
        hints.len() - at >= 2 && hints[at + 1].len() != 32 ==> hinted_info(hints, at) is None,
{
    if hints.len() - at >= 2 && hints[at].len() == 1 {
        let tag = hints[at][0];
        assert(hints[at] =~= seq![tag]);
    }
}

/// The full program of the delegated puzzle that `info` describes: for an admin
/// and a writer, `filter` curried with `inner_puzzle`; for an oracle, the
/// oracle's program.
pub open spec fn full_puzzle_of(info: InfoView, filter: Tree, inner_puzzle: Tree) -> Tree {
    match info {
        InfoView::Admin(_) => curried(filter, seq![inner_puzzle]),
        InfoView::Writer(_) => curried(filter, seq![inner_puzzle]),
        InfoView::Oracle(payment_puzzle_hash, fee) => oracle_tree(payment_puzzle_hash, fee),
    }
}

/// For each kind of delegated puzzle, the hash computed from the info alone is
/// the hash of the full program: for an admin and a writer, where `filter` is
/// the kind's filter and the info names the hash of `inner_puzzle`.
pub proof fn lemma_info_hash_is_full_puzzle_hash(info: InfoView, filter: Tree, inner_puzzle: Tree)
    requires
        info matches InfoView::Admin(inner) ==> tree_hash_of(filter) == ADMIN_FILTER_PUZZLE_HASH@
            && inner == tree_hash_of(inner_puzzle),
        info matches InfoView::Writer(inner) ==> tree_hash_of(filter) == WRITER_FILTER_PUZZLE_HASH@
            && inner == tree_hash_of(inner_puzzle),
    ensures
        tree_hash_of(full_puzzle_of(info, filter, inner_puzzle)) == info_hash(info),
{
    lemma_curry_hash(filter, seq![inner_puzzle]);
    assert(tree_hashes(seq![inner_puzzle]) =~= seq![tree_hash_of(inner_puzzle)]);
}

/// An oracle's program quotes a list of exactly two conditions. The first
/// creates a coin that pays the fee to the payment puzzle hash, without memos;
/// the second announces the byte `$`.
pub proof fn lemma_oracle_conditions(payment_puzzle_hash: Seq<u8>, fee: u64)
    requires
        payment_puzzle_hash.len() == 32,
    ensures
        oracle_tree(payment_puzzle_hash, fee) == quoted(
            list_tree(oracle_conditions(payment_puzzle_hash, fee)),
        ),
        list_items(list_tree(oracle_conditions(payment_puzzle_hash, fee))) == Some(
            oracle_conditions(payment_puzzle_hash, fee),
        ),
        oracle_conditions(payment_puzzle_hash, fee).len() == 2,
        create_coin_of(oracle_conditions(payment_puzzle_hash, fee)[0]) == Some(
            CreateCoinView { puzzle_hash: payment_puzzle_hash, amount: fee, memos: Seq::empty() },
        ),
        list_items(oracle_conditions(payment_puzzle_hash, fee)[1]) == Some(
            seq![byte_atom(CREATE_PUZZLE_ANNOUNCEMENT), byte_atom(ORACLE_ANNOUNCEMENT)],
        ),
{
    let conditions = oracle_conditions(payment_puzzle_hash, fee);
    lemma_list_items_of_tree(conditions);
    let first = seq![
        byte_atom(CREATE_COIN),
        Tree::Atom(payment_puzzle_hash),
        Tree::Atom(int_atom(fee as int)),
    ];
    lemma_list_items_of_tree(first);
    lemma_list_items_of_tree(seq![byte_atom(CREATE_PUZZLE_ANNOUNCEMENT), byte_atom(ORACLE_ANNOUNCEMENT)]);
    lemma_signed_be_of_int_atom(fee as int);
    assert(signed_be(seq![CREATE_COIN]) == CREATE_COIN);
}

/// The error of a program that could not be built.
#[derive(Debug, Clone, Copy, PartialEq, Eq, Structural)]
pub enum PuzzleError {
    /// A filter's program could not be loaded, or is not the one its hash names.
    CouldNotLoadPuzzle,
    /// An admin's or a writer's program was asked for without its inner puzzle.
    MissingInnerPuzzleReveal,
    /// The arena refused to allocate.
    CouldNotBuildPuzzle,
}

/// Loads a filter from its bytes and curries it with an inner puzzle, after it
/// has checked the filter against its hash. A filter that does not decode, or
/// that decodes to a program with another hash, could not be loaded; once the
/// filter is loaded, only the arena can refuse to build the program.
fn filter_layer_full_puzzle(
    allocator: &mut Allocator,
    filter: &[u8],
    filter_hash: &Bytes32,
    inner_puzzle: NodePtr,
) -> (r: Result<NodePtr, PuzzleError>)
    requires
        has(*old(allocator), inner_puzzle),
    ensures
        extends(*old(allocator), *final(allocator)),
        r matches Ok(n) ==> has(*final(allocator), n) && tree(*final(allocator), n) == curried(
            clvm_decode(filter@),
            seq![tree(*old(allocator), inner_puzzle)],
        ) && tree_hash_of(clvm_decode(filter@)) == filter_hash@,
        tree_hash_of(clvm_decode(filter@)) != filter_hash@ ==> r is Err && r->Err_0
            == PuzzleError::CouldNotLoadPuzzle,
        r matches Err(e) ==> e == PuzzleError::CouldNotLoadPuzzle || (e
            == PuzzleError::CouldNotBuildPuzzle && tree_hash_of(clvm_decode(filter@))
            == filter_hash@),
{
    let program = match decode_program(allocator, filter) {
        Some(p) => p,
        None => return Err(PuzzleError::CouldNotLoadPuzzle),
    };
    if !tree_hash(allocator, program).same(filter_hash) {
        return Err(PuzzleError::CouldNotLoadPuzzle);
    }
    let mut args: Vec<NodePtr> = Vec::new();
    args.push(inner_puzzle);
    let ghost before = *allocator;
    match curry(allocator, program, &args) {
        Some(n) => {
            assert(args@.map_values(|m: NodePtr| tree(before, m)) =~= seq![
                tree(*old(allocator), inner_puzzle),
            ]);
            Ok(n)
        },
        None => Err(PuzzleError::CouldNotBuildPuzzle),
    }
}

/// The hash of a filter curried with an inner puzzle, from the two hashes.
fn filter_layer_hash(filter_hash: [u8; 32], inner_puzzle_hash: &Bytes32) -> (r: Bytes32)
    ensures
        r@ == curry_hash(filter_hash@, seq![inner_puzzle_hash@]),
{
    let mut args: Vec<Bytes32> = Vec::new();
    args.push(*inner_puzzle_hash);
    assert(views(args@) =~= seq![inner_puzzle_hash@]);
    curry_tree_hash(&Bytes32::new(filter_hash), &args)
}

impl DelegatedPuzzle {
    /// The hash is the one that the info gives, and a cached program, where
    /// there is one, is a valid handle of `a` to a program with that hash.
    pub open spec fn wf(&self, a: Allocator) -> bool {
        &&& self.puzzle_hash@ == info_hash(self.puzzle_info@)
        &&& self.full_puzzle matches Some(n) ==> has(a, n) && tree_hash_of(tree(a, n))
            == self.puzzle_hash@
    }

    /// The cached program is what hints give in `a`: an oracle carries the
    /// handle of its program, an admin and a writer carry none.
    pub open spec fn as_hinted(&self, a: Allocator) -> bool {
        match self.puzzle_info {
            DelegatedPuzzleInfo::Oracle(hash, fee) => self.full_puzzle matches Some(m)
                && stands_for(a, m, oracle_tree(hash@, fee)),
            _ => self.full_puzzle is None,
        }
    }

    /// Builds the full program of an admin: the admin filter curried with the
    /// inner puzzle. It fails with `CouldNotLoadPuzzle` where the filter does not
    /// decode to the program that its hash names, and else only where the arena
    /// refuses, with `CouldNotBuildPuzzle`.
    pub fn admin_layer_full_puzzle(allocator: &mut Allocator, inner_puzzle: NodePtr) -> (r: Result<
        NodePtr,
        PuzzleError,
    >)
        requires
            has(*old(allocator), inner_puzzle),
        ensures
            extends(*old(allocator), *final(allocator)),
            r matches Ok(n) ==> has(*final(allocator), n) && tree(*final(allocator), n) == curried(
                clvm_decode(ADMIN_FILTER_PUZZLE@),
                seq![tree(*old(allocator), inner_puzzle)],
            ) && tree_hash_of(clvm_decode(ADMIN_FILTER_PUZZLE@)) == ADMIN_FILTER_PUZZLE_HASH@,
            tree_hash_of(clvm_decode(ADMIN_FILTER_PUZZLE@)) != ADMIN_FILTER_PUZZLE_HASH@ ==> r is Err && r->Err_0
                == PuzzleError::CouldNotLoadPuzzle,
            r matches Err(e) ==> e == PuzzleError::CouldNotLoadPuzzle || (e
                == PuzzleError::CouldNotBuildPuzzle && tree_hash_of(clvm_decode(ADMIN_FILTER_PUZZLE@))
                == ADMIN_FILTER_PUZZLE_HASH@),
    {
        filter_layer_full_puzzle(
            allocator,
            ADMIN_FILTER_PUZZLE.as_slice(),
            &Bytes32::new(ADMIN_FILTER_PUZZLE_HASH),
            inner_puzzle,
        )
    }

    /// The admin whose inner puzzle is given, with its full program. The hash is
    /// computed from the hashes of the filter and of the inner puzzle, and is the
    /// hash of the full program. It fails as building the full program fails.
    pub fn from_admin_inner_puzzle(allocator: &mut Allocator, inner_puzzle: NodePtr) -> (r: Result<
        Self,
        PuzzleError,
    >)
        requires
            has(*old(allocator), inner_puzzle),
        ensures
            extends(*old(allocator), *final(allocator)),
            r matches Ok(p) ==> {
                &&& p.puzzle_info@ == InfoView::Admin(tree_hash_of(tree(*old(allocator), inner_puzzle)))
                &&& p.wf(*final(allocator))
                &&& p.full_puzzle matches Some(n) && tree(*final(allocator), n) == curried(
                    clvm_decode(ADMIN_FILTER_PUZZLE@),
                    seq![tree(*old(allocator), inner_puzzle)],
                )
            },
            tree_hash_of(clvm_decode(ADMIN_FILTER_PUZZLE@)) != ADMIN_FILTER_PUZZLE_HASH@ ==> r is Err && r->Err_0
                == PuzzleError::CouldNotLoadPuzzle,
            r matches Err(e) ==> e == PuzzleError::CouldNotLoadPuzzle || (e
                == PuzzleError::CouldNotBuildPuzzle && tree_hash_of(clvm_decode(ADMIN_FILTER_PUZZLE@))
                == ADMIN_FILTER_PUZZLE_HASH@),
    {
        let inner_puzzle_hash = tree_hash(allocator, inner_puzzle);
        let puzzle_hash = filter_layer_hash(ADMIN_FILTER_PUZZLE_HASH, &inner_puzzle_hash);
        let full_puzzle = Self::admin_layer_full_puzzle(allocator, inner_puzzle)?;
        proof {
            let inner = tree(*old(allocator), inner_puzzle);
            lemma_curry_hash(clvm_decode(ADMIN_FILTER_PUZZLE@), seq![inner]);
            assert(tree_hashes(seq![inner]) =~= seq![tree_hash_of(inner)]);
        }
        Ok(
            DelegatedPuzzle {
                puzzle_hash,
                puzzle_info: DelegatedPuzzleInfo::Admin(inner_puzzle_hash),
                full_puzzle: Some(full_puzzle),
            },
        )
    }

    /// Builds the full program of a writer: the writer filter curried with the
    /// inner puzzle. It fails with `CouldNotLoadPuzzle` where the filter does not
    /// decode to the program that its hash names, and else only where the arena
    /// refuses, with `CouldNotBuildPuzzle`.
    pub fn writer_layer_full_puzzle(allocator: &mut Allocator, inner_puzzle: NodePtr) -> (r: Result<
        NodePtr,
        PuzzleError,
    >)
        requires
            has(*old(allocator), inner_puzzle),
        ensures
            extends(*old(allocator), *final(allocator)),
            r matches Ok(n) ==> has(*final(allocator), n) && tree(*final(allocator), n) == curried(
                clvm_decode(WRITER_FILTER_PUZZLE@),
                seq![tree(*old(allocator), inner_puzzle)],
            ) && tree_hash_of(clvm_decode(WRITER_FILTER_PUZZLE@)) == WRITER_FILTER_PUZZLE_HASH@,
            tree_hash_of(clvm_decode(WRITER_FILTER_PUZZLE@)) != WRITER_FILTER_PUZZLE_HASH@ ==> r is Err && r->Err_0
                == PuzzleError::CouldNotLoadPuzzle,
            r matches Err(e) ==> e == PuzzleError::CouldNotLoadPuzzle || (e
                == PuzzleError::CouldNotBuildPuzzle && tree_hash_of(clvm_decode(WRITER_FILTER_PUZZLE@))
                == WRITER_FILTER_PUZZLE_HASH@),
    {
        filter_layer_full_puzzle(
            allocator,
            WRITER_FILTER_PUZZLE.as_slice(),
            &Bytes32::new(WRITER_FILTER_PUZZLE_HASH),
            inner_puzzle,
        )
    }

    /// The writer whose inner puzzle is given, with its full program. The hash is
    /// computed from the hashes of the filter and of the inner puzzle, and is the
    /// hash of the full program. It fails as building the full program fails.
    pub fn from_writer_inner_puzzle(allocator: &mut Allocator, inner_puzzle: NodePtr) -> (r: Result<
        Self,
        PuzzleError,
    >)
        requires
            has(*old(allocator), inner_puzzle),
        ensures
            extends(*old(allocator), *final(allocator)),
            r matches Ok(p) ==> {
                &&& p.puzzle_info@ == InfoView::Writer(tree_hash_of(tree(*old(allocator), inner_puzzle)))
                &&& p.wf(*final(allocator))
                &&& p.full_puzzle matches Some(n) && tree(*final(allocator), n) == curried(
                    clvm_decode(WRITER_FILTER_PUZZLE@),
                    seq![tree(*old(allocator), inner_puzzle)],
                )
            },
            tree_hash_of(clvm_decode(WRITER_FILTER_PUZZLE@)) != WRITER_FILTER_PUZZLE_HASH@ ==> r is Err && r->Err_0
                == PuzzleError::CouldNotLoadPuzzle,
            r matches Err(e) ==> e == PuzzleError::CouldNotLoadPuzzle || (e
                == PuzzleError::CouldNotBuildPuzzle && tree_hash_of(clvm_decode(WRITER_FILTER_PUZZLE@))
                == WRITER_FILTER_PUZZLE_HASH@),
    {
        let inner_puzzle_hash = tree_hash(allocator, inner_puzzle);
        let puzzle_hash = filter_layer_hash(WRITER_FILTER_PUZZLE_HASH, &inner_puzzle_hash);
        let full_puzzle = Self::writer_layer_full_puzzle(allocator, inner_puzzle)?;
        proof {
            let inner = tree(*old(allocator), inner_puzzle);
            lemma_curry_hash(clvm_decode(WRITER_FILTER_PUZZLE@), seq![inner]);
            assert(tree_hashes(seq![inner]) =~= seq![tree_hash_of(inner)]);
        }
        Ok(
            DelegatedPuzzle {
                puzzle_hash,
                puzzle_info: DelegatedPuzzleInfo::Writer(inner_puzzle_hash),
                full_puzzle: Some(full_puzzle),
            },
        )
    }

    /// Builds the program of an oracle: the quotation of the two conditions that
    /// pay `oracle_fee` to `oracle_puzzle_hash` and announce the byte `$`. It
    /// fails only where the arena refuses, with `CouldNotBuildPuzzle`.
    pub fn oracle_layer_full_puzzle(
        allocator: &mut Allocator,
        oracle_puzzle_hash: Bytes32,
        oracle_fee: u64,
    ) -> (r: Result<NodePtr, PuzzleError>)
        ensures
            extends(*old(allocator), *final(allocator)),
            r matches Ok(n) ==> has(*final(allocator), n) && tree(*final(allocator), n)
                == oracle_tree(oracle_puzzle_hash@, oracle_fee),
            r matches Err(e) ==> e == PuzzleError::CouldNotBuildPuzzle,
    {
        let create_coin = match new_atom(allocator, &[CREATE_COIN]) {
            Some(n) => n,
            None => return Err(PuzzleError::CouldNotBuildPuzzle),
        };
        assert([CREATE_COIN]@ =~= seq![CREATE_COIN]);
        let ph = match new_atom(allocator, oracle_puzzle_hash.bytes.as_slice()) {
            Some(n) => n,
            None => return Err(PuzzleError::CouldNotBuildPuzzle),
        };
        let fee = match new_uint(allocator, oracle_fee) {
            Some(n) => n,
            None => return Err(PuzzleError::CouldNotBuildPuzzle),
        };
        let mut first: Vec<NodePtr> = Vec::new();
        first.push(create_coin);
        first.push(ph);
        first.push(fee);
        let ghost before_first = *allocator;
        let first_condition = match list_of(allocator, &first) {
            Some(n) => n,
            None => return Err(PuzzleError::CouldNotBuildPuzzle),
        };
        assert(first@.map_values(|m: NodePtr| tree(before_first, m)) =~= seq![
            byte_atom(CREATE_COIN),
            Tree::Atom(oracle_puzzle_hash@),
            Tree::Atom(int_atom(oracle_fee as int)),
        ]);
        let announce = match new_atom(allocator, &[CREATE_PUZZLE_ANNOUNCEMENT]) {
            Some(n) => n,
            None => return Err(PuzzleError::CouldNotBuildPuzzle),
        };
        assert([CREATE_PUZZLE_ANNOUNCEMENT]@ =~= seq![CREATE_PUZZLE_ANNOUNCEMENT]);
        let payload = match new_atom(allocator, &[ORACLE_ANNOUNCEMENT]) {
            Some(n) => n,
            None => return Err(PuzzleError::CouldNotBuildPuzzle),
        };
        assert([ORACLE_ANNOUNCEMENT]@ =~= seq![ORACLE_ANNOUNCEMENT]);
        let mut second: Vec<NodePtr> = Vec::new();
        second.push(announce);
        second.push(payload);
        let ghost before_second = *allocator;
        let second_condition = match list_of(allocator, &second) {
            Some(n) => n,
            None => return Err(PuzzleError::CouldNotBuildPuzzle),
        };
        assert(second@.map_values(|m: NodePtr| tree(before_second, m)) =~= seq![
            byte_atom(CREATE_PUZZLE_ANNOUNCEMENT),
            byte_atom(ORACLE_ANNOUNCEMENT),
        ]);
        let mut both: Vec<NodePtr> = Vec::new();
        both.push(first_condition);
        both.push(second_condition);
        let ghost before_both = *allocator;
        let conditions = match list_of(allocator, &both) {
            Some(n) => n,
            None => return Err(PuzzleError::CouldNotBuildPuzzle),
        };
        assert(both@.map_values(|m: NodePtr| tree(before_both, m)) =~= oracle_conditions(
            oracle_puzzle_hash@,
            oracle_fee,
        ));
        match quote(allocator, conditions) {
            Some(n) => Ok(n),
            None => Err(PuzzleError::CouldNotBuildPuzzle),
        }
    }

    /// Builds the program of an oracle and runs it on `solution`. What it
    /// returns, whatever the solution, is the list of the oracle's two
    /// conditions.
    pub fn oracle_layer_output(
        allocator: &mut Allocator,
        oracle_puzzle_hash: Bytes32,
        oracle_fee: u64,
        solution: NodePtr,
    ) -> (r: Option<NodePtr>)
        requires
            has(*old(allocator), solution),
        ensures
            extends(*old(allocator), *final(allocator)),
            r matches Some(n) ==> has(*final(allocator), n) && tree(*final(allocator), n)
                == list_tree(oracle_conditions(oracle_puzzle_hash@, oracle_fee)),
    {
        let puzzle = match Self::oracle_layer_full_puzzle(allocator, oracle_puzzle_hash, oracle_fee) {
            Ok(n) => n,
            Err(_) => return None,
        };
        run(allocator, puzzle, solution)
    }

    /// The oracle that is paid `oracle_fee` at `oracle_puzzle_hash`, with the
    /// handle of its program. The program is built in an arena of this call's
    /// own, so the handle stands for it in that arena and in no arena of the
    /// caller. It fails only where that arena refuses, with
    /// `CouldNotBuildPuzzle`.
    pub fn new_oracle(oracle_puzzle_hash: Bytes32, oracle_fee: u64) -> (r: Result<Self, PuzzleError>)
        ensures
            r matches Ok(p) ==> {
                &&& p.puzzle_info@ == InfoView::Oracle(oracle_puzzle_hash@, oracle_fee)
                &&& p.puzzle_hash@ == info_hash(p.puzzle_info@)
                &&& p.full_puzzle matches Some(n) && stands_somewhere_for(
                    n,
                    oracle_tree(oracle_puzzle_hash@, oracle_fee),
                )
            },
            r matches Err(e) ==> e == PuzzleError::CouldNotBuildPuzzle,
    {
        let mut allocator = new_allocator();
        let full_puzzle = Self::oracle_layer_full_puzzle(
            &mut allocator,
            oracle_puzzle_hash,
            oracle_fee,
        )?;
        let puzzle_hash = tree_hash(&allocator, full_puzzle);
        proof {
            let arena = allocator;
            assert(stands_for(
                arena,
                full_puzzle,
                oracle_tree(oracle_puzzle_hash@, oracle_fee),
            ));
            assert(stands_somewhere_for(
                full_puzzle,
                oracle_tree(oracle_puzzle_hash@, oracle_fee),
            ));
        }
        Ok(
            DelegatedPuzzle {
                puzzle_hash,
                puzzle_info: DelegatedPuzzleInfo::Oracle(oracle_puzzle_hash, oracle_fee),
                full_puzzle: Some(full_puzzle),
            },
        )
    }

    /// The delegated puzzle that the hints name from place `at` on, with the
    /// place after it. An admin and a writer come without their program; an
    /// oracle comes with its program built in `allocator`, and where the arena
    /// refuses to build it, the hint counts as missing.
    pub fn from_hint_at(allocator: &mut Allocator, hints: &Vec<Vec<u8>>, at: usize) -> (r: Result<
        (Self, usize),
        ParseError,
    >)
        ensures
            extends(*old(allocator), *final(allocator)),
            match hinted_info(byte_seqs(hints@), at as int) {
                None => r is Err && r->Err_0 == ParseError::MissingHint,
                Some((info, next)) => match r {
                    Ok((p, n)) => {
                        &&& n == next
                        &&& p.puzzle_info@ == info
                        &&& p.wf(*final(allocator))
                        &&& match info {
                            InfoView::Oracle(hash, fee) => p.full_puzzle matches Some(m) && tree(
                                *final(allocator),
                                m,
                            ) == oracle_tree(hash, fee),
                            _ => p.full_puzzle is None,
                        }
                    },
                    Err(e) => e == ParseError::MissingHint && info is Oracle,
                },
            },
    {
        if hints.len() < 2 || at > hints.len() - 2 {
            return Err(ParseError::MissingHint);
        }
        let ghost h = byte_seqs(hints@);
        assert(h[at as int] == hints@[at as int]@);
        assert(h[at + 1] == hints@[at + 1]@);
        if hints[at].len() != 1 {
            return Err(ParseError::MissingHint);
        }
        let hash = match Bytes32::from_slice(hints[at + 1].as_slice()) {
            Some(hash) => hash,
            None => return Err(ParseError::MissingHint),
        };
        match HintType::from_value(hints[at][0]) {
            Some(HintType::AdminPuzzle) => Ok(
                (
                    DelegatedPuzzle {
                        puzzle_hash: filter_layer_hash(ADMIN_FILTER_PUZZLE_HASH, &hash),
                        puzzle_info: DelegatedPuzzleInfo::Admin(hash),
                        full_puzzle: None,
                    },
                    at + 2,
                ),
            ),
            Some(HintType::WriterPuzzle) => Ok(
                (
                    DelegatedPuzzle {
                        puzzle_hash: filter_layer_hash(WRITER_FILTER_PUZZLE_HASH, &hash),
                        puzzle_info: DelegatedPuzzleInfo::Writer(hash),
                        full_puzzle: None,
                    },
                    at + 2,
                ),
            ),
            Some(HintType::OraclePuzzle) => {
                if hints.len() - at < 3 {
                    return Err(ParseError::MissingHint);
                }
                assert(h[at + 2] == hints@[at + 2]@);
                let fee = match signed_be_low_digit(hints[at + 2].as_slice()) {
                    Some(digit) => digit,
                    None => 0,
                };
                let full_puzzle = match Self::oracle_layer_full_puzzle(allocator, hash, fee) {
                    Ok(n) => n,
                    Err(_) => return Err(ParseError::MissingHint),
                };
                Ok(
                    (
                        DelegatedPuzzle {
                            puzzle_hash: tree_hash(allocator, full_puzzle),
                            puzzle_info: DelegatedPuzzleInfo::Oracle(hash, fee),
                            full_puzzle: Some(full_puzzle),
                        },
                        at + 3,
                    ),
                )
            },
            None => Err(ParseError::MissingHint),
        }
    }

    /// Takes the first delegated puzzle that the hints name off their front.
    /// Where they name none, or the arena refuses to build an oracle's program,
    /// the hints stay as they were.
    pub fn from_hint(allocator: &mut Allocator, remaining_hints: &mut Vec<Vec<u8>>) -> (r: Result<
        Self,
        ParseError,
    >)
        ensures
            extends(*old(allocator), *final(allocator)),
            match hinted_info(byte_seqs(old(remaining_hints)@), 0) {
                None => {
                    &&& r is Err
                    &&& r->Err_0 == ParseError::MissingHint
                    &&& final(remaining_hints)@ == old(remaining_hints)@
                },
                Some((info, next)) => match r {
                    Ok(p) => {
                        &&& final(remaining_hints)@ == old(remaining_hints)@.skip(next)
                        &&& p.puzzle_info@ == info
                        &&& p.wf(*final(allocator))
                        &&& match info {
                            InfoView::Oracle(hash, fee) => p.full_puzzle matches Some(m) && tree(
                                *final(allocator),
                                m,
                            ) == oracle_tree(hash, fee),
                            _ => p.full_puzzle is None,
                        }
                    },
                    Err(e) => {
                        &&& e == ParseError::MissingHint
                        &&& info is Oracle
                        &&& final(remaining_hints)@ == old(remaining_hints)@
                    },
                },
            },
    {
        let (puzzle, next) = Self::from_hint_at(allocator, remaining_hints, 0)?;
        let mut taken: usize = 0;
        assert(old(remaining_hints)@.skip(0) =~= old(remaining_hints)@);
        while taken < next
            invariant
                taken <= next <= old(remaining_hints)@.len(),
                remaining_hints@ == old(remaining_hints)@.skip(taken as int),
            decreases next - taken,
        {
            remaining_hints.remove(0);
            taken = taken + 1;
            assert(remaining_hints@ =~= old(remaining_hints)@.skip(taken as int));
        }
        Ok(puzzle)
    }

    /// The tree of the full program of a puzzle: the cached program where there
    /// is one, else the filter curried with the revealed inner puzzle, or the
    /// oracle's program.
    pub open spec fn full_puzzle_tree(&self, a: Allocator, inner_puzzle_reveal: Option<NodePtr>) -> Tree {
        match self.full_puzzle {
            Some(n) => tree(a, n),
            None => match self.puzzle_info {
                DelegatedPuzzleInfo::Admin(_) => curried(
                    clvm_decode(ADMIN_FILTER_PUZZLE@),
                    seq![tree(a, inner_puzzle_reveal.unwrap())],
                ),
                DelegatedPuzzleInfo::Writer(_) => curried(
                    clvm_decode(WRITER_FILTER_PUZZLE@),
                    seq![tree(a, inner_puzzle_reveal.unwrap())],
                ),
                DelegatedPuzzleInfo::Oracle(hash, fee) => oracle_tree(hash@, fee),
            },
        }
    }

    /// Whether the full program of a puzzle cannot be had for want of the inner
    /// puzzle: none is cached, the puzzle is an admin's or a writer's, and no
    /// inner puzzle is revealed.
    pub open spec fn lacks_reveal(&self, inner_puzzle_reveal: Option<NodePtr>) -> bool {
        self.full_puzzle is None && !(self.puzzle_info is Oracle) && inner_puzzle_reveal is None
    }

    /// Whether the inner puzzle revealed for a puzzle without a cached program is
    /// the one that the puzzle's info names: an admin and a writer ask for a
    /// reveal with the hash in their info, an oracle for none.
    pub open spec fn reveal_fits(&self, a: Allocator, inner_puzzle_reveal: Option<NodePtr>) -> bool {
        match self.puzzle_info {
            DelegatedPuzzleInfo::Admin(inner) => inner_puzzle_reveal matches Some(n) && tree_hash_of(
                tree(a, n),
            ) == inner@,
            DelegatedPuzzleInfo::Writer(inner) => inner_puzzle_reveal matches Some(n)
                && tree_hash_of(tree(a, n)) == inner@,
            DelegatedPuzzleInfo::Oracle(_, _) => true,
        }
    }

    /// The handle of the full program: the cached one, handed back as it is, or
    /// one built now from the revealed inner puzzle or, for an oracle, from the
    /// info alone. A cached handle is valid in `allocator` only if it was so
    /// before; a handle built now always is. Where the puzzle is well-formed and
    /// the reveal is the one that its info names, the program has the puzzle's
    /// hash.
    pub fn get_full_puzzle(
        self,
        allocator: &mut Allocator,
        inner_puzzle_reveal: Option<NodePtr>,
    ) -> (r: Result<NodePtr, PuzzleError>)
        requires
            inner_puzzle_reveal matches Some(n) ==> has(*old(allocator), n),
        ensures
            extends(*old(allocator), *final(allocator)),
            self.lacks_reveal(inner_puzzle_reveal) <==> (r is Err && r->Err_0
                == PuzzleError::MissingInnerPuzzleReveal),
            self.full_puzzle matches Some(cached) ==> r == Ok::<NodePtr, PuzzleError>(cached)
                && *final(allocator) == *old(allocator),
            r matches Ok(n) ==> ((self.full_puzzle matches Some(cached) ==> has(
                *old(allocator),
                cached,
            )) ==> has(*final(allocator), n) && tree(*final(allocator), n) == self.full_puzzle_tree(
                *old(allocator),
                inner_puzzle_reveal,
            )),
            r matches Ok(n) ==> (self.wf(*old(allocator)) && (self.full_puzzle is None
                ==> self.reveal_fits(*old(allocator), inner_puzzle_reveal)) ==> tree_hash_of(
                tree(*final(allocator), n),
            ) == self.puzzle_hash@),
    {
        match self.full_puzzle {
            Some(full_puzzle) => Ok(full_puzzle),
            None => match self.puzzle_info {
                DelegatedPuzzleInfo::Admin(_) => match inner_puzzle_reveal {
                    Some(inner_puzzle) => {
                        proof {
                            let inner = tree(*old(allocator), inner_puzzle);
                            lemma_curry_hash(clvm_decode(ADMIN_FILTER_PUZZLE@), seq![inner]);
                            assert(tree_hashes(seq![inner]) =~= seq![tree_hash_of(inner)]);
                        }
                        Self::admin_layer_full_puzzle(allocator, inner_puzzle)
                    },
                    None => Err(PuzzleError::MissingInnerPuzzleReveal),
                },
                DelegatedPuzzleInfo::Writer(_) => match inner_puzzle_reveal {
                    Some(inner_puzzle) => {
                        proof {
                            let inner = tree(*old(allocator), inner_puzzle);
                            lemma_curry_hash(clvm_decode(WRITER_FILTER_PUZZLE@), seq![inner]);
                            assert(tree_hashes(seq![inner]) =~= seq![tree_hash_of(inner)]);
                        }
                        Self::writer_layer_full_puzzle(allocator, inner_puzzle)
                    },
                    None => Err(PuzzleError::MissingInnerPuzzleReveal),
                },
                DelegatedPuzzleInfo::Oracle(oracle_puzzle_hash, oracle_fee) => {
                    Self::oracle_layer_full_puzzle(allocator, oracle_puzzle_hash, oracle_fee)
                },
            },
        }
    }
}

/// The hashes of the given delegated puzzles, in order.
pub open spec fn puzzle_hashes(puzzles: Seq<DelegatedPuzzle>) -> Seq<Seq<u8>> {
    puzzles.map_values(|p: DelegatedPuzzle| p.puzzle_hash@)
}

/// The merkle tree over the hashes of the given delegated puzzles, in order.
pub fn merkle_tree_for_delegated_puzzles(delegated_puzzles: &Vec<DelegatedPuzzle>) -> (t: MerkleTree)
    ensures
        t.root@ == merkle_root(puzzle_hashes(delegated_puzzles@)),
{
    let mut leaves: Vec<Bytes32> = Vec::new();
    let mut i: usize = 0;
    while i < delegated_puzzles.len()
        invariant
            i <= delegated_puzzles@.len(),
            leaves@.len() == i,
            forall|j: int| 0 <= j < i ==> (#[trigger] leaves@[j])@ == delegated_puzzles@[j].puzzle_hash@,
        decreases delegated_puzzles@.len() - i,
    {
        leaves.push(delegated_puzzles[i].puzzle_hash);
        i = i + 1;
    }
    assert(views(leaves@) =~= puzzle_hashes(delegated_puzzles@));
    MerkleTree::new(&leaves)
}

/// The merkle root that commits to the given delegated puzzles, in order.
pub fn merkle_root_for_delegated_puzzles(delegated_puzzles: &Vec<DelegatedPuzzle>) -> (r: Bytes32)
    ensures
        r@ == merkle_root(puzzle_hashes(delegated_puzzles@)),
{
    merkle_tree_for_delegated_puzzles(delegated_puzzles).get_root()
}

} // verus!
