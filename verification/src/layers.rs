use crate::bytes32::Bytes32;
use crate::clvm::{atom_of, has, pair_of, tree, Tree};
use crate::conditions::tree_bytes32;
use crate::hash::{
    atom_hash, curry_hash, curry_tree_hash, pair_hash, tree_hash_atom, tree_hash_of, views,
};
use crate::metadata::{DataStoreMetadata, metadata_of, MetadataView};
use crate::puzzles::{
    DELEGATION_LAYER_PUZZLE_HASH, DL_METADATA_UPDATER_PUZZLE_HASH, NFT_STATE_LAYER_PUZZLE_HASH,
    SINGLETON_LAUNCHER_PUZZLE_HASH, SINGLETON_TOP_LAYER_PUZZLE_HASH,
};
use crate::sexp::{atom_bytes, list_items, node_bytes32, nodes_are};
use chia_puzzles::singleton::SingletonArgs;
use chia_sdk_parser::{Puzzle, SingletonPuzzle};
use clvm_utils::TreeHash;
use clvmr::{Allocator, NodePtr};
use vstd::prelude::*;

verus! {

/// The atom of one byte.
pub open spec fn byte_atom(b: u8) -> Tree {
    Tree::Atom(seq![b])
}

/// The program and the argument list of a curried program `(a (q . P) ARGS)`.
pub open spec fn uncurried(t: Tree) -> Option<(Tree, Tree)> {
    match list_items(t) {
        Some(items) => if items.len() == 3 && items[0] == byte_atom(2) {
            match items[1] {
                Tree::Pair(q, program) => if *q == byte_atom(1) {
                    Some((*program, items[2]))
                } else {
                    None
                },
                Tree::Atom(_) => None,
            }
        } else {
            None
        },
        None => None,
    }
}

/// The first argument and what follows it in an argument list
/// `(c (q . A) REST)`.
pub open spec fn curried_step(t: Tree) -> Option<(Tree, Tree)> {
    match t {
        Tree::Pair(c, after_c) => match *after_c {
            Tree::Pair(quoted, after_quoted) => match (*quoted, *after_quoted) {
                (Tree::Pair(q, arg), Tree::Pair(rest, end)) => if *c == byte_atom(4) && *q
                    == byte_atom(1) && *end == Tree::Atom(Seq::empty()) {
                    Some((*arg, *rest))
                } else {
                    None
                },
                _ => None,
            },
            Tree::Atom(_) => None,
        },
        Tree::Atom(_) => None,
    }
}

/// The arguments of an argument list `(c (q . A1) (c (q . A2) ... 1))`.
pub open spec fn curried_args_of(t: Tree) -> Option<Seq<Tree>>
    decreases t,
{
    match t {
        Tree::Atom(bytes) => if bytes == seq![1u8] {
            Some(Seq::empty())
        } else {
            None
        },
        Tree::Pair(c, after_c) => match *after_c {
            Tree::Pair(quoted, after_quoted) => match (*quoted, *after_quoted) {
                (Tree::Pair(q, arg), Tree::Pair(rest, end)) => if *c == byte_atom(4) && *q
                    == byte_atom(1) && *end == Tree::Atom(Seq::empty()) {
                    match curried_args_of(*rest) {
                        Some(args) => Some(seq![*arg] + args),
                        None => None,
                    }
                } else {
                    None
                },
                _ => None,
            },
            Tree::Atom(_) => None,
        },
    }
}

/// Whether the atom under `n` is the single byte `b`.
pub fn is_byte_atom(a: &Allocator, n: NodePtr, b: u8) -> (r: bool)
    requires
        has(*a, n),
    ensures
        r <==> tree(*a, n) == byte_atom(b),
{
    match atom_bytes(a, n) {
        Some(bytes) => {
            if bytes.len() == 1 && bytes[0] == b {
                assert(bytes@ =~= seq![b]);
                true
            } else {
                false
            }
        },
        None => false,
    }
}

/// Whether the atom under `n` is empty.
pub fn is_nil(a: &Allocator, n: NodePtr) -> (r: bool)
    requires
        has(*a, n),
    ensures
        r <==> tree(*a, n) == Tree::Atom(Seq::empty()),
{
    match atom_bytes(a, n) {
        Some(bytes) => {
            if bytes.len() == 0 {
                assert(bytes@ =~= Seq::empty());
                true
            } else {
                false
            }
        },
        None => false,
    }
}

/// `Puzzle::parse` of chia-sdk-parser: where the program is curried, the tree
/// hash of the program that was curried and the handle of its argument list;
/// `None` for a program that is not curried.
#[verifier::external_body]
pub(crate) fn puzzle_parse(a: &Allocator, n: NodePtr) -> (r: Option<(Bytes32, NodePtr)>)
    requires
        has(*a, n),
    ensures
        match uncurried(tree(*a, n)) {
            Some((program, args)) => r matches Some((h, q)) && h@ == tree_hash_of(program) && has(
                *a,
                q,
            ) && tree(*a, q) == args,
            None => r is None,
        },
{
    match Puzzle::parse(a, n) {
        Puzzle::Curried(c) => Some((Bytes32 { bytes: c.mod_hash.to_bytes() }, c.args)),
        Puzzle::Raw(_) => None,
    }
}

/// Takes a curried program apart: the tree hash of the program that was curried
/// and the handle of its argument list.
pub fn curried_puzzle(a: &Allocator, n: NodePtr) -> (r: Option<(Bytes32, NodePtr)>)
    requires
        has(*a, n),
    ensures
        match uncurried(tree(*a, n)) {
            Some((program, args)) => r matches Some((h, q)) && h@ == tree_hash_of(program) && has(
                *a,
                q,
            ) && tree(*a, q) == args,
            None => r is None,
        },
{
    puzzle_parse(a, n)
}

/// Takes one argument off an argument list.
pub fn curried_step_nodes(a: &Allocator, n: NodePtr) -> (r: Option<(NodePtr, NodePtr)>)
    requires
        has(*a, n),
    ensures
        match curried_step(tree(*a, n)) {
            Some((arg, rest)) => r matches Some((p, q)) && has(*a, p) && has(*a, q) && tree(*a, p)
                == arg && tree(*a, q) == rest,
            None => r is None,
        },
{
    let (c, after_c) = match pair_of(a, n) {
        Some(p) => p,
        None => return None,
    };
    let (quoted, after_quoted) = match pair_of(a, after_c) {
        Some(p) => p,
        None => return None,
    };
    let (q, arg) = match pair_of(a, quoted) {
        Some(p) => p,
        None => return None,
    };
    let (rest, end) = match pair_of(a, after_quoted) {
        Some(p) => p,
        None => return None,
    };
    if is_byte_atom(a, c, 4) && is_byte_atom(a, q, 1) && is_nil(a, end) {
        Some((arg, rest))
    } else {
        None
    }
}

/// The handles of the arguments of an argument list.
pub fn curried_arg_nodes(a: &Allocator, n: NodePtr) -> (r: Option<Vec<NodePtr>>)
    requires
        has(*a, n),
    ensures
        match curried_args_of(tree(*a, n)) {
            Some(args) => r matches Some(v) && nodes_are(*a, v@, args),
            None => r is None,
        },
{
    let mut out: Vec<NodePtr> = Vec::new();
    let mut cur = n;
    let ghost mut done: Seq<Tree> = Seq::empty();
    loop
        invariant
            has(*a, cur),
            nodes_are(*a, out@, done),
            curried_args_of(tree(*a, n)) == match curried_args_of(tree(*a, cur)) {
                Some(args) => Some(done + args),
                None => None,
            },
        decreases tree(*a, cur),
    {
        match pair_of(a, cur) {
            None => {
                let bytes = atom_of(a, cur);
                if bytes.len() == 1 && bytes[0] == 1 {
                    assert(bytes@ =~= seq![1u8]);
                    assert(done + Seq::<Tree>::empty() =~= done);
                    return Some(out);
                } else {
                    return None;
                }
            },
            Some(_) => {
                match curried_step_nodes(a, cur) {
                    Some((arg, rest)) => {
                        proof {
                            let t_arg = tree(*a, arg);
                            match curried_args_of(tree(*a, rest)) {
                                Some(args) => {
                                    assert(done + (seq![t_arg] + args) =~= done.push(t_arg) + args);
                                },
                                None => {},
                            }
                            done = done.push(t_arg);
                        }
                        out.push(arg);
                        cur = rest;
                    },
                    None => {
                        return None;
                    },
                }
            },
        }
    }
}

/// What a singleton top layer wraps: the id of its launcher and its inner puzzle.
pub struct SingletonLayerView {
    pub launcher_id: Seq<u8>,
    pub inner_puzzle: Tree,
}

/// The launcher id that a singleton struct `(mod_hash launcher_id . launcher_puzzle_hash)`
/// names, where the two hashes are those of the singleton top layer and of the
/// launcher.
pub open spec fn singleton_struct_of(t: Tree) -> Option<Seq<u8>> {
    match t {
        Tree::Pair(mod_hash, after) => match *after {
            Tree::Pair(launcher_id, launcher_puzzle_hash) => if tree_bytes32(*mod_hash) == Some(
                SINGLETON_TOP_LAYER_PUZZLE_HASH@,
            ) && tree_bytes32(*launcher_puzzle_hash) == Some(SINGLETON_LAUNCHER_PUZZLE_HASH@) {
                tree_bytes32(*launcher_id)
            } else {
                None
            },
            Tree::Atom(_) => None,
        },
        Tree::Atom(_) => None,
    }
}

/// What a puzzle wraps if it is the singleton top layer, curried with a
/// singleton struct and an inner puzzle.
pub open spec fn singleton_layer_of(t: Tree) -> Option<SingletonLayerView> {
    match uncurried(t) {
        Some((program, args)) => match curried_args_of(args) {
            Some(items) => if tree_hash_of(program) == SINGLETON_TOP_LAYER_PUZZLE_HASH@
                && items.len() == 2 && singleton_struct_of(items[0]) is Some {
                Some(
                    SingletonLayerView {
                        launcher_id: singleton_struct_of(items[0]).unwrap(),
                        inner_puzzle: items[1],
                    },
                )
            } else {
                None
            },
            None => None,
        },
        None => None,
    }
}

/// What a state layer carries: the metadata and its inner puzzle.
pub struct StateLayerView {
    pub metadata: MetadataView,
    pub inner_puzzle: Tree,
}

/// What a puzzle carries if it is the state layer, curried with its own hash,
/// the metadata, the hash of the metadata updater and an inner puzzle.
pub open spec fn state_layer_of(t: Tree) -> Option<StateLayerView> {
    match uncurried(t) {
        Some((program, args)) => match curried_args_of(args) {
            Some(items) => if tree_hash_of(program) == NFT_STATE_LAYER_PUZZLE_HASH@ && items.len()
                == 4 && tree_bytes32(items[0]) is Some && metadata_of(items[1]) is Some
                && tree_bytes32(items[2]) is Some {
                Some(
                    StateLayerView {
                        metadata: metadata_of(items[1]).unwrap(),
                        inner_puzzle: items[3],
                    },
                )
            } else {
                None
            },
            None => None,
        },
        None => None,
    }
}

/// Whether a puzzle is the delegation layer curried with anything.
pub open spec fn is_delegation_layer(t: Tree) -> bool {
    uncurried(t) matches Some((program, _)) && tree_hash_of(program)
        == DELEGATION_LAYER_PUZZLE_HASH@
}

/// The owner's puzzle hash that a delegation layer is curried with: the third of
/// its four arguments, which are its own hash, the launcher id, the owner's
/// puzzle hash and the merkle root, each of 32 bytes.
pub open spec fn delegation_owner_of(t: Tree) -> Option<Seq<u8>> {
    match uncurried(t) {
        Some((program, args)) => match curried_args_of(args) {
            Some(items) => if items.len() == 4 && tree_bytes32(items[0]) is Some && tree_bytes32(
                items[1],
            ) is Some && tree_bytes32(items[3]) is Some {
                tree_bytes32(items[2])
            } else {
                None
            },
            None => None,
        },
        None => None,
    }
}

/// `SingletonPuzzle::parse` of chia-sdk-parser, on what `Puzzle::parse` gives: the
/// launcher id and the handle of the inner puzzle where the program is the
/// singleton top layer curried with a singleton struct of the ledger's two
/// hashes and an inner puzzle; `None` for any other program.
#[verifier::external_body]
pub(crate) fn singleton_puzzle_parse(a: &Allocator, n: NodePtr) -> (r: Option<(Bytes32, NodePtr)>)
    requires
        has(*a, n),
    ensures
        match singleton_layer_of(tree(*a, n)) {
            Some(layer) => r matches Some((id, inner)) && id@ == layer.launcher_id && has(*a, inner)
                && tree(*a, inner) == layer.inner_puzzle,
            None => r is None,
        },
{
    match SingletonPuzzle::parse(a, &Puzzle::parse(a, n)) {
        Ok(Some(s)) => Some((Bytes32 { bytes: s.launcher_id.to_bytes() }, s.inner_puzzle.ptr())),
        _ => None,
    }
}

/// The singleton top layer of a puzzle, as handles: the launcher id and the
/// inner puzzle.
pub fn parse_singleton_layer(a: &Allocator, n: NodePtr) -> (r: Option<(Bytes32, NodePtr)>)
    requires
        has(*a, n),
    ensures
        match singleton_layer_of(tree(*a, n)) {
            Some(layer) => r matches Some((id, inner)) && id@ == layer.launcher_id && has(*a, inner)
                && tree(*a, inner) == layer.inner_puzzle,
            None => r is None,
        },
{
    singleton_puzzle_parse(a, n)
}

/// The state layer of a puzzle: the metadata, with the handle of the tree that
/// writes it, and the handle of the inner puzzle.
pub fn parse_state_layer(a: &Allocator, n: NodePtr) -> (r: Option<(DataStoreMetadata, NodePtr)>)
    requires
        has(*a, n),
    ensures
        match state_layer_of(tree(*a, n)) {
            Some(layer) => r matches Some((metadata, inner)) && metadata@ == layer.metadata && has(
                *a,
                inner,
            ) && tree(*a, inner) == layer.inner_puzzle,
            None => r is None,
        },
{
    let (mod_hash, args) = match curried_puzzle(a, n) {
        Some(p) => p,
        None => return None,
    };
    let items = match curried_arg_nodes(a, args) {
        Some(items) => items,
        None => return None,
    };
    if !mod_hash.same(&Bytes32::new(NFT_STATE_LAYER_PUZZLE_HASH)) {
        return None;
    }
    if items.len() != 4 {
        return None;
    }
    if node_bytes32(a, items[0]).is_none() {
        return None;
    }
    let metadata = match DataStoreMetadata::from_clvm(a, items[1]) {
        Some(m) => m,
        None => return None,
    };
    if node_bytes32(a, items[2]).is_none() {
        return None;
    }
    Some((metadata, items[3]))
}

/// Whether the puzzle under `n` is the delegation layer curried with anything.
pub fn has_delegation_layer(a: &Allocator, n: NodePtr) -> (r: bool)
    requires
        has(*a, n),
    ensures
        r <==> is_delegation_layer(tree(*a, n)),
{
    match curried_puzzle(a, n) {
        Some((mod_hash, _)) => mod_hash.same(&Bytes32::new(DELEGATION_LAYER_PUZZLE_HASH)),
        None => false,
    }
}

/// The owner's puzzle hash that the delegation layer under `n` is curried with.
pub fn parse_delegation_owner(a: &Allocator, n: NodePtr) -> (r: Option<Bytes32>)
    requires
        has(*a, n),
    ensures
        match delegation_owner_of(tree(*a, n)) {
            Some(owner) => r matches Some(h) && h@ == owner,
            None => r is None,
        },
{
    let (_, args) = match curried_puzzle(a, n) {
        Some(p) => p,
        None => return None,
    };
    let items = match curried_arg_nodes(a, args) {
        Some(items) => items,
        None => return None,
    };
    if items.len() != 4 {
        return None;
    }
    if node_bytes32(a, items[0]).is_none() || node_bytes32(a, items[1]).is_none() || node_bytes32(
        a,
        items[3],
    ).is_none() {
        return None;
    }
    node_bytes32(a, items[2])
}

/// The hash of the state layer curried with its own hash, metadata of the given
/// hash, the hash of the store's metadata updater and an inner puzzle of the
/// given hash.
pub open spec fn state_layer_hash(metadata_hash: Seq<u8>, inner_puzzle_hash: Seq<u8>) -> Seq<u8> {
    curry_hash(
        NFT_STATE_LAYER_PUZZLE_HASH@,
        seq![
            atom_hash(NFT_STATE_LAYER_PUZZLE_HASH@),
            metadata_hash,
            atom_hash(DL_METADATA_UPDATER_PUZZLE_HASH@),
            inner_puzzle_hash,
        ],
    )
}

/// The hash of the singleton top layer curried with the singleton struct of the
/// given launcher and an inner puzzle of the given hash.
pub open spec fn singleton_puzzle_hash(launcher_id: Seq<u8>, inner_puzzle_hash: Seq<u8>) -> Seq<u8> {
    curry_hash(
        SINGLETON_TOP_LAYER_PUZZLE_HASH@,
        seq![
            pair_hash(
                atom_hash(SINGLETON_TOP_LAYER_PUZZLE_HASH@),
                pair_hash(atom_hash(launcher_id), atom_hash(SINGLETON_LAUNCHER_PUZZLE_HASH@)),
            ),
            inner_puzzle_hash,
        ],
    )
}

/// Computes the hash of a state layer from the hashes of its metadata and of its
/// inner puzzle.
pub fn state_layer_puzzle_hash(metadata_hash: &Bytes32, inner_puzzle_hash: &Bytes32) -> (r: Bytes32)
    ensures
        r@ == state_layer_hash(metadata_hash@, inner_puzzle_hash@),
{
    let mut args: Vec<Bytes32> = Vec::new();
    args.push(tree_hash_atom(NFT_STATE_LAYER_PUZZLE_HASH.as_slice()));
    args.push(*metadata_hash);
    args.push(tree_hash_atom(DL_METADATA_UPDATER_PUZZLE_HASH.as_slice()));
    args.push(*inner_puzzle_hash);
    assert(views(args@) =~= seq![
        atom_hash(NFT_STATE_LAYER_PUZZLE_HASH@),
        metadata_hash@,
        atom_hash(DL_METADATA_UPDATER_PUZZLE_HASH@),
        inner_puzzle_hash@,
    ]);
    curry_tree_hash(&Bytes32::new(NFT_STATE_LAYER_PUZZLE_HASH), &args)
}

/// `SingletonArgs::curry_tree_hash` of chia-puzzles: the hash of the singleton
/// top layer curried with the singleton struct of the given launcher and an
/// inner puzzle of the given hash.
#[verifier::external_body]
pub(crate) fn singleton_curry_tree_hash(launcher_id: &Bytes32, inner_puzzle_hash: &Bytes32) -> (r:
    Bytes32)
    ensures
        r@ == singleton_puzzle_hash(launcher_id@, inner_puzzle_hash@),
{
    let inner = TreeHash::new(inner_puzzle_hash.bytes);
    Bytes32 { bytes: SingletonArgs::curry_tree_hash(launcher_id.bytes.into(), inner).to_bytes() }
}

/// The hash of a singleton, from the id of its launcher and the hash of its
/// inner puzzle.
pub fn singleton_full_puzzle_hash(launcher_id: &Bytes32, inner_puzzle_hash: &Bytes32) -> (r: Bytes32)
    ensures
        r@ == singleton_puzzle_hash(launcher_id@, inner_puzzle_hash@),
{
    singleton_curry_tree_hash(launcher_id, inner_puzzle_hash)
}

} // verus!
