use crate::bytes32::Bytes32;
use crate::clvm::{has, tree, Tree};
use crate::hash::{tree_hash_atom, tree_hash_of, tree_hash_pair};
use crate::sexp::{
    atom_bytes, lemma_list_tree_of_items, list_items, list_nodes, list_tree, node_bytes32,
};
use clvmr::{Allocator, NodePtr};
use vstd::prelude::*;
use vstd::utf8::{decode_utf8, decode_utf8_encode_utf8, encode_utf8, valid_utf8};

verus! {

/// What a store says of its content: the root hash that commits to it, a label
/// and a description.
#[derive(Clone, Debug, PartialEq, Eq)]
pub struct DataStoreMetadata {
    pub root_hash: Bytes32,
    pub label: String,
    pub description: String,
}

/// The mathematical value of a [`DataStoreMetadata`].
pub struct MetadataView {
    pub root_hash: Seq<u8>,
    pub label: Seq<char>,
    pub description: Seq<char>,
}

impl View for DataStoreMetadata {
    type V = MetadataView;

    open spec fn view(&self) -> MetadataView {
        MetadataView { root_hash: self.root_hash@, label: self.label@, description: self.description@ }
    }
}

/// The metadata that a tree writes: a list of three atoms, the 32-byte root hash
/// and, in UTF-8, the label and the description.
pub open spec fn metadata_of(t: Tree) -> Option<MetadataView> {
    match list_items(t) {
        Some(items) => if items.len() == 3 {
            match (items[0], items[1], items[2]) {
                (Tree::Atom(root), Tree::Atom(label), Tree::Atom(description)) => if root.len() == 32
                    && valid_utf8(label) && valid_utf8(description) {
                    Some(
                        MetadataView {
                            root_hash: root,
                            label: decode_utf8(label),
                            description: decode_utf8(description),
                        },
                    )
                } else {
                    None
                },
                _ => None,
            }
        } else {
            None
        },
        None => None,
    }
}

/// The tree that writes the given metadata.
pub open spec fn metadata_tree(m: MetadataView) -> Tree {
    list_tree(
        seq![
            Tree::Atom(m.root_hash),
            Tree::Atom(encode_utf8(m.label)),
            Tree::Atom(encode_utf8(m.description)),
        ],
    )
}

/// `String::from_utf8` of std: the string that the bytes encode, where they are
/// valid UTF-8.
#[verifier::external_body]
pub(crate) fn string_from_utf8(bytes: &[u8]) -> (r: Option<String>)
    ensures
        r is Some <==> valid_utf8(bytes@),
        r matches Some(s) ==> s@ == decode_utf8(bytes@),
{
    String::from_utf8(bytes.to_vec()).ok()
}

/// Metadata that a tree writes is written back as that same tree.
pub proof fn lemma_metadata_round_trip(t: Tree)
    requires
        metadata_of(t) is Some,
    ensures
        metadata_tree(metadata_of(t).unwrap()) == t,
{
    let items = list_items(t).unwrap();
    lemma_list_tree_of_items(t);
    decode_utf8_encode_utf8(items[1]->Atom_0);
    decode_utf8_encode_utf8(items[2]->Atom_0);
    let m = metadata_of(t).unwrap();
    assert(seq![
        Tree::Atom(m.root_hash),
        Tree::Atom(encode_utf8(m.label)),
        Tree::Atom(encode_utf8(m.description)),
    ] =~= items);
}

impl DataStoreMetadata {
    /// Reads the metadata that the tree under `n` writes.
    pub fn from_clvm(a: &Allocator, n: NodePtr) -> (r: Option<Self>)
        requires
            has(*a, n),
        ensures
            match metadata_of(tree(*a, n)) {
                Some(m) => r matches Some(v) && v@ == m,
                None => r is None,
            },
    {
        let items = match list_nodes(a, n) {
            Some(items) => items,
            None => return None,
        };
        if items.len() != 3 {
            return None;
        }
        let root_hash = match node_bytes32(a, items[0]) {
            Some(h) => h,
            None => return None,
        };
        let label_bytes = match atom_bytes(a, items[1]) {
            Some(b) => b,
            None => return None,
        };
        let description_bytes = match atom_bytes(a, items[2]) {
            Some(b) => b,
            None => return None,
        };
        let label = match string_from_utf8(label_bytes.as_slice()) {
            Some(s) => s,
            None => return None,
        };
        let description = match string_from_utf8(description_bytes.as_slice()) {
            Some(s) => s,
            None => return None,
        };
        Some(DataStoreMetadata { root_hash, label, description })
    }

    /// The tree hash of the tree that writes this metadata.
    pub fn tree_hash(&self) -> (r: Bytes32)
        ensures
            r@ == tree_hash_of(metadata_tree(self@)),
    {
        let empty: [u8; 0] = [];
        assert(empty@ =~= Seq::empty());
        let end = tree_hash_atom(empty.as_slice());
        let description = tree_hash_atom(self.description.as_str().as_bytes());
        let label = tree_hash_atom(self.label.as_str().as_bytes());
        let root_hash = tree_hash_atom(self.root_hash.bytes.as_slice());
        let tail = tree_hash_pair(&description, &end);
        let tail = tree_hash_pair(&label, &tail);
        proof {
            reveal_with_fuel(list_tree, 4);
            reveal_with_fuel(tree_hash_of, 5);
            let items = seq![
                Tree::Atom(self@.root_hash),
                Tree::Atom(encode_utf8(self@.label)),
                Tree::Atom(encode_utf8(self@.description)),
            ];
            assert(items.drop_first() =~= seq![items[1], items[2]]);
            assert(items.drop_first().drop_first() =~= seq![items[2]]);
            assert(items.drop_first().drop_first().drop_first() =~= Seq::<Tree>::empty());
        }
        tree_hash_pair(&root_hash, &tail)
    }
}

} // verus!
