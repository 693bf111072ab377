use crate::bytes32::Bytes32;
use crate::coin::{Coin, CoinView};
use crate::conditions::{Condition, ConditionView, CreateCoin, CreateCoinView};
use crate::hash::{atom_hash, curry_hash, curry_tree_hash, tree_hash_atom, views};
use crate::metadata::string_from_utf8;
use crate::number::{
    be_bytes, fits, int_atom, lemma_be_bytes_of_signed_be, lemma_first_byte_sign,
    lemma_min_signed_be, lemma_sign_extend, lemma_signed_be_of_be_bytes, sign_byte, signed_be,
    signed_be_sum,
};
use crate::puzzles::MIRROR_PUZZLE_HASH;
use crate::sexp::byte_seqs;
use vstd::prelude::*;
use vstd::utf8::{decode_utf8, valid_utf8};

verus! {

/// A mirror coin: it announces where the content of a store can be fetched.
#[derive(Debug, Clone, PartialEq, Eq, Hash)]
pub struct ServerCoin {
    pub coin: Coin,
    pub p2_puzzle_hash: Bytes32,
    pub memo_urls: Vec<String>,
}

/// What the mirror puzzle is curried with.
#[derive(Debug, Clone, PartialEq, Eq)]
pub struct MirrorArgs<M> {
    pub morpher: M,
}

impl Default for MirrorArgs<i32> {
    fn default() -> (r: Self)
        ensures
            r.morpher == 1,
    {
        Self { morpher: 1 }
    }
}

impl MirrorArgs<i32> {
    /// The hash of the mirror puzzle curried with the morpher 1.
    pub fn curry_tree_hash() -> (r: Bytes32)
        ensures
            r@ == curry_hash(MIRROR_PUZZLE_HASH@, seq![atom_hash(int_atom(1))]),
    {
        let mut args: Vec<Bytes32> = Vec::new();
        args.push(tree_hash_atom(&[1u8]));
        proof {
            assert([1u8]@ =~= seq![1u8]);
            assert(int_atom(1) =~= seq![1u8]);
            assert(views(args@) =~= seq![atom_hash(int_atom(1))]);
        }
        curry_tree_hash(&Bytes32::new(MIRROR_PUZZLE_HASH), &args)
    }
}

/// The solution of the mirror puzzle.
#[derive(Debug, Clone, PartialEq, Eq)]
pub struct MirrorSolution<I, S> {
    pub parent_parent_id: Bytes32,
    pub parent_inner_puzzle: I,
    pub parent_amount: u64,
    pub parent_solution: S,
}

/// The id that lies `offset` after `id`, both read as two's complement
/// integers: the sum written with 32 bytes, or 32 zero bytes where the sum does
/// not fit.
pub open spec fn morphed_id(id: Seq<u8>, offset: int) -> Seq<u8> {
    let sum = signed_be(id) + offset;
    if fits(sum, 32) {
        be_bytes(sum, 32)
    } else {
        Seq::new(32, |i: int| 0u8)
    }
}

/// Moves a launcher id by an offset. The id is read as a two's complement
/// integer, most significant byte first, and so is `offset`, whatever its
/// length. The result is the sum with 32 bytes; where the sum does not fit, it
/// is the id of 32 zero bytes.
pub fn morph_launcher_id(launcher_id: Bytes32, offset: &[u8]) -> (r: Bytes32)
    ensures
        r@ == morphed_id(launcher_id@, signed_be(offset@)),
{
    let sum = signed_be_sum(launcher_id.bytes.as_slice(), offset);
    let ghost v = signed_be(launcher_id@) + signed_be(offset@);
    proof {
        lemma_min_signed_be(v, 32);
    }
    let mut bytes = [0u8; 32];
    if sum.len() > 32 {
        assert(bytes@ =~= Seq::new(32, |i: int| 0u8));
        return Bytes32 { bytes };
    }
    let len = sum.len();
    let pad: u8 = if sum[0] >= 0x80 {
        0xff
    } else {
        0
    };
    proof {
        lemma_first_byte_sign(v, len as nat);
        lemma_sign_extend(v, len as nat, 32);
    }
    let mut i: usize = 0;
    while i < 32
        invariant
            i <= 32,
            1 <= len <= 32,
            len == sum@.len(),
            pad == sign_byte(v),
            forall|j: int|
                0 <= j < i ==> bytes@[j] == (if j < 32 - len {
                    pad
                } else {
                    sum@[j - (32 - len)]
                }),
        decreases 32 - i,
    {
        if i < 32 - len {
            bytes[i] = pad;
        } else {
            bytes[i] = sum[i - (32 - len)];
        }
        i = i + 1;
    }
    assert(bytes@ =~= Seq::new((32 - len) as nat, |i: int| sign_byte(v)) + sum@);
    Bytes32 { bytes }
}

/// Moving an id by zero leaves it as it is.
pub proof fn lemma_morph_by_zero(id: Seq<u8>)
    requires
        id.len() == 32,
    ensures
        morphed_id(id, 0) == id,
{
    lemma_be_bytes_of_signed_be(id);
}

/// Moving an id by `k` and then by `-k` gives the id back, where the id moved
/// by `k` fits in 32 bytes.
pub proof fn lemma_morph_round_trip(id: Seq<u8>, k: int)
    requires
        id.len() == 32,
        fits(signed_be(id) + k, 32),
    ensures
        morphed_id(morphed_id(id, k), -k) == id,
{
    lemma_signed_be_of_be_bytes(signed_be(id) + k, 32);
    lemma_be_bytes_of_signed_be(id);
}

/// The first coin creation among the conditions that pays `amount` to
/// `puzzle_hash`.
pub open spec fn first_creation_of(
    conditions: Seq<ConditionView>,
    puzzle_hash: Seq<u8>,
    amount: u64,
) -> Option<CreateCoinView>
    decreases conditions.len(),
{
    if conditions.len() == 0 {
        None
    } else {
        match conditions[0] {
            ConditionView::CreateCoin(c) => if c.puzzle_hash == puzzle_hash && c.amount == amount {
                Some(c)
            } else {
                first_creation_of(conditions.drop_first(), puzzle_hash, amount)
            },
            ConditionView::Other => first_creation_of(conditions.drop_first(), puzzle_hash, amount),
        }
    }
}

/// The strings that the byte strings encode in UTF-8, or `None` where one of
/// them is not valid UTF-8.
pub open spec fn utf8_strings(items: Seq<Seq<u8>>) -> Option<Seq<Seq<char>>> {
    if forall|i: int| 0 <= i < items.len() ==> valid_utf8(#[trigger] items[i]) {
        Some(items.map_values(|b: Seq<u8>| decode_utf8(b)))
    } else {
        None
    }
}

/// The memos of a coin creation after the first, which is kept for a hint.
pub open spec fn url_memos(memos: Seq<Seq<u8>>) -> Seq<Seq<u8>> {
    if memos.len() == 0 {
        memos
    } else {
        memos.skip(1)
    }
}

/// The URLs that the parent's conditions announce for a server coin: the memos
/// after the first of the first coin creation that pays the coin's amount to
/// the coin's puzzle hash, read as UTF-8. `None` where no creation matches, or
/// where one of those memos is not valid UTF-8.
pub open spec fn urls_of(server_coin: CoinView, conditions: Seq<ConditionView>) -> Option<
    Seq<Seq<char>>,
> {
    match first_creation_of(conditions, server_coin.puzzle_hash, server_coin.amount) {
        Some(c) => utf8_strings(url_memos(c.memos)),
        None => None,
    }
}

/// The values of a sequence of conditions.
pub open spec fn condition_views(conditions: Seq<Condition>) -> Seq<ConditionView> {
    conditions.map_values(|c: Condition| c@)
}

/// The characters of each string of a sequence.
pub open spec fn string_views(strings: Seq<String>) -> Seq<Seq<char>> {
    strings.map_values(|s: String| s@)
}

/// The URLs that the byte strings after the first encode.
fn urls_from_memos(memos: &Vec<Vec<u8>>) -> (r: Option<Vec<String>>)
    ensures
        match utf8_strings(url_memos(byte_seqs(memos@))) {
            Some(urls) => r matches Some(v) && string_views(v@) == urls,
            None => r is None,
        },
{
    let ghost all = byte_seqs(memos@);
    let ghost rest = url_memos(all);
    let mut urls: Vec<String> = Vec::new();
    if memos.len() == 0 {
        assert(string_views(urls@) =~= rest.map_values(|b: Seq<u8>| decode_utf8(b)));
        return Some(urls);
    }
    let mut i: usize = 1;
    while i < memos.len()
        invariant
            1 <= i <= memos@.len(),
            all == byte_seqs(memos@),
            rest == all.skip(1),
            urls@.len() == i - 1,
            forall|j: int|
                #![trigger rest[j]]
                0 <= j < i - 1 ==> valid_utf8(rest[j]) && urls@[j]@ == decode_utf8(rest[j]),
        decreases memos@.len() - i,
    {
        assert(rest[i - 1] == memos@[i as int]@);
        match string_from_utf8(memos[i].as_slice()) {
            Some(url) => urls.push(url),
            None => {
                return None;
            },
        }
        i = i + 1;
    }
    assert(string_views(urls@) =~= rest.map_values(|b: Seq<u8>| decode_utf8(b)));
    Some(urls)
}

/// The URLs that the conditions of a server coin's parent announce for it.
pub fn urls_from_conditions(server_coin: &Coin, parent_conditions: &Vec<Condition>) -> (r: Option<
    Vec<String>,
>)
    ensures
        match urls_of(server_coin@, condition_views(parent_conditions@)) {
            Some(urls) => r matches Some(v) && string_views(v@) == urls,
            None => r is None,
        },
{
    let ghost conditions = condition_views(parent_conditions@);
    let mut i: usize = 0;
    assert(conditions.skip(0) =~= conditions);
    while i < parent_conditions.len()
        invariant
            i <= parent_conditions@.len(),
            conditions == condition_views(parent_conditions@),
            first_creation_of(conditions, server_coin@.puzzle_hash, server_coin@.amount)
                == first_creation_of(
                conditions.skip(i as int),
                server_coin@.puzzle_hash,
                server_coin@.amount,
            ),
        decreases parent_conditions@.len() - i,
    {
        let ghost rest = conditions.skip(i as int);
        assert(rest[0] == parent_conditions@[i as int]@);
        assert(rest.drop_first() =~= conditions.skip(i + 1));
        match &parent_conditions[i] {
            Condition::CreateCoin(c) => {
                if c.puzzle_hash.same(&server_coin.puzzle_hash) && c.amount == server_coin.amount {
                    return urls_from_memos(&c.memos);
                }
            },
            Condition::Other(_) => {},
        }
        i = i + 1;
    }
    assert(conditions.skip(i as int).len() == 0);
    None
}

} // verus!
