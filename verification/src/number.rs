use num_bigint::BigInt;
use vstd::prelude::*;

verus! {

/// 256 to the power `n`.
pub open spec fn pow256(n: nat) -> nat
    decreases n,
{
    if n == 0 {
        1
    } else {
        256 * pow256((n - 1) as nat)
    }
}

/// The value of a byte read as a signed number.
pub open spec fn signed_byte(b: u8) -> int {
    if b >= 0x80 {
        b - 0x100
    } else {
        b as int
    }
}

/// The integer that `b` writes in two's complement, most significant byte first:
/// the first byte counts as a signed number, each later byte as a digit of base
/// 256. The empty sequence writes zero.
pub open spec fn signed_be(b: Seq<u8>) -> int
    decreases b.len(),
{
    if b.len() == 0 {
        0
    } else if b.len() == 1 {
        signed_byte(b[0])
    } else {
        signed_be(b.drop_last()) * 256 + b.last()
    }
}

/// Whether `v` can be written in two's complement with `n` bytes.
pub open spec fn fits(v: int, n: nat) -> bool {
    -pow256(n) <= 2 * v < pow256(n)
}

/// The two's complement writing of `v` with `n` bytes, most significant byte
/// first. Where `v` does not fit, its higher digits are cut off.
pub open spec fn be_bytes(v: int, n: nat) -> Seq<u8>
    decreases n,
{
    if n == 0 {
        Seq::empty()
    } else {
        be_bytes(v / 256, (n - 1) as nat).push((v % 256) as u8)
    }
}

/// The shortest two's complement writing of `v` that has at least one byte.
pub open spec fn min_signed_be(v: int) -> Seq<u8>
    decreases (if v < 0 { -v } else { v }),
{
    if -128 <= v < 128 {
        seq![(v % 256) as u8]
    } else {
        min_signed_be(v / 256).push((v % 256) as u8)
    }
}

/// How an atom writes the integer `v`: zero is the empty atom, any other value
/// its shortest two's complement writing.
pub open spec fn int_atom(v: int) -> Seq<u8> {
    if v == 0 {
        Seq::empty()
    } else {
        min_signed_be(v)
    }
}

/// The magnitude of `v`.
pub open spec fn magnitude(v: int) -> nat {
    if v < 0 {
        (-v) as nat
    } else {
        v as nat
    }
}

/// The byte that fills the front of a longer writing of `v`.
pub open spec fn sign_byte(v: int) -> u8 {
    if v < 0 {
        0xff
    } else {
        0
    }
}

/// Adds two integers given in two's complement, most significant byte first,
/// with `BigInt::from_signed_bytes_be`, `+` and `BigInt::to_signed_bytes_be` of
/// num-bigint. The sum comes back in its shortest two's complement writing.
#[verifier::external_body]
pub(crate) fn signed_be_sum(a: &[u8], b: &[u8]) -> (r: Vec<u8>)
    ensures
        r@ == min_signed_be(signed_be(a@) + signed_be(b@)),
{
    (BigInt::from_signed_bytes_be(a) + BigInt::from_signed_bytes_be(b)).to_signed_bytes_be()
}

/// Reads `bytes` as a two's complement integer with
/// `BigInt::from_signed_bytes_be` of num-bigint and hands back the lowest 64-bit
/// digit of its magnitude, which `BigInt::iter_u64_digits` yields first. Zero
/// has no digit.
#[verifier::external_body]
pub(crate) fn signed_be_low_digit(bytes: &[u8]) -> (r: Option<u64>)
    ensures
        match r {
            Some(digit) => signed_be(bytes@) != 0 && digit as nat == magnitude(signed_be(bytes@))
                % 0x1_0000_0000_0000_0000,
            None => signed_be(bytes@) == 0,
        },
{
    BigInt::from_signed_bytes_be(bytes).iter_u64_digits().next()
}

/// A value fits in one more byte exactly when its quotient by 256 fits without
/// that byte.
pub proof fn lemma_fits_step(v: int, n: nat)
    requires
        n >= 1,
    ensures
        fits(v, n + 1) <==> fits(v / 256, n),
{
    let p = pow256((n - 1) as nat);
    assert(pow256(n) == 256 * p);
    assert(pow256(n + 1) == 256 * pow256(n));
}

/// What fits in `n` bytes fits in more.
pub proof fn lemma_fits_more(v: int, n: nat, m: nat)
    requires
        fits(v, n),
        n <= m,
    ensures
        fits(v, m),
    decreases m - n,
{
    if n < m {
        assert(pow256(n + 1) == 256 * pow256(n));
        lemma_fits_more(v, n + 1, m);
    }
}

/// Writing a value that fits and reading it back gives the value.
pub proof fn lemma_signed_be_of_be_bytes(v: int, n: nat)
    requires
        n >= 1,
        fits(v, n),
    ensures
        be_bytes(v, n).len() == n,
        signed_be(be_bytes(v, n)) == v,
    decreases n,
{
    reveal_with_fuel(be_bytes, 2);
    reveal_with_fuel(pow256, 2);
    if n == 1 {
        assert(be_bytes(v, 1) =~= seq![(v % 256) as u8]);
    } else {
        lemma_fits_step(v, (n - 1) as nat);
        lemma_signed_be_of_be_bytes(v / 256, (n - 1) as nat);
        let s = be_bytes(v / 256, (n - 1) as nat);
        let b = s.push((v % 256) as u8);
        assert(b.drop_last() =~= s);
    }
}

/// Any writing with `n` bytes writes a value that fits in `n` bytes, and is the
/// writing of that value with `n` bytes.
pub proof fn lemma_be_bytes_of_signed_be(b: Seq<u8>)
    requires
        b.len() >= 1,
    ensures
        fits(signed_be(b), b.len()),
        be_bytes(signed_be(b), b.len()) == b,
    decreases b.len(),
{
    reveal_with_fuel(be_bytes, 2);
    reveal_with_fuel(pow256, 2);
    if b.len() == 1 {
        assert(be_bytes(signed_be(b), 1) =~= b);
    } else {
        let s = b.drop_last();
        lemma_be_bytes_of_signed_be(s);
        let v = signed_be(b);
        assert(v == signed_be(s) * 256 + b.last());
        assert(v / 256 == signed_be(s) && v % 256 == b.last());
        lemma_fits_step(v, s.len());
        assert(be_bytes(v, b.len()) =~= b);
    }
}

/// The shortest writing of a value is its writing with as many bytes as it has,
/// and the value fits in `n` bytes exactly when the shortest writing has no more.
pub proof fn lemma_min_signed_be(v: int, n: nat)
    requires
        n >= 1,
    ensures
        min_signed_be(v).len() >= 1,
        min_signed_be(v) == be_bytes(v, min_signed_be(v).len()),
        fits(v, min_signed_be(v).len()),
        fits(v, n) <==> min_signed_be(v).len() <= n,
    decreases (if v < 0 { -v } else { v }), n,
{
    reveal_with_fuel(be_bytes, 2);
    reveal_with_fuel(pow256, 2);
    if -128 <= v < 128 {
        assert(min_signed_be(v) =~= be_bytes(v, 1));
        lemma_fits_more(v, 1, n);
    } else {
        let q = v / 256;
        let len = min_signed_be(q).len();
        lemma_min_signed_be(q, 1);
        lemma_fits_step(v, len);
        assert(min_signed_be(v) == min_signed_be(q).push((v % 256) as u8));
        assert(min_signed_be(v).len() == len + 1);
        if n >= 2 {
            lemma_min_signed_be(q, (n - 1) as nat);
            lemma_fits_step(v, (n - 1) as nat);
        }
    }
}

/// Reading the shortest writing of a value gives the value.
pub proof fn lemma_signed_be_of_min(v: int)
    ensures
        signed_be(min_signed_be(v)) == v,
{
    lemma_min_signed_be(v, 1);
    lemma_signed_be_of_be_bytes(v, min_signed_be(v).len());
}

/// Reading the atom that writes a value gives the value.
pub proof fn lemma_signed_be_of_int_atom(v: int)
    ensures
        signed_be(int_atom(v)) == v,
{
    if v != 0 {
        lemma_signed_be_of_min(v);
    }
}

/// The first byte of a writing shows the sign of a value that fits.
pub proof fn lemma_first_byte_sign(v: int, n: nat)
    requires
        n >= 1,
        fits(v, n),
    ensures
        be_bytes(v, n).len() == n,
        be_bytes(v, n)[0] >= 0x80 <==> v < 0,
    decreases n,
{
    reveal_with_fuel(be_bytes, 2);
    reveal_with_fuel(pow256, 2);
    if n == 1 {
    } else {
        lemma_fits_step(v, (n - 1) as nat);
        lemma_first_byte_sign(v / 256, (n - 1) as nat);
    }
}

/// A writing with more bytes is the shorter writing with sign bytes in front.
pub proof fn lemma_sign_extend(v: int, n: nat, m: nat)
    requires
        1 <= n <= m,
        fits(v, n),
    ensures
        be_bytes(v, n).len() == n,
        be_bytes(v, m) == Seq::new((m - n) as nat, |i: int| sign_byte(v)) + be_bytes(v, n),
    decreases n,
{
    reveal_with_fuel(be_bytes, 2);
    reveal_with_fuel(pow256, 2);
    lemma_signed_be_of_be_bytes(v, n);
    let pad = Seq::new((m - n) as nat, |i: int| sign_byte(v));
    if n == 1 {
        lemma_pad_only(v, (m - 1) as nat);
        assert(be_bytes(v, m) == be_bytes(v / 256, (m - 1) as nat).push((v % 256) as u8));
        assert(be_bytes(v, m) =~= pad + be_bytes(v, 1));
    } else {
        lemma_fits_step(v, (n - 1) as nat);
        lemma_sign_extend(v / 256, (n - 1) as nat, (m - 1) as nat);
        assert(be_bytes(v, m) =~= pad + be_bytes(v, n));
    }
}

/// The writing of 0 or -1 with any number of bytes consists of sign bytes.
pub proof fn lemma_pad_only(v: int, k: nat)
    requires
        -128 <= v < 128,
    ensures
        be_bytes(v / 256, k) == Seq::new(k, |i: int| sign_byte(v)),
    decreases k,
{
    reveal_with_fuel(be_bytes, 2);
    let q = v / 256;
    assert(q == 0 || q == -1);
    if k == 0 {
        assert(be_bytes(q, 0) =~= Seq::new(0, |i: int| sign_byte(v)));
    } else {
        assert(q / 256 == q);
        lemma_pad_only(v, (k - 1) as nat);
        assert(be_bytes(q, k) =~= Seq::new(k, |i: int| sign_byte(v)));
    }
}

} // verus!
