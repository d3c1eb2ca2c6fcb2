//! Byte-level helpers: big-endian integer encoding, lexicographic byte order,
//! decimal digits and ASCII strings.

use vstd::prelude::*;
use vstd::string::StringSliceAdditionalSpecFns;
use vstd::utf8::{decode_utf8, encode_utf8};

verus! {

/// Whether two strings are equal, compared byte by byte.
pub fn str_eq(a: &str, b: &str) -> (r: bool)
    ensures
        r == (a@ == b@),
{
    let x = a.as_bytes();
    let y = b.as_bytes();
    proof {
        broadcast use vstd::utf8::encode_utf8_decode_utf8;
        assert(decode_utf8(encode_utf8(a@)) == a@);
        assert(decode_utf8(encode_utf8(b@)) == b@);
    }
    if x.len() != y.len() {
        return false;
    }
    let mut i: usize = 0;
    while i < x.len()
        invariant
            x@ == encode_utf8(a@),
            y@ == encode_utf8(b@),
            x@.len() == y@.len(),
            0 <= i <= x@.len(),
            forall|k: int| 0 <= k < i ==> x@[k] == y@[k],
        decreases x@.len() - i,
    {
        if x[i] != y[i] {
            return false;
        }
        i = i + 1;
    }
    assert(x@ =~= y@);
    true
}

/// The four big-endian bytes of `x`.
pub open spec fn be32(x: u32) -> Seq<u8> {
    seq![
        (x / 0x100_0000) as u8,
        ((x / 0x1_0000) % 0x100) as u8,
        ((x / 0x100) % 0x100) as u8,
        (x % 0x100) as u8,
    ]
}

/// The value of four big-endian bytes.
pub open spec fn from_be32(b: Seq<u8>) -> u32
    recommends
        b.len() == 4,
{
    (b[0] * 0x100_0000 + b[1] * 0x1_0000 + b[2] * 0x100 + b[3]) as u32
}

/// The eight big-endian bytes of `x`.
pub open spec fn be64(x: u64) -> Seq<u8> {
    be32((x / 0x1_0000_0000) as u32) + be32((x % 0x1_0000_0000) as u32)
}

/// The value of eight big-endian bytes.
pub open spec fn from_be64(b: Seq<u8>) -> u64
    recommends
        b.len() == 8,
{
    (from_be32(b.subrange(0, 4)) * 0x1_0000_0000 + from_be32(b.subrange(4, 8))) as u64
}

pub proof fn lemma_be32_roundtrip(x: u32)
    ensures
        be32(x).len() == 4,
        from_be32(be32(x)) == x,
{
    let b0 = x / 0x100_0000;
    let b1 = (x / 0x1_0000) % 0x100;
    let b2 = (x / 0x100) % 0x100;
    let b3 = x % 0x100;
    assert(b0 < 0x100 && b1 < 0x100 && b2 < 0x100 && b3 < 0x100);
    assert(b0 * 0x100_0000 + b1 * 0x1_0000 + b2 * 0x100 + b3 == x) by (bit_vector)
        requires
            b0 == x / 0x100_0000,
            b1 == (x / 0x1_0000) % 0x100,
            b2 == (x / 0x100) % 0x100,
            b3 == x % 0x100,
    ;
    let s = be32(x);
    assert(s[0] == b0 && s[1] == b1 && s[2] == b2 && s[3] == b3);
}

pub proof fn lemma_from_be32_bound(b: Seq<u8>)
    requires
        b.len() == 4,
    ensures
        b[0] * 0x100_0000 + b[1] * 0x1_0000 + b[2] * 0x100 + b[3] <= u32::MAX,
        be32(from_be32(b)) == b,
{
    let v = b[0] * 0x100_0000 + b[1] * 0x1_0000 + b[2] * 0x100 + b[3];
    assert(v <= u32::MAX) by (nonlinear_arith)
        requires
            v == b[0] * 0x100_0000 + b[1] * 0x1_0000 + b[2] * 0x100 + b[3],
            0 <= b[0] < 256,
            0 <= b[1] < 256,
            0 <= b[2] < 256,
            0 <= b[3] < 256,
    ;
    let x = from_be32(b);
    assert(x == v);
    assert((x / 0x100_0000) as u8 == b[0] && ((x / 0x1_0000) % 0x100) as u8 == b[1] && ((x
        / 0x100) % 0x100) as u8 == b[2] && (x % 0x100) as u8 == b[3]) by (nonlinear_arith)
        requires
            x == b[0] * 0x100_0000 + b[1] * 0x1_0000 + b[2] * 0x100 + b[3],
            0 <= b[0] < 256,
            0 <= b[1] < 256,
            0 <= b[2] < 256,
            0 <= b[3] < 256,
    ;
    assert(be32(x) =~= b);
}

pub proof fn lemma_be64_roundtrip(x: u64)
    ensures
        be64(x).len() == 8,
        from_be64(be64(x)) == x,
{
    let hi = (x / 0x1_0000_0000) as u32;
    let lo = (x % 0x1_0000_0000) as u32;
    lemma_be32_roundtrip(hi);
    lemma_be32_roundtrip(lo);
    assert(be64(x).subrange(0, 4) =~= be32(hi));
    assert(be64(x).subrange(4, 8) =~= be32(lo));
    assert(hi * 0x1_0000_0000 + lo == x) by (nonlinear_arith)
        requires
            hi == x / 0x1_0000_0000,
            lo == x % 0x1_0000_0000,
    ;
}

/// `x` as four big-endian bytes (`u32::to_be_bytes`).
pub fn u32_to_be(x: u32) -> (r: [u8; 4])
    ensures
        r@ == be32(x),
{
    let r = [(x >> 24) as u8, ((x >> 16) & 0xff) as u8, ((x >> 8) & 0xff) as u8, (x & 0xff) as u8];
    assert((x >> 24) as u8 == (x / 0x100_0000) as u8) by (bit_vector);
    assert(((x >> 16) & 0xff) as u8 == ((x / 0x1_0000) % 0x100) as u8) by (bit_vector);
    assert(((x >> 8) & 0xff) as u8 == ((x / 0x100) % 0x100) as u8) by (bit_vector);
    assert((x & 0xff) as u8 == (x % 0x100) as u8) by (bit_vector);
    assert(r@ =~= be32(x));
    r
}

/// The `u32` of four big-endian bytes (`u32::from_be_bytes`).
pub fn u32_from_be(b0: u8, b1: u8, b2: u8, b3: u8) -> (r: u32)
    ensures
        r == from_be32(seq![b0, b1, b2, b3]),
{
    proof {
        lemma_from_be32_bound(seq![b0, b1, b2, b3]);
    }
    let r = ((b0 as u32) << 24) | ((b1 as u32) << 16) | ((b2 as u32) << 8) | (b3 as u32);
    assert(((b0 as u32) << 24) | ((b1 as u32) << 16) | ((b2 as u32) << 8) | (b3 as u32) == (b0
        as u32) * 0x100_0000u32 + (b1 as u32) * 0x1_0000u32 + (b2 as u32) * 0x100u32 + (b3 as u32))
        by (bit_vector);
    r
}

/// `x` as eight big-endian bytes (`u64::to_be_bytes`).
pub fn u64_to_be(x: u64) -> (r: [u8; 8])
    ensures
        r@ == be64(x),
{
    let hi = u32_to_be((x >> 32) as u32);
    let lo = u32_to_be((x & 0xffff_ffff) as u32);
    assert((x >> 32) as u32 == (x / 0x1_0000_0000) as u32) by (bit_vector);
    assert((x & 0xffff_ffff) as u32 == (x % 0x1_0000_0000) as u32) by (bit_vector);
    let r = [hi[0], hi[1], hi[2], hi[3], lo[0], lo[1], lo[2], lo[3]];
    assert(r@ =~= be64(x));
    r
}

/// The `u64` of the first eight bytes of `b` (`u64::from_be_bytes`).
pub fn u64_from_be(b: &[u8]) -> (r: u64)
    requires
        b@.len() >= 8,
    ensures
        r == from_be64(b@.subrange(0, 8)),
{
    let hi = u32_from_be(b[0], b[1], b[2], b[3]);
    let lo = u32_from_be(b[4], b[5], b[6], b[7]);
    assert(b@.subrange(0, 8).subrange(0, 4) =~= seq![b[0], b[1], b[2], b[3]]);
    assert(b@.subrange(0, 8).subrange(4, 8) =~= seq![b[4], b[5], b[6], b[7]]);
    let r = ((hi as u64) << 32) | (lo as u64);
    assert(((hi as u64) << 32) | (lo as u64) == (hi as u64) * 0x1_0000_0000u64 + (lo as u64))
        by (bit_vector);
    r
}

/// Lexicographic order on byte strings, as Rust orders `str` and `[u8]`.
pub open spec fn lex_le(a: Seq<u8>, b: Seq<u8>) -> bool
    decreases a.len(),
{
    if a.len() == 0 {
        true
    } else if b.len() == 0 {
        false
    } else if a[0] != b[0] {
        a[0] < b[0]
    } else {
        lex_le(a.drop_first(), b.drop_first())
    }
}

pub proof fn lemma_lex_le_antisymmetric(a: Seq<u8>, b: Seq<u8>)
    requires
        lex_le(a, b),
        lex_le(b, a),
    ensures
        a == b,
    decreases a.len(),
{
    if a.len() == 0 {
        assert(b.len() == 0);
        assert(a =~= b);
    } else {
        lemma_lex_le_antisymmetric(a.drop_first(), b.drop_first());
        assert(a =~= seq![a[0]] + a.drop_first());
        assert(b =~= seq![b[0]] + b.drop_first());
    }
}

pub proof fn lemma_lex_le_total(a: Seq<u8>, b: Seq<u8>)
    ensures
        lex_le(a, b) || lex_le(b, a),
    decreases a.len(),
{
    if a.len() > 0 && b.len() > 0 && a[0] == b[0] {
        lemma_lex_le_total(a.drop_first(), b.drop_first());
    }
}

pub proof fn lemma_lex_le_transitive(a: Seq<u8>, b: Seq<u8>, c: Seq<u8>)
    requires
        lex_le(a, b),
        lex_le(b, c),
    ensures
        lex_le(a, c),
    decreases a.len(),
{
    if a.len() > 0 && b.len() > 0 && c.len() > 0 && a[0] == b[0] && b[0] == c[0] {
        lemma_lex_le_transitive(a.drop_first(), b.drop_first(), c.drop_first());
    }
}

/// `a <= b` in lexicographic byte order.
pub fn bytes_le(a: &[u8], b: &[u8]) -> (r: bool)
    ensures
        r == lex_le(a@, b@),
{
    let mut i: usize = 0;
    assert(a@.skip(0) =~= a@);
    assert(b@.skip(0) =~= b@);
    assert(a@.subrange(0, 0) =~= b@.subrange(0, 0));
    while i < a.len() && i < b.len()
        invariant
            0 <= i <= a@.len(),
            i <= b@.len(),
            a@.subrange(0, i as int) == b@.subrange(0, i as int),
            lex_le(a@, b@) == lex_le(a@.skip(i as int), b@.skip(i as int)),
        decreases a@.len() - i,
    {
        if a[i] != b[i] {
            return a[i] < b[i];
        }
        assert(a@.skip(i as int).drop_first() =~= a@.skip(i + 1));
        assert(b@.skip(i as int).drop_first() =~= b@.skip(i + 1));
        assert(a@.subrange(0, i + 1) =~= a@.subrange(0, i as int).push(a[i as int]));
        assert(b@.subrange(0, i + 1) =~= b@.subrange(0, i as int).push(b[i as int]));
        i = i + 1;
    }
    i == a.len()
}

/// The ASCII digit of `d` (0..=9).
pub open spec fn digit_byte(d: int) -> u8 {
    (0x30 + d) as u8
}

/// The `width` least significant decimal digits of `n`, most significant first,
/// as ASCII bytes (zero-padded, as `format!("{n:0width$}")` writes a number below
/// `10^width`).
pub open spec fn decimal_digits(n: nat, width: nat) -> Seq<u8>
    decreases width,
{
    if width == 0 {
        seq![]
    } else {
        decimal_digits(n / 10, (width - 1) as nat).push(digit_byte((n % 10) as int))
    }
}

/// Whether every byte is an ASCII decimal digit.
pub open spec fn all_ascii_digits(s: Seq<u8>) -> bool {
    forall|i: int| 0 <= i < s.len() ==> 0x30 <= #[trigger] s[i] <= 0x39
}

pub proof fn lemma_decimal_digits_shape(n: nat, width: nat)
    ensures
        decimal_digits(n, width).len() == width,
        all_ascii_digits(decimal_digits(n, width)),
    decreases width,
{
    if width > 0 {
        lemma_decimal_digits_shape(n / 10, (width - 1) as nat);
    }
}

/// The ASCII characters of a byte string.
pub open spec fn ascii_chars(s: Seq<u8>) -> Seq<char> {
    Seq::new(s.len(), |i: int| s[i] as char)
}

/// Turn ASCII bytes into a `String` (`String::from_utf8_lossy`, which keeps
/// ASCII input unchanged).
#[verifier::external_body]
pub(crate) fn ascii_string(bytes: &[u8]) -> (s: String)
    requires
        forall|i: int| 0 <= i < bytes@.len() ==> #[trigger] bytes@[i] < 0x80,
    ensures
        s@ == ascii_chars(bytes@),
{
    String::from_utf8_lossy(bytes).into_owned()
}

/// The `width`-digit zero-padded decimal form of `n`.
pub fn decimal_bytes(n: u64, width: usize) -> (r: Vec<u8>)
    ensures
        r@ == decimal_digits(n as nat, width as nat),
{
    let mut digits: Vec<u8> = Vec::new();
    let mut i: usize = 0;
    let mut m: u64 = n;
    assert(pow10(0) == 1);
    assert(n as nat / 1 == n as nat);
    // Collect least significant first, then reverse.
    while i < width
        invariant
            i <= width,
            digits@.len() == i,
            m as nat == n as nat / pow10(i as nat),
            forall|k: int|
                0 <= k < i ==> #[trigger] digits@[k] == digit_byte(
                    ((n as nat / pow10(k as nat)) % 10) as int,
                ),
        decreases width - i,
    {
        proof {
            lemma_pow10_step(n as nat, i as nat);
        }
        digits.push((0x30 + (m % 10)) as u8);
        m = m / 10;
        i = i + 1;
    }
    let mut r: Vec<u8> = Vec::new();
    let mut j: usize = 0;
    assert(r@ =~= decimal_digits(n as nat / pow10((width - j) as nat), j as nat));
    while j < width
        invariant
            j <= width,
            digits@.len() == width,
            forall|k: int|
                0 <= k < width ==> #[trigger] digits@[k] == digit_byte(
                    ((n as nat / pow10(k as nat)) % 10) as int,
                ),
            r@ == decimal_digits(n as nat / pow10((width - j) as nat), j as nat),
        decreases width - j,
    {
        let k = width - 1 - j;
        proof {
            lemma_pow10_step(n as nat, k as nat);
        }
        r.push(digits[k]);
        j = j + 1;
        proof {
            let q = n as nat / pow10((width - j) as nat);
            assert(q / 10 == n as nat / pow10((width - (j - 1)) as nat));
        }
    }
    r
}

/// `10^e`.
pub open spec fn pow10(e: nat) -> nat
    decreases e,
{
    if e == 0 {
        1
    } else {
        10 * pow10((e - 1) as nat)
    }
}

proof fn lemma_pow10_step(n: nat, e: nat)
    ensures
        pow10(e) > 0,
        n / pow10(e + 1) == (n / pow10(e)) / 10,
    decreases e,
{
    if e > 0 {
        lemma_pow10_step(n, (e - 1) as nat);
    }
    let p = pow10(e);
    assert(pow10(e + 1) == 10 * p);
    vstd::arithmetic::div_mod::lemma_div_denominator(n as int, p as int, 10);
    assert(p * 10 == 10 * p) by (nonlinear_arith);
}

} // verus!

verus! {

/// Append all of `s` to `v`.
pub fn append_bytes(v: &mut Vec<u8>, s: &[u8])
    ensures
        final(v)@ == old(v)@ + s@,
{
    let mut i: usize = 0;
    while i < s.len()
        invariant
            i <= s@.len(),
            v@ == old(v)@ + s@.subrange(0, i as int),
        decreases s@.len() - i,
    {
        v.push(s[i]);
        i = i + 1;
        assert(v@ =~= old(v)@ + s@.subrange(0, i as int));
    }
    assert(s@.subrange(0, s@.len() as int) =~= s@);
}

pub proof fn lemma_digits_are_ascii(n: nat, width: nat)
    ensures
        forall|i: int|
            0 <= i < decimal_digits(n, width).len() ==> #[trigger] decimal_digits(n, width)[i]
                < 0x80,
{
    lemma_decimal_digits_shape(n, width);
    assert forall|i: int| 0 <= i < decimal_digits(n, width).len() implies #[trigger] decimal_digits(
        n,
        width,
    )[i] < 0x80 by {
        assert(0x30 <= decimal_digits(n, width)[i] <= 0x39);
    }
}

} // verus!

verus! {

/// The decimal digits of `n` without leading zeros ("0" for zero), as
/// `n.to_string()` writes them.
pub open spec fn dec(n: nat) -> Seq<u8>
    decreases n,
{
    if n < 10 {
        seq![digit_byte(n as int)]
    } else {
        dec(n / 10).push(digit_byte((n % 10) as int))
    }
}

proof fn lemma_dec_ascii(n: nat)
    ensures
        forall|i: int| 0 <= i < dec(n).len() ==> #[trigger] dec(n)[i] < 0x80,
        dec(n).len() >= 1,
    decreases n,
{
    if n >= 10 {
        lemma_dec_ascii(n / 10);
        assert forall|i: int| 0 <= i < dec(n).len() implies #[trigger] dec(n)[i] < 0x80 by {
            if i < dec(n).len() - 1 {
                assert(dec(n)[i] == dec(n / 10)[i]);
            }
        }
    }
}

/// The decimal digits of `n`, most significant first.
pub fn dec_bytes(n: u64) -> (r: Vec<u8>)
    ensures
        r@ == dec(n as nat),
    decreases n,
{
    if n < 10 {
        let mut v: Vec<u8> = Vec::new();
        v.push((0x30 + n) as u8);
        assert(v@ =~= dec(n as nat));
        v
    } else {
        let mut v = dec_bytes(n / 10);
        v.push((0x30 + n % 10) as u8);
        v
    }
}

/// `n` in decimal (`n.to_string()`).
pub fn decimal_string(n: u64) -> (s: String)
    ensures
        s@ == ascii_chars(dec(n as nat)),
{
    let v = dec_bytes(n);
    proof {
        lemma_dec_ascii(n as nat);
    }
    ascii_string(v.as_slice())
}

} // verus!
