//! Register words and their big-endian byte images.
//!
//! A register of `n` bytes is read as one big-endian integer of `8 * n` bits: the first
//! byte on the wire holds the most significant bits. Bit `k` of a register (counted from
//! the least significant end) is bit `k` of that integer.

use vstd::prelude::*;

verus! {

/// The integer that a byte sequence holds, most significant byte first.
pub open spec fn word_of(bytes: Seq<u8>) -> u64
    decreases bytes.len(),
{
    if bytes.len() == 0 {
        0
    } else {
        (word_of(bytes.drop_last()) << 8u64) | (bytes.last() as u64)
    }
}

/// The `n` bytes of `w`, most significant byte first.
pub open spec fn bytes_of(w: u64, n: nat) -> Seq<u8> {
    Seq::new(n, |i: int| ((w >> ((8 * (n - 1 - i)) as u64)) & 0xff) as u8)
}

/// The `width` bits of `w` that start at bit `lo`.
pub open spec fn field(w: u64, lo: u64, width: u64) -> u64 {
    (w >> lo) & (((1u64 << width) - 1) as u64)
}

/// `w` fits in `n` bytes.
pub open spec fn fits(w: u64, n: nat) -> bool {
    n >= 8 || w < (1u64 << ((8 * n) as u64))
}

proof fn lemma_shift_compose(w: u64, k: u64)
    requires
        k <= 48,
    ensures
        (w >> 8u64) >> k == w >> ((k + 8) as u64),
{
    assert((w >> 8u64) >> k == w >> ((k + 8) as u64)) by (bit_vector)
        requires
            k <= 48,
    ;
}

proof fn lemma_split_low_byte(w: u64, s: u64)
    requires
        8 <= s <= 56,
        w < (1u64 << s),
    ensures
        (w >> 8u64) < (1u64 << ((s - 8) as u64)),
        ((w >> 8u64) << 8u64) | (((w & 0xff) as u8) as u64) == w,
{
    assert((w >> 8u64) < (1u64 << ((s - 8) as u64))) by (bit_vector)
        requires
            8 <= s <= 56,
            w < (1u64 << s),
    ;
    assert(((w >> 8u64) << 8u64) | (((w & 0xff) as u8) as u64) == w) by (bit_vector);
}

/// Reading back the bytes of a word that fits gives the word.
pub proof fn lemma_word_of_bytes_of(w: u64, n: nat)
    requires
        1 <= n <= 7,
        fits(w, n),
    ensures
        word_of(bytes_of(w, n)) == w,
    decreases n,
{
    let b = bytes_of(w, n);
    if n == 1 {
        assert(w < 256) by (bit_vector)
            requires
                w < (1u64 << 8u64),
        ;
        assert(b.drop_last() =~= Seq::<u8>::empty());
        assert(((w >> 0u64) & 0xff) as u8 as u64 == w) by (bit_vector)
            requires
                w < 256,
        ;
        assert(word_of(Seq::<u8>::empty()) == 0);
        assert((0u64 << 8u64) | w == w) by (bit_vector);
    } else {
        let hi = w >> 8u64;
        lemma_split_low_byte(w, (8 * n) as u64);
        lemma_word_of_bytes_of(hi, (n - 1) as nat);
        assert forall|i: int| 0 <= i < n - 1 implies #[trigger] b.drop_last()[i] == bytes_of(
            hi,
            (n - 1) as nat,
        )[i] by {
            lemma_shift_compose(w, (8 * (n - 2 - i)) as u64);
        }
        assert(b.drop_last() =~= bytes_of(hi, (n - 1) as nat));
        assert(b.last() == ((w >> 0u64) & 0xff) as u8);
        assert(w >> 0u64 == w) by (bit_vector);
    }
}

/// The `n` bytes of `w`, most significant first.
pub fn to_be_bytes(w: u64, n: usize) -> (r: Vec<u8>)
    requires
        n <= 8,
    ensures
        r@ == bytes_of(w, n as nat),
{
    let mut r: Vec<u8> = Vec::new();
    let mut i: usize = 0;
    while i < n
        invariant
            i <= n,
            n <= 8,
            r@ =~= bytes_of(w, n as nat).take(i as int),
        decreases n - i,
    {
        let shift: u64 = 8 * ((n - 1 - i) as u64);
        r.push(((w >> shift) & 0xff) as u8);
        i = i + 1;
        assert(r@ =~= bytes_of(w, n as nat).take(i as int));
    }
    r
}

/// The integer that `bytes` holds, most significant byte first.
pub fn from_be_bytes(bytes: &[u8]) -> (r: u64)
    requires
        bytes@.len() <= 8,
    ensures
        r == word_of(bytes@),
{
    let mut w: u64 = 0;
    let mut i: usize = 0;
    while i < bytes.len()
        invariant
            i <= bytes@.len(),
            w == word_of(bytes@.take(i as int)),
        decreases bytes@.len() - i,
    {
        assert(bytes@.take(i + 1).drop_last() =~= bytes@.take(i as int));
        w = (w << 8u64) | (bytes[i] as u64);
        i = i + 1;
    }
    assert(bytes@.take(bytes@.len() as int) =~= bytes@);
    w
}

/// The `width` bits of `w` that start at bit `lo`.
pub fn get_field(w: u64, lo: u64, width: u64) -> (r: u64)
    requires
        lo < 64,
        1 <= width < 64,
    ensures
        r == field(w, lo, width),
        r < (1u64 << width),
{
    assert((1u64 << width) >= 1 && (w >> lo) & (((1u64 << width) - 1) as u64) < (1u64 << width))
        by (bit_vector)
        requires
            width < 64,
    ;
    (w >> lo) & ((1u64 << width) - 1)
}

/// The word whose `width`-bit digits, most significant first, are `d`.
pub open spec fn digits_word(d: Seq<u64>, width: u64) -> u64
    decreases d.len(),
{
    if d.len() == 0 {
        0
    } else {
        (digits_word(d.drop_last(), width) << width) | d.last()
    }
}

/// The `n` digits of `width` bits that `w` holds above its lowest `pad` bits, most
/// significant first.
pub open spec fn digits_of(w: u64, pad: u64, width: u64, n: nat) -> Seq<u64> {
    Seq::new(n, |i: int| field(w, (pad + width * (n - 1 - i)) as u64, width))
}

/// Each digit is below `2^width`.
pub open spec fn digits_fit(d: Seq<u64>, width: u64) -> bool {
    forall|i: int| 0 <= i < d.len() ==> #[trigger] d[i] < (1u64 << width)
}

proof fn lemma_digit_step(a: u64, x: u64, width: u64, pad: u64, k: u64)
    requires
        1 <= width <= 4,
        pad <= 32,
        x < (1u64 << width),
        pad + width <= k,
        k + width <= 64,
    ensures
        field(((a << width) | x) << pad, k, width) == field(a << ((pad + width) as u64), k, width),
        field(((a << width) | x) << pad, pad, width) == x,
{
    assert(((((a << width) | x) << pad) >> k) & (((1u64 << width) - 1) as u64) == ((a << ((pad
        + width) as u64)) >> k) & (((1u64 << width) - 1) as u64)) by (bit_vector)
        requires
            1 <= width <= 4,
            pad <= 32,
            x < (1u64 << width),
            pad + width <= k,
            k + width <= 64,
    ;
    assert(((((a << width) | x) << pad) >> pad) & (((1u64 << width) - 1) as u64) == x)
        by (bit_vector)
        requires
            1 <= width <= 4,
            pad <= 32,
            x < (1u64 << width),
    ;
}

/// Reading the digits back out of a word built from them gives the digits.
pub proof fn lemma_digits_round_trip(d: Seq<u64>, width: u64, pad: u64)
    requires
        1 <= width <= 4,
        pad + width * d.len() <= 32,
        digits_fit(d, width),
    ensures
        digits_of(digits_word(d, width) << pad, pad, width, d.len()) =~= d,
    decreases d.len(),
{
    if d.len() > 0 {
        let n = d.len();
        let a = digits_word(d.drop_last(), width);
        let x = d.last();
        assert(digits_fit(d.drop_last(), width)) by {
            assert forall|i: int| 0 <= i < d.drop_last().len() implies #[trigger] d.drop_last()[i]
                < (1u64 << width) by {
                assert(d.drop_last()[i] == d[i]);
            }
        }
        assert(width * d.len() == width * (d.len() - 1) + width) by (nonlinear_arith);
        lemma_digits_round_trip(d.drop_last(), width, (pad + width) as u64);
        let w = digits_word(d, width) << pad;
        let tail = digits_of(a << ((pad + width) as u64), (pad + width) as u64, width, (n - 1) as nat);
        assert(tail =~= d.drop_last());
        assert forall|i: int| 0 <= i < n implies #[trigger] digits_of(w, pad, width, n)[i]
            == d[i] by {
            assert(width * (n - 1 - i) + width <= width * n) by (nonlinear_arith)
                requires
                    0 <= i < n,
                    width >= 1,
            ;
            let k = (pad + width * (n - 1 - i)) as u64;
            assert(k + width <= 32);
            assert(digits_of(w, pad, width, n)[i] == field(w, k, width));
            if i < n - 1 {
                assert(width * (n - 1 - i) == width * (n - 2 - i) + width) by (nonlinear_arith);
                assert(k == (pad + width) + width * (n - 2 - i));
                lemma_digit_step(a, x, width, pad, k);
                assert(tail[i] == field(a << ((pad + width) as u64), k, width));
                assert(tail[i] == d[i]);
            } else {
                assert(n - 1 - i == 0);
                assert(width * (n - 1 - i) == 0) by (nonlinear_arith)
                    requires
                        n - 1 - i == 0,
                ;
                assert(k == pad);
                lemma_digit_step(a, x, width, pad, (pad + width) as u64);
            }
        }
    }
}

/// A word of `n` digits of `width` bits fits in `width * n` bits.
pub proof fn lemma_digits_bound(d: Seq<u64>, width: u64)
    requires
        1 <= width <= 4,
        width * d.len() <= 32,
        digits_fit(d, width),
    ensures
        digits_word(d, width) < (1u64 << ((width * d.len()) as u64)),
    decreases d.len(),
{
    if d.len() == 0 {
        assert(0u64 < (1u64 << 0u64)) by (bit_vector);
    } else {
        let a = digits_word(d.drop_last(), width);
        let x = d.last();
        let s = (width * (d.len() - 1)) as u64;
        assert(width * d.len() == width * (d.len() - 1) + width) by (nonlinear_arith);
        assert(digits_fit(d.drop_last(), width)) by {
            assert forall|i: int| 0 <= i < d.drop_last().len() implies #[trigger] d.drop_last()[i]
                < (1u64 << width) by {
                assert(d.drop_last()[i] == d[i]);
            }
        }
        lemma_digits_bound(d.drop_last(), width);
        assert(x < (1u64 << width));
        assert((a << width) | x < (1u64 << ((s + width) as u64))) by (bit_vector)
            requires
                1 <= width <= 4,
                s + width <= 32,
                a < (1u64 << s),
                x < (1u64 << width),
        ;
    }
}

/// A word of `n` digits of `width` bits above `pad` zero bits fits in `bytes` bytes when
/// the bits add up.
pub proof fn lemma_digits_fits(d: Seq<u64>, width: u64, pad: u64, bytes: nat)
    requires
        1 <= width <= 4,
        1 <= bytes <= 4,
        pad + width * d.len() == 8 * bytes,
        digits_fit(d, width),
    ensures
        fits(digits_word(d, width) << pad, bytes),
{
    lemma_digits_bound(d, width);
    let a = digits_word(d, width);
    let s = (width * d.len()) as u64;
    assert((a << pad) < (1u64 << ((pad + s) as u64))) by (bit_vector)
        requires
            pad + s <= 32,
            a < (1u64 << s),
    ;
}

/// The word whose `width`-bit digits, most significant first, are `d`.
pub fn digits_to_word(d: &Vec<u64>, width: u64) -> (r: u64)
    requires
        1 <= width <= 4,
        width * d@.len() <= 32,
        digits_fit(d@, width),
    ensures
        r == digits_word(d@, width),
{
    let mut w: u64 = 0;
    let mut i: usize = 0;
    while i < d.len()
        invariant
            i <= d@.len(),
            1 <= width <= 4,
            w == digits_word(d@.take(i as int), width),
        decreases d@.len() - i,
    {
        assert(d@.take(i + 1).drop_last() =~= d@.take(i as int));
        w = (w << width) | d[i];
        i = i + 1;
    }
    assert(d@.take(d@.len() as int) =~= d@);
    w
}

/// The `n` digits of `width` bits that `w` holds above its lowest `pad` bits.
pub fn word_to_digits(w: u64, pad: u64, width: u64, n: usize) -> (r: Vec<u64>)
    requires
        1 <= width <= 4,
        pad + width * n <= 64,
    ensures
        r@ == digits_of(w, pad, width, n as nat),
{
    let mut r: Vec<u64> = Vec::new();
    let mut i: usize = 0;
    while i < n
        invariant
            i <= n,
            1 <= width <= 4,
            pad + width * n <= 64,
            r@ =~= digits_of(w, pad, width, n as nat).take(i as int),
        decreases n - i,
    {
        assert(width * ((n - 1 - i) as u64) + width <= width * n) by (nonlinear_arith)
            requires
                i < n,
                width >= 1,
        ;
        let lo: u64 = pad + width * ((n - 1 - i) as u64);
        let v = get_field(w, lo, width);
        r.push(v);
        i = i + 1;
        assert(r@ =~= digits_of(w, pad, width, n as nat).take(i as int));
    }
    r
}

/// The `n` bytes of a word whose `width`-bit digits are `d`, above `pad` zero bits.
pub fn pack_digits(d: &Vec<u64>, width: u64, pad: u64, n: usize) -> (r: Vec<u8>)
    requires
        1 <= width <= 4,
        1 <= n <= 4,
        pad + width * d@.len() == 8 * n,
        digits_fit(d@, width),
    ensures
        r@ == bytes_of(digits_word(d@, width) << pad, n as nat),
        r@.len() == n,
{
    let w = digits_to_word(d, width);
    to_be_bytes(w << pad, n)
}

/// The `count` digits of `width` bits that `bytes` hold above their lowest `pad` bits.
pub fn unpack_digits(bytes: &[u8], width: u64, pad: u64, count: usize) -> (r: Vec<u64>)
    requires
        1 <= width <= 4,
        bytes@.len() <= 8,
        pad + width * count <= 64,
    ensures
        r@ == digits_of(word_of(bytes@), pad, width, count as nat),
{
    let w = from_be_bytes(bytes);
    word_to_digits(w, pad, width, count)
}

/// The digits packed into `n` bytes read back as the same digits.
pub proof fn lemma_digits_image(d: Seq<u64>, width: u64, pad: u64, n: nat)
    requires
        1 <= width <= 4,
        1 <= n <= 4,
        pad + width * d.len() == 8 * n,
        digits_fit(d, width),
    ensures
        digits_of(word_of(bytes_of(digits_word(d, width) << pad, n)), pad, width, d.len()) =~= d,
{
    lemma_digits_fits(d, width, pad, n);
    lemma_word_of_bytes_of(digits_word(d, width) << pad, n);
    lemma_digits_round_trip(d, width, pad);
}

/// Bit `k` of `w` is set.
pub open spec fn bit_set(w: u64, k: u64) -> bool {
    (w >> k) & 1 == 1
}

/// Bit `k` of `w` is set.
pub fn test_bit(w: u64, k: u64) -> (r: bool)
    requires
        k < 64,
    ensures
        r == bit_set(w, k),
{
    (w >> k) & 1 == 1
}

/// The powers of two that the layouts use.
pub proof fn lemma_small_pows()
    ensures
        (1u64 << 1u64) == 2,
        (1u64 << 2u64) == 4,
        (1u64 << 16u64) == 0x1_0000,
        (1u64 << 24u64) == 0x100_0000,
{
    assert((1u64 << 1u64) == 2 && (1u64 << 2u64) == 4 && (1u64 << 16u64) == 0x1_0000 && (1u64
        << 24u64) == 0x100_0000) by (bit_vector);
}

/// The byte whose bits 7 down to 0 are the flags `b0` to `b7`.
#[verifier::opaque]
pub open spec fn flag_byte(b0: bool, b1: bool, b2: bool, b3: bool, b4: bool, b5: bool, b6: bool, b7: bool) -> u64 {
    (bit_of(b0) << 7u64) | (bit_of(b1) << 6u64) | (bit_of(b2) << 5u64) | (bit_of(b3) << 4u64) | (
    bit_of(b4) << 3u64) | (bit_of(b5) << 2u64) | (bit_of(b6) << 1u64) | bit_of(b7)
}

/// 1 for a set flag, 0 for a clear one.
pub open spec fn bit_of(b: bool) -> u64 {
    if b {
        1
    } else {
        0
    }
}

/// The byte whose bits 7 down to 0 are the flags `b0` to `b7`.
pub fn make_flag_byte(b0: bool, b1: bool, b2: bool, b3: bool, b4: bool, b5: bool, b6: bool, b7: bool) -> (r: u64)
    ensures
        r == flag_byte(b0, b1, b2, b3, b4, b5, b6, b7),
{
    reveal(flag_byte);
    let x0: u64 = if b0 { 1 } else { 0 };
    let x1: u64 = if b1 { 1 } else { 0 };
    let x2: u64 = if b2 { 1 } else { 0 };
    let x3: u64 = if b3 { 1 } else { 0 };
    let x4: u64 = if b4 { 1 } else { 0 };
    let x5: u64 = if b5 { 1 } else { 0 };
    let x6: u64 = if b6 { 1 } else { 0 };
    let x7: u64 = if b7 { 1 } else { 0 };
    (x0 << 7u64) | (x1 << 6u64) | (x2 << 5u64) | (x3 << 4u64) | (x4 << 3u64) | (x5 << 2u64) | (x6
        << 1u64) | x7
}

} // verus!
