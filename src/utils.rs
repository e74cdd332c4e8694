//! Word arithmetic shared by the decoder.
use vstd::prelude::*;

verus! {

/// The bits of a word at positions `n` and above (for `n < 16`).
pub open spec fn high_bits(n: u16) -> u16 {
    0xFFFFu16 << n
}

/// Bit `i` of `x`, as `0` or `1`.
pub open spec fn bit(x: u16, i: u16) -> u16 {
    (x >> i) & 1
}

/// `x` read as a two's-complement field of width `n`, widened to 16 bits:
/// the low `n` bits kept and bit `n - 1` copied into every bit above them.
/// A width of 0 marks no bit as significant and a width of 16 or more marks
/// all of them, so in both cases the word is returned as it is.
pub open spec fn sext(x: u16, n: u16) -> u16 {
    if n == 0 || n >= 16 {
        x
    } else if bit(x, (n - 1) as u16) == 1 {
        x | high_bits(n)
    } else {
        x & !high_bits(n)
    }
}

/// Widens the low `bit_count` bits of `x`, a two's-complement field, to a
/// full word.
pub fn sign_extend(x: u16, bit_count: u16) -> (r: u16)
    ensures
        r == sext(x, bit_count),
{
    if bit_count == 0 || bit_count >= 16 {
        return x;
    }
    let high: u16 = 0xFFFFu16 << bit_count;
    if (x >> (bit_count - 1)) & 1 == 1 {
        x | high
    } else {
        x & !high
    }
}

/// Sign extension to width `n` (from 1 to 15) keeps the low `n` bits of the
/// word and sets every bit above them to bit `n - 1`; with width 0 the word is
/// unchanged.
pub proof fn lemma_sign_extend_bits(x: u16, n: u16)
    requires
        n < 16,
    ensures
        n == 0 ==> sext(x, n) == x,
        1 <= n ==> sext(x, n) & !high_bits(n) == x & !high_bits(n),
        1 <= n && bit(x, (n - 1) as u16) == 1 ==> sext(x, n) & high_bits(n) == high_bits(n),
        1 <= n && bit(x, (n - 1) as u16) == 0 ==> sext(x, n) & high_bits(n) == 0,
{
    if 1 <= n {
        let m = (n - 1) as u16;
        assert((x | (0xFFFFu16 << n)) & !(0xFFFFu16 << n) == x & !(0xFFFFu16 << n)) by (bit_vector);
        assert((x & !(0xFFFFu16 << n)) & !(0xFFFFu16 << n) == x & !(0xFFFFu16 << n)) by (bit_vector);
        assert((x | (0xFFFFu16 << n)) & (0xFFFFu16 << n) == (0xFFFFu16 << n)) by (bit_vector);
        assert((x & !(0xFFFFu16 << n)) & (0xFFFFu16 << n) == 0) by (bit_vector);
        assert((x >> m) & 1 == 0 || (x >> m) & 1 == 1) by (bit_vector);
    }
}

} // verus!
