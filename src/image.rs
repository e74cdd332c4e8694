//! The program image format: a big-endian origin word, then big-endian words
//! placed one after another from the origin, the address wrapping past
//! `0xFFFF`.
use vstd::prelude::*;

use byteorder::{BigEndian, ByteOrder};

verus! {

/// The word whose big-endian bytes are `hi`, `lo`.
pub open spec fn be_word(hi: u8, lo: u8) -> u16 {
    ((hi as u16) << 8) | (lo as u16)
}

/// Relies on byteorder's `BigEndian::read_u16`: the two bytes at `at`, most
/// significant first. It panics on fewer than two bytes, which `requires`
/// rules out.
#[verifier::external_body]
pub(crate) fn read_be_u16(buf: &[u8], at: usize) -> (r: u16)
    requires
        at + 2 <= buf@.len(),
    ensures
        r == be_word(buf@[at as int], buf@[at + 1]),
{
    BigEndian::read_u16(&buf[at..])
}

/// The origin of an image of at least two bytes.
pub open spec fn image_origin(bytes: Seq<u8>) -> u16 {
    be_word(bytes[0], bytes[1])
}

/// The words of an image after its origin; an odd last byte is no word.
pub open spec fn image_words(bytes: Seq<u8>) -> Seq<u16> {
    Seq::new(
        ((bytes.len() - 2) / 2) as nat,
        |k: int| be_word(bytes[2 + 2 * k], bytes[3 + 2 * k]),
    )
}

/// Memory after the first `k` of `words` were written from `origin` on.
pub open spec fn placed(mem: Seq<u16>, origin: u16, words: Seq<u16>, k: nat) -> Seq<u16>
    decreases k,
{
    if k == 0 {
        mem
    } else {
        placed(mem, origin, words, (k - 1) as nat).update(
            (origin + k - 1) % 65536,
            words[k - 1],
        )
    }
}

/// Memory after an image of at least two bytes was loaded into it.
pub open spec fn loaded(mem: Seq<u16>, bytes: Seq<u8>) -> Seq<u16> {
    let words = image_words(bytes);
    placed(mem, image_origin(bytes), words, words.len())
}

/// The image of `words` placed at `origin`.
pub open spec fn image_of(origin: u16, words: Seq<u16>) -> Seq<u8> {
    Seq::new(
        2 + 2 * words.len(),
        |j: int|
            {
                let w = if j < 2 { origin } else { words[(j - 2) / 2] };
                if j % 2 == 0 { (w >> 8) as u8 } else { (w & 0xFF) as u8 }
            },
    )
}

proof fn lemma_be_word_split(w: u16)
    ensures
        be_word((w >> 8) as u8, (w & 0xFF) as u8) == w,
{
    assert((((((w >> 8) as u8) as u16) << 8) | (((w & 0xFF) as u8) as u16)) == w) by (bit_vector);
}

proof fn lemma_placed(mem: Seq<u16>, origin: u16, words: Seq<u16>, n: nat)
    requires
        mem.len() == 65536,
        n <= words.len(),
        n <= 65536,
    ensures
        placed(mem, origin, words, n).len() == 65536,
        forall|k: int| 0 <= k < n ==> placed(mem, origin, words, n)[(origin + k) % 65536] == words[k],
        forall|a: int|
            0 <= a < 65536 && (a - origin) % 65536 >= n ==> #[trigger] placed(mem, origin, words, n)[a]
                == mem[a],
    decreases n,
{
    if n > 0 {
        lemma_placed(mem, origin, words, (n - 1) as nat);
        let last = (origin + n - 1) % 65536;
        assert forall|k: int| 0 <= k < n implies #[trigger] placed(mem, origin, words, n)[(origin + k)
            % 65536] == words[k] by {
            if k < n - 1 {
                assert(0 < (n - 1) - k < 65536);
                assert((origin + k) % 65536 != last);
            }
        }
        assert forall|a: int| 0 <= a < 65536 && (a - origin) % 65536 >= n implies #[trigger] placed(
            mem,
            origin,
            words,
            n,
        )[a] == mem[a] by {
            if a == last {
                assert((a - origin) % 65536 == n - 1);
            }
        }
    }
}

/// Writing an image of origin `origin` and at most 65536 `words`, then loading
/// it, puts `words[k]` at address `(origin + k) mod 65536` for every `k`,
/// wrapping past `0xFFFF`, and leaves every other word as it was.
pub proof fn lemma_load_round_trip(mem: Seq<u16>, origin: u16, words: Seq<u16>)
    requires
        mem.len() == 65536,
        words.len() <= 65536,
    ensures
        image_origin(image_of(origin, words)) == origin,
        image_words(image_of(origin, words)) == words,
        forall|k: int|
            0 <= k < words.len() ==> loaded(mem, image_of(origin, words))[(origin + k) % 65536]
                == words[k],
        forall|a: int|
            0 <= a < 65536 && (a - origin) % 65536 >= words.len() ==> #[trigger] loaded(
                mem,
                image_of(origin, words),
            )[a] == mem[a],
{
    let bytes = image_of(origin, words);
    lemma_be_word_split(origin);
    assert forall|k: int| 0 <= k < words.len() implies be_word(bytes[2 + 2 * k], bytes[3 + 2 * k])
        == words[k] by {
        assert((2 + 2 * k - 2) / 2 == k);
        assert((3 + 2 * k - 2) / 2 == k);
        assert((2 + 2 * k) % 2 == 0);
        assert((3 + 2 * k) % 2 == 1);
        lemma_be_word_split(words[k]);
    }
    assert(image_words(bytes) =~= words);
    lemma_placed(mem, origin, words, words.len());
}

} // verus!
