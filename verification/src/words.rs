//! Packing bytes into words.
//!
//! The platform reads a thirty-two byte hash as four words, each taken
//! big-endian from eight consecutive bytes, and reads a compressed public
//! key's thirty-three bytes as five words: four from the leading thirty-two
//! bytes and a fifth holding the trailing byte alone.

use vstd::prelude::*;

use crate::types::Word;

verus! {

/// The word read big-endian from eight bytes: the first byte lands in the
/// most significant position, two's complement deciding the sign.
pub open spec fn be_word(b: Seq<u8>) -> Word
    recommends
        b.len() == 8,
{
    (((b[0] as u64) << 56) | ((b[1] as u64) << 48) | ((b[2] as u64) << 40)
        | ((b[3] as u64) << 32) | ((b[4] as u64) << 24) | ((b[5] as u64) << 16)
        | ((b[6] as u64) << 8) | (b[7] as u64)) as i64
}

/// Thirty-two bytes read as four big-endian words of eight bytes each.
pub open spec fn words4_of(b: Seq<u8>) -> Seq<Word>
    recommends
        b.len() == 32,
{
    seq![
        be_word(b.subrange(0, 8)),
        be_word(b.subrange(8, 16)),
        be_word(b.subrange(16, 24)),
        be_word(b.subrange(24, 32)),
    ]
}

/// A compressed public key's thirty-three bytes read as five words: the
/// leading thirty-two bytes as four big-endian words, and the trailing byte
/// alone as the fifth.
pub open spec fn key_words_of(b: Seq<u8>) -> Seq<Word>
    recommends
        b.len() == 33,
{
    words4_of(b.subrange(0, 32)) + seq![b[32] as Word]
}

/// Reads one word big-endian from the eight bytes of `b` starting at `i`.
fn word_from_be_bytes(b: &Vec<u8>, i: usize) -> (w: Word)
    requires
        i + 8 <= b@.len(),
    ensures
        w == be_word(b@.subrange(i as int, i as int + 8)),
{
    let n: usize = b.len();
    assert(i + 8 <= n);
    let w = (((b[i] as u64) << 56u64) | ((b[i + 1] as u64) << 48u64)
        | ((b[i + 2] as u64) << 40u64) | ((b[i + 3] as u64) << 32u64)
        | ((b[i + 4] as u64) << 24u64) | ((b[i + 5] as u64) << 16u64)
        | ((b[i + 6] as u64) << 8u64) | (b[i + 7] as u64)) as i64;
    proof {
        let s = b@.subrange(i as int, i as int + 8);
        assert(s[0] == b@[i as int]);
        assert(s[1] == b@[i as int + 1]);
        assert(s[2] == b@[i as int + 2]);
        assert(s[3] == b@[i as int + 3]);
        assert(s[4] == b@[i as int + 4]);
        assert(s[5] == b@[i as int + 5]);
        assert(s[6] == b@[i as int + 6]);
        assert(s[7] == b@[i as int + 7]);
    }
    w
}

/// Packs a thirty-two byte hash into its four big-endian words.
pub fn words4_from_bytes32(b: &Vec<u8>) -> (w: Vec<Word>)
    requires
        b@.len() == 32,
    ensures
        w@ == words4_of(b@),
{
    let mut w: Vec<Word> = Vec::new();
    w.push(word_from_be_bytes(b, 0));
    w.push(word_from_be_bytes(b, 8));
    w.push(word_from_be_bytes(b, 16));
    w.push(word_from_be_bytes(b, 24));
    proof {
        assert(w@ =~= words4_of(b@));
    }
    w
}

/// Packs a compressed public key's thirty-three bytes into its five words.
pub fn key_words_from_bytes33(b: &Vec<u8>) -> (w: Vec<Word>)
    requires
        b@.len() == 33,
    ensures
        w@ == key_words_of(b@),
{
    let mut w: Vec<Word> = Vec::new();
    w.push(word_from_be_bytes(b, 0));
    w.push(word_from_be_bytes(b, 8));
    w.push(word_from_be_bytes(b, 16));
    w.push(word_from_be_bytes(b, 24));
    w.push(b[32] as i64);
    proof {
        let lead = b@.subrange(0, 32);
        assert(lead.subrange(0, 8) =~= b@.subrange(0, 8));
        assert(lead.subrange(8, 16) =~= b@.subrange(8, 16));
        assert(lead.subrange(16, 24) =~= b@.subrange(16, 24));
        assert(lead.subrange(24, 32) =~= b@.subrange(24, 32));
        assert(w@ =~= key_words_of(b@));
    }
    w
}

} // verus!
