//! Character-index to byte-offset arithmetic over UTF-8 text.
//!
//! The cursor is counted in Unicode scalar values; the buffer is encoded in
//! UTF-8. These definitions relate the two: the width in bytes of a single
//! character's encoding, and the byte offset of a character position as the
//! encoded length of the prefix before it.

use vstd::prelude::*;

verus! {

use vstd::utf8::char_is_scalar;
use vstd::utf8::encode_scalar;
use vstd::utf8::encode_utf8;

/// The width in bytes of the UTF-8 encoding of one character.
pub open spec fn char_width(c: char) -> nat {
    encode_scalar(c as u32).len()
}

/// The byte offset of character position `k` within `s`: the length in
/// bytes of the UTF-8 encoding of the first `k` characters.
pub open spec fn byte_offset_of(s: Seq<char>, k: int) -> nat {
    encode_utf8(s.take(k)).len()
}

/// Computes the width in bytes of the UTF-8 encoding of `c`.
pub fn char_utf8_width(c: char) -> (w: usize)
    ensures
        w == char_width(c),
{
    proof {
        char_is_scalar(c);
    }
    let u = c as u32;
    if u < 0x80 {
        1
    } else if u < 0x800 {
        2
    } else if u < 0x10000 {
        3
    } else {
        4
    }
}

/// UTF-8 encoding distributes over concatenation of character sequences.
pub proof fn lemma_encode_utf8_concat(a: Seq<char>, b: Seq<char>)
    ensures
        encode_utf8(a + b) == encode_utf8(a) + encode_utf8(b),
    decreases a.len(),
{
    if a.len() == 0 {
        assert(a + b =~= b);
        assert(encode_utf8(a) + encode_utf8(b) =~= encode_utf8(b));
    } else {
        lemma_encode_utf8_concat(a.drop_first(), b);
        assert((a + b).drop_first() =~= a.drop_first() + b);
        assert((a + b)[0] == a[0]);
        assert(encode_utf8(a) + encode_utf8(b) =~= encode_scalar(a[0] as u32) + (encode_utf8(
            a.drop_first(),
        ) + encode_utf8(b)));
    }
}

/// Extending the prefix by one character grows the byte offset by that
/// character's encoded width.
pub proof fn lemma_byte_offset_step(s: Seq<char>, k: int)
    requires
        0 <= k < s.len(),
    ensures
        byte_offset_of(s, k + 1) == byte_offset_of(s, k) + char_width(s[k]),
{
    char_is_scalar(s[k]);
    assert(s.take(k + 1) =~= s.take(k) + seq![s[k]]);
    lemma_encode_utf8_concat(s.take(k), seq![s[k]]);
    assert(seq![s[k]].drop_first() =~= Seq::<char>::empty());
    assert(encode_utf8(Seq::<char>::empty()) =~= Seq::<u8>::empty());
    assert(encode_utf8(seq![s[k]]) =~= encode_scalar(s[k] as u32) + encode_utf8(
        seq![s[k]].drop_first(),
    ));
    assert(encode_utf8(seq![s[k]]) =~= encode_scalar(s[k] as u32));
}

/// Every character takes at least one byte: the encoding is at least as long
/// as the character sequence.
pub proof fn lemma_encode_utf8_len_ge(s: Seq<char>)
    ensures
        encode_utf8(s).len() >= s.len(),
    decreases s.len(),
{
    if s.len() > 0 {
        lemma_encode_utf8_len_ge(s.drop_first());
    }
}

/// The byte offset of any character position is at most the encoded length
/// of the whole text.
pub proof fn lemma_byte_offset_le_total(s: Seq<char>, k: int)
    requires
        0 <= k <= s.len(),
    ensures
        byte_offset_of(s, k) <= encode_utf8(s).len(),
{
    assert(s =~= s.take(k) + s.skip(k));
    lemma_encode_utf8_concat(s.take(k), s.skip(k));
}

} // verus!
