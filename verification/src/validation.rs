//! The checks that payload fields are held to.

use vstd::prelude::*;
use vstd::utf8::*;

verus! {

/// No byte of the UTF-8 form of a scalar is `0x40` unless the scalar is `@`
/// itself.
proof fn lemma_scalar_at_sign(c: u32)
    requires
        is_scalar(c),
    ensures
        forall|i: int|
            0 <= i < encode_scalar(c).len() ==> (#[trigger] encode_scalar(c)[i] == 0x40u8 <==> c
                == 0x40u32),
{
    let b = encode_scalar(c);
    if has_width_1_encoding(c) {
        assert(leading_byte_width_1(c) == 0x40u8 <==> c == 0x40u32) by (bit_vector)
            requires
                c <= 0x7Fu32,
        ;
    } else {
        assert(c != 0x40u32);
        assert(leading_byte_width_2(c) != 0x40u8) by (bit_vector);
        assert(leading_byte_width_3(c) != 0x40u8) by (bit_vector);
        assert(leading_byte_width_4(c) != 0x40u8) by (bit_vector);
        assert(last_continuation_byte(c) != 0x40u8) by (bit_vector);
        assert(second_last_continuation_byte(c) != 0x40u8) by (bit_vector);
        assert(third_last_continuation_byte(c) != 0x40u8) by (bit_vector);
    }
}

/// A text holds `@` exactly when its UTF-8 form holds the byte `0x40`.
pub proof fn lemma_at_sign_in_utf8(chars: Seq<char>)
    ensures
        encode_utf8(chars).contains(0x40u8) <==> chars.contains('@'),
    decreases chars.len(),
{
    if chars.len() > 0 {
        let head = encode_scalar(chars[0] as u32);
        let rest = chars.drop_first();
        let tail = encode_utf8(rest);
        char_is_scalar(chars[0]);
        char_u32_cast(chars[0], chars[0] as u32);
        char_u32_cast('@', 0x40u32);
        assert(chars[0] as u32 == 0x40u32 <==> chars[0] == '@');
        lemma_scalar_at_sign(chars[0] as u32);
        lemma_at_sign_in_utf8(rest);
        assert(encode_utf8(chars) == head + tail);
        if encode_utf8(chars).contains(0x40u8) {
            let i = choose|i: int| 0 <= i < (head + tail).len() && (head + tail)[i] == 0x40u8;
            if i < head.len() {
                assert(head[i] == 0x40u8);
                assert(chars[0] == '@');
            } else {
                assert(tail[i - head.len()] == 0x40u8);
                assert(tail.contains(0x40u8));
                let j = choose|j: int| 0 <= j < rest.len() && rest[j] == '@';
                assert(chars[j + 1] == '@');
            }
        }
        if chars.contains('@') {
            let j = choose|j: int| 0 <= j < chars.len() && chars[j] == '@';
            if j == 0 {
                assert(head.len() >= 1);
                assert(head[0] == 0x40u8);
                assert((head + tail)[0] == 0x40u8);
            } else {
                assert(rest[j - 1] == '@');
                assert(rest.contains('@'));
                let i = choose|i: int| 0 <= i < tail.len() && tail[i] == 0x40u8;
                assert((head + tail)[head.len() + i] == 0x40u8);
            }
        }
    }
}

/// Whether the text holds the character `@`.
pub fn has_at_sign(s: &str) -> (r: bool)
    ensures
        r == s@.contains('@'),
{
    let bytes = s.as_bytes();
    let mut i: usize = 0;
    while i < bytes.len()
        invariant
            i <= bytes@.len(),
            bytes@ == encode_utf8(s@),
            forall|j: int| 0 <= j < i ==> bytes@[j] != 0x40u8,
        decreases bytes.len() - i,
    {
        if bytes[i] == 0x40 {
            proof {
                lemma_at_sign_in_utf8(s@);
            }
            return true;
        }
        i += 1;
    }
    proof {
        lemma_at_sign_in_utf8(s@);
    }
    false
}

/// Whether the text is exactly `n` characters long.
pub fn has_length(s: &str, n: usize) -> (r: bool)
    ensures
        r == (s@.len() == n),
{
    s.unicode_len() == n
}

} // verus!
