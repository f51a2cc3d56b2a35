//! The text of a filename as the native engine reads it: its UTF-8 bytes,
//! closed by one zero byte.

use vstd::prelude::*;
use vstd::utf8::*;

verus! {

/// Whether the text can be put to the engine whole: it holds no NUL
/// character, so its bytes can be closed by a zero byte without being cut
/// short. The empty text can: what it names is the engine's to say.
pub open spec fn nameable(name: Seq<char>) -> bool {
    !name.contains('\0')
}

/// The bytes that the engine is given for a name.
pub open spec fn c_text(name: Seq<char>) -> Seq<u8> {
    encode_utf8(name).push(0u8)
}

/// Only the NUL character has a zero byte in its encoding.
proof fn lemma_scalar_zero_byte(scalar: u32)
    requires
        is_scalar(scalar),
    ensures
        encode_scalar(scalar).len() > 0,
        encode_scalar(scalar).contains(0u8) <==> scalar == 0,
{
    let bytes = encode_scalar(scalar);
    if has_width_1_encoding(scalar) {
        assert((scalar & 0x7F) as u8 == 0 <==> scalar == 0) by (bit_vector)
            requires
                0 <= scalar <= 0x7F,
        ;
        assert(bytes[0] == leading_byte_width_1(scalar));
    } else {
        assert(0xC0u8 | ((scalar >> 6) & 0x1F) as u8 != 0) by (bit_vector);
        assert(0xE0u8 | ((scalar >> 12) & 0x0F) as u8 != 0) by (bit_vector);
        assert(0xF0u8 | ((scalar >> 18) & 0x7) as u8 != 0) by (bit_vector);
        assert(0x80u8 | (scalar & 0x3F) as u8 != 0) by (bit_vector);
        assert(0x80u8 | ((scalar >> 6) & 0x3F) as u8 != 0) by (bit_vector);
        assert(0x80u8 | ((scalar >> 12) & 0x3F) as u8 != 0) by (bit_vector);
        assert(forall|i: int| 0 <= i < bytes.len() ==> bytes[i] != 0);
    }
    if scalar == 0 {
        assert(bytes[0] == 0u8);
    }
}

/// An encoded text holds a zero byte exactly where the text holds a NUL
/// character.
pub proof fn lemma_zero_byte_is_nul(name: Seq<char>)
    ensures
        encode_utf8(name).contains(0u8) <==> name.contains('\0'),
    decreases name.len(),
{
    if name.len() > 0 {
        let first = name[0] as u32;
        let head = encode_scalar(first);
        let rest = name.drop_first();
        let tail = encode_utf8(rest);
        char_is_scalar(name[0]);
        lemma_scalar_zero_byte(first);
        lemma_zero_byte_is_nul(rest);
        assert(encode_utf8(name) == head + tail);
        assert(first == 0 <==> name[0] == '\0') by {
            char_u32_cast(name[0], first);
            char_u32_cast('\0', 0u32);
        }
        if (head + tail).contains(0u8) {
            let i = choose|i: int| 0 <= i < (head + tail).len() && (head + tail)[i] == 0u8;
            if i < head.len() {
                assert(head[i] == 0u8);
                assert(name[0] == '\0');
            } else {
                assert(tail[i - head.len()] == 0u8);
                let j = choose|j: int| 0 <= j < rest.len() && rest[j] == '\0';
                assert(name[j + 1] == '\0');
            }
        }
        if name.contains('\0') {
            let j = choose|j: int| 0 <= j < name.len() && name[j] == '\0';
            if j == 0 {
                let i = choose|i: int| 0 <= i < head.len() && head[i] == 0u8;
                assert((head + tail)[i] == 0u8);
            } else {
                assert(rest[j - 1] == '\0');
                let i = choose|i: int| 0 <= i < tail.len() && tail[i] == 0u8;
                assert((head + tail)[i + head.len()] == 0u8);
            }
        }
    }
}

/// The bytes to hand to the engine for a name, or nothing where the text
/// holds a NUL character. Nothing else is looked at, and nothing is changed.
pub fn to_c_text(name: &str) -> (text: Option<Vec<u8>>)
    ensures
        text is Some <==> nameable(name@),
        text is Some ==> text.unwrap()@ == c_text(name@),
{
    let bytes = name.as_bytes();
    let len = bytes.len();
    proof {
        lemma_zero_byte_is_nul(name@);
        assert(bytes@ == encode_utf8(name@));
    }
    let mut text: Vec<u8> = Vec::new();
    let mut i: usize = 0;
    while i < len
        invariant
            len == bytes@.len(),
            bytes@ == encode_utf8(name@),
            bytes@.contains(0u8) <==> name@.contains('\0'),
            i <= len,
            text@ == bytes@.subrange(0, i as int),
            forall|k: int| 0 <= k < i ==> bytes@[k] != 0u8,
        decreases len - i,
    {
        let byte = bytes[i];
        if byte == 0 {
            assert(bytes@.contains(0u8));
            return None;
        }
        text.push(byte);
        assert(text@ =~= bytes@.subrange(0, i + 1));
        i += 1;
    }
    assert(text@ =~= bytes@);
    assert(!bytes@.contains(0u8));
    text.push(0);
    Some(text)
}

} // verus!
