//! Spaces in the UTF-8 encoding of a text.
//!
//! A space is encoded as the single byte `0x20`, and no other character has
//! that byte anywhere in its encoding. So the first space of a text can be
//! found in its bytes, and the bytes on either side of it encode the
//! characters on either side of it.

use vstd::prelude::*;
use vstd::utf8::{
    char_u32_cast, encode_scalar, encode_utf8, encode_utf8_decode_utf8,
    encode_utf8_first_scalar, is_char_boundary, is_char_boundary_iff_not_is_continuation_byte,
    length_of_first_scalar, valid_utf8, valid_utf8_split,
};
use crate::split::{first_space, lemma_first_space};

verus! {

/// The byte that encodes a space.
pub const SPACE_BYTE: u8 = 0x20;

/// `cut` is the place of the first space byte in `bytes`, or the length of
/// `bytes` where they hold none.
pub open spec fn first_space_byte_at(bytes: Seq<u8>, cut: int) -> bool {
    &&& 0 <= cut <= bytes.len()
    &&& forall|j: int| 0 <= j < cut ==> #[trigger] bytes[j] != SPACE_BYTE
    &&& cut < bytes.len() ==> bytes[cut] == SPACE_BYTE
}

/// Masking a byte below `0x80` to its low seven bits changes nothing.
proof fn lemma_low_byte_keeps_its_bits(byte: u8)
    by (bit_vector)
    requires
        byte <= 0x7f,
    ensures
        byte & 0x7f == byte,
{
}

/// The encoding of a text begins with the encoding of its first character,
/// which is the byte `0x20` for a space and free of that byte otherwise.
pub proof fn lemma_first_character_encoded(text: Seq<char>)
    requires
        text.len() > 0,
    ensures
        encode_utf8(text) == encode_scalar(text[0] as u32) + encode_utf8(text.drop_first()),
        text[0] == ' ' ==> encode_scalar(text[0] as u32) == seq![SPACE_BYTE],
        text[0] != ' ' ==> forall|j: int|
            0 <= j < encode_scalar(text[0] as u32).len() ==> #[trigger] encode_scalar(
                text[0] as u32,
            )[j] != SPACE_BYTE,
        1 <= encode_scalar(text[0] as u32).len() <= 4,
{
    let bytes = encode_utf8(text);
    let first = encode_scalar(text[0] as u32);
    let width = length_of_first_scalar(bytes);
    encode_utf8_first_scalar(text);
    assert forall|j: int| 0 <= j < width implies #[trigger] first[j] == bytes[j] by {}
    if width == 1 {
        // A single byte is the character's own number.
        lemma_low_byte_keeps_its_bits(bytes[0]);
        if text[0] != ' ' && bytes[0] == SPACE_BYTE {
            char_u32_cast(text[0], 0x20u32);
            char_u32_cast(' ', 0x20u32);
        }
    } else {
        // Every byte of a longer encoding is 0x80 or more.
        assert forall|j: int| 0 <= j < width implies #[trigger] first[j] != SPACE_BYTE by {}
    }
}

/// The first space byte of an encoding stands where the first space of the
/// text is encoded: the bytes before it encode the characters before that
/// space, the bytes after it the characters after, and the bytes hold no
/// space byte exactly when the text holds no space.
pub proof fn lemma_first_space_in_encoding(text: Seq<char>, cut: int)
    requires
        first_space_byte_at(encode_utf8(text), cut),
    ensures
        encode_utf8(text.take(first_space(text))) == encode_utf8(text).take(cut),
        cut < encode_utf8(text).len() <==> first_space(text) < text.len(),
        cut < encode_utf8(text).len() ==> encode_utf8(text.skip(first_space(text) + 1))
            == encode_utf8(text).skip(cut + 1),
    decreases text.len(),
{
    let bytes = encode_utf8(text);
    if text.len() > 0 {
        let first = encode_scalar(text[0] as u32);
        let rest = text.drop_first();
        lemma_first_character_encoded(text);
        if text[0] == ' ' {
            // The text begins with the space, the bytes with its byte.
            assert(bytes[0] == first[0]);
        } else {
            // The first character holds no space byte, so the cut lies in
            // the bytes of the rest, as far in as the rest's own first space.
            let width = first.len() as int;
            let later = encode_utf8(rest);
            assert forall|j: int| 0 <= j < cut - width implies #[trigger] later[j]
                != SPACE_BYTE by {
                assert(later[j] == bytes[j + width]);
            }
            lemma_first_space_in_encoding(rest, cut - width);
            let place = first_space(rest);
            lemma_first_space(rest);
            assert(text.take(place + 1).drop_first() =~= rest.take(place));
            if cut < bytes.len() {
                assert(text.skip(place + 2) =~= rest.skip(place + 1));
            }
        }
    }
}

/// A space byte in well-formed UTF-8 is a character of its own: a character
/// begins at it and the next begins right behind it.
pub proof fn lemma_space_byte_is_a_character(bytes: Seq<u8>, cut: int)
    requires
        valid_utf8(bytes),
        0 <= cut < bytes.len(),
        bytes[cut] == SPACE_BYTE,
    ensures
        is_char_boundary(bytes, cut),
        valid_utf8(bytes.skip(cut)),
        is_char_boundary(bytes.skip(cut), 1),
{
    is_char_boundary_iff_not_is_continuation_byte(bytes, cut);
    valid_utf8_split(bytes, cut);
    reveal_with_fuel(is_char_boundary, 2);
}

/// Texts with the same encoding are the same text.
pub proof fn lemma_encoding_tells_texts_apart(first: Seq<char>, second: Seq<char>)
    requires
        encode_utf8(first) == encode_utf8(second),
    ensures
        first == second,
{
    encode_utf8_decode_utf8(first);
    encode_utf8_decode_utf8(second);
}

} // verus!
