//! The syntax of account identifiers.

use vstd::prelude::*;
use vstd::utf8::{
    encode_scalar, encode_utf8, has_width_2_encoding, has_width_3_encoding, is_ascii_chars,
    is_ascii_chars_encode_utf8,
};

verus! {

/// The character that separates the levels of an account identifier: a
/// sub-account is named `<name>.<parent>`.
pub const NAMESPACE_SEPARATOR: char = '.';

/// A lower-case ASCII letter or a digit.
pub open spec fn is_alphanumeric(c: char) -> bool {
    ('a' <= c <= 'z') || ('0' <= c <= '9')
}

/// One of `-`, `_` and `.`.
pub open spec fn is_separator(c: char) -> bool {
    c == '-' || c == '_' || c == '.'
}

/// Whether `id` is a well-formed account identifier: between 2 and 64 characters,
/// each a lower-case letter, a digit or a separator, where a separator stands
/// neither at the start, nor at the end, nor directly behind another separator.
pub open spec fn is_account_id(id: Seq<char>) -> bool {
    &&& 2 <= id.len() <= 64
    &&& forall|i: int| 0 <= i < id.len() ==> is_alphanumeric(#[trigger] id[i]) || is_separator(id[i])
    &&& forall|i: int|
        0 <= i < id.len() && is_separator(#[trigger] id[i]) ==> 0 < i < id.len() - 1
            && !is_separator(id[i - 1])
}

/// The byte of a lower-case ASCII letter or of a digit.
pub open spec fn is_alphanumeric_byte(b: u8) -> bool {
    (0x61 <= b <= 0x7a) || (0x30 <= b <= 0x39)
}

/// The byte of `-`, of `_` or of `.`.
pub open spec fn is_separator_byte(b: u8) -> bool {
    b == 0x2d || b == 0x5f || b == 0x2e
}

/// Whether `bytes` are a well-formed account identifier: what [`is_account_id`]
/// says of characters, said of bytes.
pub open spec fn is_account_id_bytes(bytes: Seq<u8>) -> bool {
    &&& 2 <= bytes.len() <= 64
    &&& forall|i: int|
        0 <= i < bytes.len() ==> is_alphanumeric_byte(#[trigger] bytes[i]) || is_separator_byte(
            bytes[i],
        )
    &&& forall|i: int|
        0 <= i < bytes.len() && is_separator_byte(#[trigger] bytes[i]) ==> 0 < i < bytes.len() - 1
            && !is_separator_byte(bytes[i - 1])
}

/// `near_sdk::env::is_valid_account_id` is taken on trust. It is assumed to return
/// `true` exactly for the byte strings that [`is_account_id_bytes`] describes: it
/// rejects a length outside 2..=64, then walks the bytes once and rejects any byte
/// that is not a lower-case letter, a digit, `-`, `_` or `.`, any separator that
/// opens the string or follows another separator, and a string that ends in a
/// separator.
pub assume_specification[ near_sdk::env::is_valid_account_id ](account_id: &[u8]) -> (ok: bool)
    ensures
        ok == is_account_id_bytes(account_id@),
;

/// A character is a number from 0 to 0x10FFFF, and fits 32 bits.
proof fn lemma_char_bounds(c: char)
    ensures
        '\0' <= c <= '\u{10FFFF}',
        c as u32 == c as int,
{
}

/// Text with a character beyond ASCII is encoded with a byte beyond ASCII.
proof fn lemma_encoding_keeps_non_ascii(text: Seq<char>)
    requires
        !is_ascii_chars(text),
    ensures
        exists|j: int| 0 <= j < encode_utf8(text).len() && #[trigger] encode_utf8(text)[j] >= 0x80,
    decreases text.len(),
{
    assert(exists|k: int| 0 <= k < text.len() && !('\0' <= #[trigger] text[k] <= '\u{7f}'));
    let k = choose|k: int| 0 <= k < text.len() && !('\0' <= #[trigger] text[k] <= '\u{7f}');
    lemma_char_bounds(text[k]);
    lemma_char_bounds(text[0]);
    let first = text[0] as u32;
    let head = encode_scalar(first);
    let tail = encode_utf8(text.drop_first());
    assert(encode_utf8(text) == head + tail);
    if first > 0x7f {
        vstd::utf8::char_is_scalar(text[0]);
        if has_width_2_encoding(first) {
            let low = ((first >> 6) & 0x1F) as u8;
            assert((0xC0u8 | low) >= 0x80) by (bit_vector);
        } else if has_width_3_encoding(first) {
            let low = ((first >> 12) & 0x0F) as u8;
            assert((0xE0u8 | low) >= 0x80) by (bit_vector);
        } else {
            let low = ((first >> 18) & 0x7) as u8;
            assert((0xF0u8 | low) >= 0x80) by (bit_vector);
        }
        assert(head[0] >= 0x80);
        assert(encode_utf8(text)[0] == head[0]);
    } else {
        assert(k > 0);
        assert(text.drop_first()[k - 1] == text[k]);
        lemma_encoding_keeps_non_ascii(text.drop_first());
        let j = choose|j: int| 0 <= j < tail.len() && #[trigger] tail[j] >= 0x80;
        assert(head.len() == 1);
        assert(encode_utf8(text)[j + 1] == tail[j]);
    }
}

/// A text is a well-formed account identifier exactly if its UTF-8 encoding is
/// one, byte by byte.
pub proof fn lemma_account_id_encoding(id: Seq<char>)
    ensures
        is_account_id_bytes(encode_utf8(id)) == is_account_id(id),
{
    let bytes = encode_utf8(id);
    if is_ascii_chars(id) {
        is_ascii_chars_encode_utf8(id);
        assert forall|i: int| 0 <= i < id.len() implies (is_alphanumeric_byte(bytes[i])
            == is_alphanumeric(id[i])) && (is_separator_byte(bytes[i]) == is_separator(id[i])) by {
            assert('\0' <= id[i] <= '\u{7f}');
            assert(bytes[i] == id[i] as u8);
        }
        if is_account_id(id) {
            assert forall|i: int| 0 <= i < bytes.len() implies is_alphanumeric_byte(
                #[trigger] bytes[i],
            ) || is_separator_byte(bytes[i]) by {
                assert(is_alphanumeric(id[i]) || is_separator(id[i]));
            }
            assert forall|i: int|
                0 <= i < bytes.len() && is_separator_byte(#[trigger] bytes[i]) implies 0 < i
                < bytes.len() - 1 && !is_separator_byte(bytes[i - 1]) by {
                assert(is_separator(id[i]));
            }
        }
        if is_account_id_bytes(bytes) {
            assert forall|i: int| 0 <= i < id.len() implies is_alphanumeric(#[trigger] id[i])
                || is_separator(id[i]) by {
                assert(is_alphanumeric_byte(bytes[i]) || is_separator_byte(bytes[i]));
            }
            assert forall|i: int| 0 <= i < id.len() && is_separator(#[trigger] id[i]) implies 0
                < i < id.len() - 1 && !is_separator(id[i - 1]) by {
                assert(is_separator_byte(bytes[i]));
            }
        }
    } else {
        let i = choose|i: int| 0 <= i < id.len() && !('\0' <= #[trigger] id[i] <= '\u{7f}');
        assert(!is_alphanumeric(id[i]) && !is_separator(id[i]));
        lemma_encoding_keeps_non_ascii(id);
        let j = choose|j: int| 0 <= j < bytes.len() && #[trigger] bytes[j] >= 0x80;
        assert(!is_alphanumeric_byte(bytes[j]) && !is_separator_byte(bytes[j]));
    }
}

/// Whether `id` is a well-formed account identifier.
pub fn is_well_formed(id: &str) -> (ok: bool)
    ensures
        ok == is_account_id(id@),
{
    proof {
        lemma_account_id_encoding(id@);
    }
    near_sdk::env::is_valid_account_id(id.as_bytes())
}

/// Whether `name` holds the namespace separator.
pub fn has_namespace_separator(name: &str) -> (found: bool)
    ensures
        found == name@.contains(NAMESPACE_SEPARATOR),
{
    let mut found = false;
    for c in it: name.chars()
        invariant
            it.seq() == name@,
            found <==> exists|j: int| 0 <= j < it.index() && name@[j] == NAMESPACE_SEPARATOR,
    {
        assert(c == name@[it.index() as int]);
        if c == NAMESPACE_SEPARATOR {
            found = true;
        }
    }
    found
}

} // verus!
