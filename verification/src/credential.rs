//! The bearer credential: which texts can be sent as a header value.

use vstd::prelude::*;
use vstd::utf8::*;

verus! {

/// Whether a byte may stand in a header value: a tab, or anything from the
/// space upwards but the delete character.
pub open spec fn header_byte(b: u8) -> bool {
    (b >= 32 && b != 127) || b == 9
}

/// Whether every byte of a sequence is a header byte.
pub open spec fn header_bytes(bytes: Seq<u8>) -> bool {
    forall|i: int| 0 <= i < bytes.len() ==> header_byte(#[trigger] bytes[i])
}

/// Whether a credential can be sent as a header value: every byte of its
/// UTF-8 encoding is a header byte.
pub open spec fn encodable(token: Seq<char>) -> bool {
    header_bytes(encode_utf8(token))
}

/// Whether a character may stand in a credential: a tab, or anything from
/// the space upwards but the delete character.
pub open spec fn header_char(c: char) -> bool {
    c as u32 == 9 || (c as u32 >= 32 && c as u32 != 127)
}

/// The text of an optional credential.
pub open spec fn text_of(token: Option<String>) -> Option<Seq<char>> {
    match token {
        Some(text) => Some(text@),
        None => None,
    }
}

/// Whether an optional credential can be sent: there is none, or it is
/// encodable.
pub open spec fn credential_ok(token: Option<Seq<char>>) -> bool {
    match token {
        Some(text) => encodable(text),
        None => true,
    }
}

proof fn single_byte_is_the_character(s: u32)
    by (bit_vector)
    requires
        s <= 0x7F,
    ensures
        (s & 0x7F) as u8 == s,
{
}

proof fn longer_encodings_stay_above_ascii(s: u32)
    by (bit_vector)
    ensures
        0xC0u8 | ((s >> 6) & 0x1F) as u8 >= 0x80,
        0xE0u8 | ((s >> 12) & 0x0F) as u8 >= 0x80,
        0xF0u8 | ((s >> 18) & 0x7) as u8 >= 0x80,
        0x80u8 | (s & 0x3F) as u8 >= 0x80,
        0x80u8 | ((s >> 6) & 0x3F) as u8 >= 0x80,
        0x80u8 | ((s >> 12) & 0x3F) as u8 >= 0x80,
{
}

/// The encoding of one character is made of header bytes exactly when the
/// character is a header character.
proof fn one_character(c: char)
    ensures
        header_bytes(encode_scalar(c as u32)) <==> header_char(c),
{
    let s = c as u32;
    let bytes = encode_scalar(s);
    char_is_scalar(c);
    if has_width_1_encoding(s) {
        single_byte_is_the_character(s);
        assert(bytes[0] == s);
    } else {
        longer_encodings_stay_above_ascii(s);
        assert forall|i: int| 0 <= i < bytes.len() implies header_byte(#[trigger] bytes[i]) by {
            if has_width_2_encoding(s) {
                assert(bytes[0] == leading_byte_width_2(s));
                assert(bytes[1] == last_continuation_byte(s));
            } else if has_width_3_encoding(s) {
                assert(bytes[0] == leading_byte_width_3(s));
                assert(bytes[1] == second_last_continuation_byte(s));
                assert(bytes[2] == last_continuation_byte(s));
            } else {
                assert(bytes[0] == leading_byte_width_4(s));
                assert(bytes[1] == third_last_continuation_byte(s));
                assert(bytes[2] == second_last_continuation_byte(s));
                assert(bytes[3] == last_continuation_byte(s));
            }
        }
    }
}

/// Two runs of bytes joined are header bytes exactly when both are.
proof fn joined(front: Seq<u8>, back: Seq<u8>)
    ensures
        header_bytes(front + back) <==> header_bytes(front) && header_bytes(back),
{
    let whole = front + back;
    if header_bytes(whole) {
        assert forall|i: int| 0 <= i < front.len() implies header_byte(#[trigger] front[i]) by {
            assert(whole[i] == front[i]);
        }
        assert forall|i: int| 0 <= i < back.len() implies header_byte(#[trigger] back[i]) by {
            assert(whole[front.len() + i] == back[i]);
        }
    }
    if header_bytes(front) && header_bytes(back) {
        assert forall|i: int| 0 <= i < whole.len() implies header_byte(#[trigger] whole[i]) by {
            if i < front.len() {
                assert(whole[i] == front[i]);
            } else {
                assert(whole[i] == back[i - front.len()]);
            }
        }
    }
}

/// A credential can be sent as a header value exactly when each of its
/// characters is a header character: a line feed, or any other control
/// character but the tab, rules it out, and characters beyond ASCII do not.
pub proof fn encodable_by_characters(token: Seq<char>)
    ensures
        encodable(token) <==> forall|i: int| 0 <= i < token.len() ==> header_char(#[trigger] token[i]),
    decreases token.len(),
{
    if token.len() > 0 {
        let rest = token.drop_first();
        encodable_by_characters(rest);
        one_character(token[0]);
        joined(encode_scalar(token[0] as u32), encode_utf8(rest));
        if forall|i: int| 0 <= i < token.len() ==> header_char(#[trigger] token[i]) {
            assert forall|i: int| 0 <= i < rest.len() implies header_char(#[trigger] rest[i]) by {
                assert(rest[i] == token[i + 1]);
            }
        }
        if header_char(token[0]) && forall|i: int| 0 <= i < rest.len() ==> header_char(#[trigger] rest[i]) {
            assert forall|i: int| 0 <= i < token.len() implies header_char(#[trigger] token[i]) by {
                if i > 0 {
                    assert(token[i] == rest[i - 1]);
                }
            }
        }
    }
}

} // verus!
