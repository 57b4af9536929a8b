//! Contracts for the few string operations of the standard library that the
//! rest of the crate builds on.

use vstd::prelude::*;

verus! {

/// `String::push_str` appends the given slice to the end of the string and
/// leaves what was there in place.
pub assume_specification[ String::push_str ](s: &mut String, string: &str)
    ensures
        final(s)@ == old(s)@ + string@,
;

/// The lower-case form of an ASCII capital; any other character as it is.
pub open spec fn lower_char(c: char) -> char {
    if 'A' <= c <= 'Z' {
        ((c as u32) + 32) as char
    } else {
        c
    }
}

/// A text with its ASCII capitals in lower case.
pub open spec fn ascii_lower(s: Seq<char>) -> Seq<char> {
    Seq::new(s.len(), |i: int| lower_char(s[i]))
}

/// Two texts are the same but for the case of their ASCII letters.
pub open spec fn same_ignoring_case(a: Seq<char>, b: Seq<char>) -> bool {
    ascii_lower(a) == ascii_lower(b)
}

/// `str::eq_ignore_ascii_case` compares two slices as if the ASCII letters
/// of both had been put in lower case; all other characters must be equal.
pub assume_specification[ str::eq_ignore_ascii_case ](s: &str, other: &str) -> (same: bool)
    ensures
        same == same_ignoring_case(s@, other@),
;

/// `std::str::from_utf8`: the bytes as a string slice exactly when they are
/// well-formed UTF-8; the slice then has those bytes.
#[verifier::external_body]
pub(crate) fn utf8_text(bytes: &[u8]) -> (text: Option<&str>)
    ensures
        text.is_some() == vstd::utf8::valid_utf8(bytes@),
        text matches Some(s) ==> vstd::utf8::encode_utf8(s@) == bytes@,
{
    match std::str::from_utf8(bytes) {
        Ok(s) => Some(s),
        Err(_) => None,
    }
}

/// Bytes below 128 are well-formed UTF-8: each stands for one character.
pub proof fn ascii_is_utf8(bytes: Seq<u8>)
    requires
        forall|i: int| 0 <= i < bytes.len() ==> #[trigger] bytes[i] < 128,
    ensures
        vstd::utf8::valid_utf8(bytes),
    decreases bytes.len(),
{
    if bytes.len() > 0 {
        let b = bytes[0];
        assert(b < 128);
        assert(vstd::utf8::is_leading_byte_width_1(b));
        assert((b & 0x7f) as u32 <= 0x7f) by (bit_vector);
        assert(vstd::utf8::length_of_first_codepoint(bytes) == 1);
        assert(vstd::utf8::decode_first_codepoint(bytes) <= 0x7f);
        assert(vstd::utf8::valid_first_scalar(bytes));
        let rest = vstd::utf8::pop_first_scalar(bytes);
        assert(rest == bytes.subrange(1, bytes.len() as int));
        assert forall|i: int| 0 <= i < rest.len() implies #[trigger] rest[i] < 128 by {
            assert(rest[i] == bytes[i + 1]);
        }
        ascii_is_utf8(rest);
    }
}

/// The characters that stand for bytes below 128, one for each byte.
pub open spec fn ascii_chars(bytes: Seq<u8>) -> Seq<char> {
    Seq::new(bytes.len(), |i: int| bytes[i] as char)
}

/// Bytes below 128 decode to one character each, and no other text has
/// them as its UTF-8 form.
pub proof fn ascii_decodes_bytewise(bytes: Seq<u8>)
    requires
        forall|i: int| 0 <= i < bytes.len() ==> #[trigger] bytes[i] < 128,
    ensures
        vstd::utf8::valid_utf8(bytes),
        vstd::utf8::decode_utf8(bytes) == ascii_chars(bytes),
        forall|text: Seq<char>| vstd::utf8::encode_utf8(text) == bytes ==> text == ascii_chars(bytes),
    decreases bytes.len(),
{
    ascii_is_utf8(bytes);
    if bytes.len() > 0 {
        let b = bytes[0];
        assert(b < 128);
        assert(b < 128 ==> (b & 0x7f) as u32 == b as u32) by (bit_vector);
        let rest = vstd::utf8::pop_first_scalar(bytes);
        assert(rest == bytes.subrange(1, bytes.len() as int));
        assert forall|i: int| 0 <= i < rest.len() implies #[trigger] rest[i] < 128 by {
            assert(rest[i] == bytes[i + 1]);
        }
        ascii_decodes_bytewise(rest);
        assert(vstd::utf8::decode_first_scalar(bytes) == b as u32);
        assert(vstd::utf8::decode_utf8(bytes) =~= ascii_chars(bytes));
    } else {
        assert(vstd::utf8::decode_utf8(bytes) =~= ascii_chars(bytes));
    }
    assert forall|text: Seq<char>| vstd::utf8::encode_utf8(text) == bytes implies text
        == ascii_chars(bytes) by {
        vstd::utf8::encode_utf8_decode_utf8(text);
    }
}

} // verus!
