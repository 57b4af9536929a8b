//! The leading bytes of a response body, made readable for a log.

use vstd::prelude::*;
use vstd::slice::slice_subrange;
use crate::text::utf8_text;

verus! {

/// What a log shows of a body.
#[derive(Clone, Debug, PartialEq, Eq)]
pub enum Preview {
    /// Nothing: the limit is zero.
    Off,
    /// The leading bytes as text: they are well-formed UTF-8.
    Text(String),
    /// The leading bytes in lower-case hexadecimal: they are not.
    Hex(String),
}

/// The sixteen digits.
pub open spec fn hex_digits() -> Seq<char> {
    seq!['0', '1', '2', '3', '4', '5', '6', '7', '8', '9', 'a', 'b', 'c', 'd', 'e', 'f']
}

/// Two digits for each byte, the high half first.
pub open spec fn hex_text(data: Seq<u8>) -> Seq<char> {
    Seq::new(
        2 * data.len(),
        |i: int|
            if i % 2 == 0 {
                hex_digits()[data[i / 2] as int / 16]
            } else {
                hex_digits()[data[i / 2] as int % 16]
            },
    )
}

/// The bytes that are shown: the first `limit` of them, or all if there are
/// fewer.
pub open spec fn leading(body: Seq<u8>, limit: int) -> Seq<u8> {
    if limit < body.len() {
        body.take(limit)
    } else {
        body
    }
}

/// `hex::encode` on a byte slice: for each byte in turn its high and its low
/// half as a digit of `0123456789abcdef`.
#[verifier::external_body]
fn hex_encode(data: &[u8]) -> (text: String)
    ensures
        text@ == hex_text(data@),
{
    hex::encode(data)
}

/// The preview of a body under a limit in bytes. The body itself is not
/// touched.
pub fn body_preview(body: &[u8], limit: usize) -> (p: Preview)
    ensures
        match p {
            Preview::Off => limit == 0,
            Preview::Text(s) => limit > 0 && vstd::utf8::valid_utf8(leading(body@, limit as int))
                && vstd::utf8::encode_utf8(s@) == leading(body@, limit as int),
            Preview::Hex(s) => limit > 0 && !vstd::utf8::valid_utf8(leading(body@, limit as int))
                && s@ == hex_text(leading(body@, limit as int)),
        },
{
    if limit == 0 {
        return Preview::Off;
    }
    let take: usize = if limit < body.len() {
        limit
    } else {
        body.len()
    };
    let shown = slice_subrange(body, 0, take);
    assert(shown@ =~= leading(body@, limit as int));
    match utf8_text(shown) {
        Some(s) => Preview::Text(s.to_owned()),
        None => Preview::Hex(hex_encode(shown)),
    }
}

} // verus!
