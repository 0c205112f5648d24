//! Lengths and comparisons of texts.

use vstd::prelude::*;

verus! {

/// The number of bytes that a text takes in UTF-8.
pub open spec fn byte_len(text: Seq<char>) -> nat {
    vstd::utf8::encode_utf8(text).len()
}

/// The text inside an optional string.
pub open spec fn text_of(value: Option<String>) -> Option<Seq<char>> {
    match value {
        Some(text) => Some(text@),
        None => None,
    }
}

/// A copy of an optional string.
pub fn clone_text(value: &Option<String>) -> (copy: Option<String>)
    ensures
        text_of(copy) == text_of(*value),
{
    match value {
        Some(text) => Some(text.clone()),
        None => None,
    }
}

/// Whether a string takes at most `limit` bytes.
pub fn fits(text: &String, limit: usize) -> (fitting: bool)
    ensures
        fitting == (byte_len(text@) <= limit),
{
    text.as_str().as_bytes().len() <= limit
}

/// Whether a character belongs to the alphabet of URL-safe base64.
pub open spec fn is_base64url_char(c: char) -> bool {
    ||| 'A' <= c <= 'Z'
    ||| 'a' <= c <= 'z'
    ||| '0' <= c <= '9'
    ||| c == '-'
    ||| c == '_'
}

/// Whether a text is URL-safe base64 without padding.
pub open spec fn is_base64url(text: Seq<char>) -> bool {
    forall|i: int| 0 <= i < text.len() ==> is_base64url_char(#[trigger] text[i])
}

/// A text in URL-safe base64 without padding holds no `=`.
pub proof fn lemma_base64url_has_no_padding(text: Seq<char>)
    requires
        is_base64url(text),
    ensures
        !text.contains('='),
{
    if text.contains('=') {
        let i = choose|i: int| 0 <= i < text.len() && text[i] == '=';
        assert(is_base64url_char(text[i]));
    }
}

/// Two texts are the same exactly if their bytes in UTF-8 are the same.
pub proof fn lemma_bytes_tell_texts_apart(left: Seq<char>, right: Seq<char>)
    ensures
        (vstd::utf8::encode_utf8(left) == vstd::utf8::encode_utf8(right)) <==> left == right,
{
    vstd::utf8::encode_utf8_decode_utf8(left);
    vstd::utf8::encode_utf8_decode_utf8(right);
}

/// Compares two secrets without stopping at the first difference.
///
/// Every byte of both texts is looked at whenever they are of one length, so
/// that the time taken does not tell how much of a guess was right.
pub fn secrets_match(left: &str, right: &str) -> (equal: bool)
    ensures
        equal == (left@ == right@),
{
    let left_bytes = left.as_bytes();
    let right_bytes = right.as_bytes();
    proof {
        lemma_bytes_tell_texts_apart(left@, right@);
    }
    if left_bytes.len() != right_bytes.len() {
        return false;
    }
    let mut difference: u8 = 0;
    let mut index: usize = 0;
    while index < left_bytes.len()
        invariant
            index <= left_bytes.len(),
            left_bytes.len() == right_bytes.len(),
            difference == 0 <==> forall|i: int| 0 <= i < index ==> left_bytes@[i] == right_bytes@[i],
        decreases left_bytes.len() - index,
    {
        let x = left_bytes[index];
        let y = right_bytes[index];
        proof {
            let d = difference;
            assert(((d | (x ^ y)) == 0) <==> (d == 0 && x == y)) by (bit_vector);
        }
        difference = difference | (x ^ y);
        index += 1;
    }
    proof {
        if difference == 0 {
            assert(left_bytes@ =~= right_bytes@);
        }
    }
    difference == 0
}

} // verus!
