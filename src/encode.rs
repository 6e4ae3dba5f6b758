//! Percent-encoding of the model's query, exactly as `urlencoding` does it.
use vstd::prelude::*;
use vstd::utf8::encode_utf8;

use crate::engine::Engine;

verus! {

/// Bytes that stay as they are: ASCII letters, digits and `-`, `.`, `_`, `~`.
pub open spec fn is_unreserved(b: u8) -> bool {
    (48 <= b <= 57) || (65 <= b <= 90) || (97 <= b <= 122) || b == 45 || b == 46 || b == 95
        || b == 126
}

/// The upper-case hexadecimal digit of a value below sixteen.
pub open spec fn hex_digit(d: u8) -> char {
    "0123456789ABCDEF"@[d as int]
}

/// One byte: itself if unreserved, else `%` and its two hexadecimal digits.
pub open spec fn encode_byte(b: u8) -> Seq<char> {
    if is_unreserved(b) {
        seq![b as char]
    } else {
        seq!['%', hex_digit(b / 16), hex_digit(b % 16)]
    }
}

pub open spec fn percent_encode_bytes(bs: Seq<u8>) -> Seq<char>
    decreases bs.len(),
{
    if bs.len() == 0 {
        Seq::empty()
    } else {
        percent_encode_bytes(bs.drop_last()) + encode_byte(bs.last())
    }
}

/// The percent-encoding of a string: each byte of its UTF-8 form, in turn.
pub open spec fn url_encoded(s: Seq<char>) -> Seq<char> {
    percent_encode_bytes(encode_utf8(s))
}

/// Relies on `urlencoding::encode`: every byte of the UTF-8 form except ASCII
/// letters, digits and `-._~` becomes `%` and two upper-case hexadecimal digits.
#[verifier::external_body]
fn percent_encode(s: &str) -> (r: String)
    ensures
        r@ == url_encoded(s@),
{
    urlencoding::encode(s).into_owned()
}

/// The destination URL for a query as the model wrote it.
pub fn search_url(engine: &Engine, query: &str) -> (url: String)
    ensures
        url@ == engine.url_prefix() + url_encoded(query@),
{
    let encoded = percent_encode(query);
    engine.generate_url(encoded.as_str())
}

} // verus!
