//! Text on the wire is Mac Roman; the conversions are encoding_rs's.

use vstd::prelude::*;

verus! {

/// What encoding_rs's `MACINTOSH.encode` makes of a string: its bytes, and
/// whether some character had no Mac Roman byte (and was written as an HTML
/// numeric character reference instead).
pub uninterp spec fn mac_roman_encode(s: Seq<char>) -> (Seq<u8>, bool);

/// What encoding_rs's `MACINTOSH.decode` makes of bytes.
pub uninterp spec fn mac_roman_decode(b: Seq<u8>) -> Seq<char>;

/// Whether every character is ASCII.
pub open spec fn is_ascii_text(s: Seq<char>) -> bool {
    forall|i: int| 0 <= i < s.len() ==> (#[trigger] s[i] as u32) < 128
}

/// Whether every byte is ASCII.
pub open spec fn is_ascii_bytes(b: Seq<u8>) -> bool {
    forall|i: int| 0 <= i < b.len() ==> #[trigger] b[i] < 128
}

/// The bytes of ASCII text.
pub open spec fn ascii_bytes(s: Seq<char>) -> Seq<u8> {
    s.map_values(|c: char| c as u8)
}

/// The text of ASCII bytes.
pub open spec fn ascii_text(b: Seq<u8>) -> Seq<char> {
    b.map_values(|x: u8| x as char)
}

/// Calls `encoding_rs::MACINTOSH.encode`. The result is named as a function
/// of the string; of ASCII text the contract also claims that it comes back
/// byte for byte, with no unmappable character (encoding_rs returns the
/// input's bytes unchanged in that case).
#[verifier::external_body]
pub(crate) fn encode_mac_roman(s: &str) -> (r: (Vec<u8>, bool))
    ensures
        (r.0@, r.1) == mac_roman_encode(s@),
        is_ascii_text(s@) ==> r.0@ == ascii_bytes(s@) && !r.1,
{
    let (bytes, _, had_errors) = encoding_rs::MACINTOSH.encode(s);
    (bytes.into_owned(), had_errors)
}

/// Calls `encoding_rs::MACINTOSH.decode`. The result is named as a function
/// of the bytes; of ASCII bytes the contract also claims that they come back
/// as the same characters (no byte order mark starts with an ASCII byte, and
/// ASCII input is taken over unchanged).
#[verifier::external_body]
pub(crate) fn decode_mac_roman(b: &[u8]) -> (r: String)
    ensures
        r@ == mac_roman_decode(b@),
        is_ascii_bytes(b@) ==> r@ == ascii_text(b@),
{
    let (text, _, _) = encoding_rs::MACINTOSH.decode(b);
    text.into_owned()
}

} // verus!
