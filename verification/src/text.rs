//! Short ASCII strings, checked by `tinystr`, and base64 text, checked by `base64`.
use base64::Engine;
use vstd::prelude::*;

verus! {

/// A character that `TinyAsciiStr` keeps: ASCII and not NUL.
pub open spec fn is_tiny_ascii_char(c: char) -> bool {
    1 <= (c as u32) && (c as u32) <= 127
}

/// What `TinyAsciiStr::<N>::try_from_str` accepts: at most `n` characters,
/// each of them non-NUL ASCII.
pub open spec fn fits_tiny_ascii(s: Seq<char>, n: nat) -> bool {
    &&& s.len() <= n
    &&& forall|i: int| 0 <= i < s.len() ==> is_tiny_ascii_char(#[trigger] s[i])
}

/// Parses `s` into a `TinyAsciiStr<N>` and gives back its text.
///
/// `tinystr`'s `try_from_utf8_inner` refuses more than `N` bytes, any byte of 0x80 or
/// above and any NUL byte; otherwise it keeps the bytes as they are, so `as_str`
/// returns the input. The contract states exactly that, over characters (for ASCII
/// input the byte count and the character count agree).
#[verifier::external_body]
pub(crate) fn parse_tiny_ascii<const N: usize>(s: &str) -> (r: Option<String>)
    ensures
        r is Some <==> fits_tiny_ascii(s@, N as nat),
        r matches Some(t) ==> t@ == s@,
{
    match tinystr::TinyAsciiStr::<N>::try_from_str(s) {
        Ok(t) => Some(t.as_str().to_string()),
        Err(_) => None,
    }
}

/// Whether the `base64` crate's `STANDARD` engine decodes the given text without error.
pub uninterp spec fn base64_standard_decodable(text: Seq<char>) -> bool;

/// Asks `base64::engine::general_purpose::STANDARD.decode` whether `s` is valid
/// base64 (padded, canonical). The answer is named, not described.
#[verifier::external_body]
pub(crate) fn base64_decodes(s: &str) -> (r: bool)
    ensures
        r == base64_standard_decodable(s@),
{
    base64::engine::general_purpose::STANDARD.decode(s).is_ok()
}

/// The number of bytes of the UTF-8 encoding of a text.
pub open spec fn utf8_len(s: Seq<char>) -> nat {
    vstd::utf8::encode_utf8(s).len()
}

/// Whether two strings hold the same text.
pub fn str_eq(a: &str, b: &str) -> (r: bool)
    ensures
        r == (a@ == b@),
{
    let n = a.unicode_len();
    let m = b.unicode_len();
    if n != m {
        return false;
    }
    let mut i: usize = 0;
    while i < n
        invariant
            n == a@.len(),
            m == b@.len(),
            n == m,
            i <= n,
            forall|j: int| 0 <= j < i ==> a@[j] == b@[j],
        decreases n - i,
    {
        if a.get_char(i) != b.get_char(i) {
            return false;
        }
        i = i + 1;
    }
    assert(a@ =~= b@);
    true
}

} // verus!
