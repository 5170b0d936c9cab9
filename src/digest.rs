use vstd::prelude::*;

verus! {

/// The lowercase hexadecimal MD5 digest of the UTF-8 bytes of a text.
pub uninterp spec fn md5_hex_of(s: Seq<char>) -> Seq<char>;

/// A lowercase hexadecimal digit.
pub open spec fn is_hex_digit(c: char) -> bool {
    ('0' <= c && c <= '9') || ('a' <= c && c <= 'f')
}

/// Relies on md5::compute and the digest's `LowerHex` formatting: the sixteen
/// digest bytes are written as two lowercase hex digits each.
#[verifier::external_body]
fn md5_lower_hex(input: &str) -> (r: String)
    ensures
        r@ == md5_hex_of(input@),
        r@.len() == 32,
        forall|i: int| 0 <= i < r@.len() ==> is_hex_digit(#[trigger] r@[i]),
{
    format!("{:x}", md5::compute(input.as_bytes()))
}

/// The name under which a download of `input` is cached: its MD5 digest in
/// lowercase hexadecimal.
pub fn generate_md5(input: &str) -> (r: String)
    ensures
        r@ == md5_hex_of(input@),
        r@.len() == 32,
        forall|i: int| 0 <= i < r@.len() ==> is_hex_digit(#[trigger] r@[i]),
{
    md5_lower_hex(input)
}

} // verus!
