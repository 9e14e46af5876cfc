//! Identifiers of instrumentation sites: a short, stable name for a place in
//! a source file, derived from the file's path, the line and the column.
use crate::text::{decimal, push_decimal};
use sha2::{Digest, Sha256};
use vstd::prelude::*;
use vstd::slice::slice_subrange;
use vstd::string::*;
use vstd::utf8::encode_utf8;

verus! {

/// The SHA-256 digest of `data`.
pub uninterp spec fn sha256(data: Seq<u8>) -> Seq<u8>;

/// `Sha256::digest` of the crate `sha2`: the digest of the bytes given, which
/// is 32 bytes long.
#[verifier::external_body]
fn sha256_digest(data: &[u8]) -> (r: Vec<u8>)
    ensures
        r@ == sha256(data@),
        r@.len() == 32,
{
    Sha256::digest(data).to_vec()
}

/// The lowercase hexadecimal digit of `d`, for `d` below sixteen.
pub open spec fn hex_digit(d: int) -> char {
    if d == 0 {
        '0'
    } else if d == 1 {
        '1'
    } else if d == 2 {
        '2'
    } else if d == 3 {
        '3'
    } else if d == 4 {
        '4'
    } else if d == 5 {
        '5'
    } else if d == 6 {
        '6'
    } else if d == 7 {
        '7'
    } else if d == 8 {
        '8'
    } else if d == 9 {
        '9'
    } else if d == 10 {
        'a'
    } else if d == 11 {
        'b'
    } else if d == 12 {
        'c'
    } else if d == 13 {
        'd'
    } else if d == 14 {
        'e'
    } else {
        'f'
    }
}

/// `bytes` written in lowercase hexadecimal: two digits for each byte, the
/// high half first.
pub open spec fn hex_lower(bytes: Seq<u8>) -> Seq<char> {
    Seq::new(
        2 * bytes.len(),
        |i: int|
            if i % 2 == 0 {
                hex_digit(bytes[i / 2] as int / 16)
            } else {
                hex_digit(bytes[i / 2] as int % 16)
            },
    )
}

/// `hex::encode` of the crate `hex`: the bytes given, written in lowercase
/// hexadecimal.
#[verifier::external_body]
fn hex_encode(bytes: &[u8]) -> (r: String)
    ensures
        r@ == hex_lower(bytes@),
{
    hex::encode(bytes)
}

/// The text that is hashed for a site: the file, the line and the column,
/// with a colon between them.
pub open spec fn site_text(file: Seq<char>, line: u32, column: u32) -> Seq<char> {
    file + seq![':'] + decimal(line as nat) + seq![':'] + decimal(column as nat)
}

/// The identifier of the site at `line` and `column` of `file`: the first
/// four bytes of the SHA-256 digest of the site's text, in hexadecimal.
pub open spec fn site_id(file: Seq<char>, line: u32, column: u32) -> Seq<char> {
    hex_lower(sha256(encode_utf8(site_text(file, line, column))).take(4))
}

/// Computes the identifier of the site at `line` and `column` of `file`.
///
/// The result depends on these three values alone: neither on the order in
/// which sites are visited nor on how many were visited before.
pub fn compute_id(file: &str, line: u32, column: u32) -> (id: String)
    ensures
        id@ == site_id(file@, line, column),
        id@.len() == 8,
{
    let mut text = String::from_str(file);
    text.push(':');
    push_decimal(&mut text, line);
    text.push(':');
    push_decimal(&mut text, column);
    assert(text@ == site_text(file@, line, column));
    let digest = sha256_digest(text.as_str().as_bytes());
    let head = slice_subrange(digest.as_slice(), 0, 4);
    hex_encode(head)
}

} // verus!
